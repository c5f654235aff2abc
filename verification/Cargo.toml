[package]
name = "partiri"
version = "0.1.0"
edition = "2021"
publish = false

[dependencies]
clap = { version = "4", features = ["derive"] }
crossbeam-channel = "0.5"
dirs = "5"
getrandom = "0.2"
inquire = "0.7"
json5 = "0.4"
jsonc-parser = "*"
lsp-server = "0.7"
lsp-types = "0.95"
owo-colors = "4"
schemars = "0.8"
serde = { version = "1", features = ["derive"] }
serde_json = "1"
tabled = "*"
toml = "0.8"
ureq = { version = "2", features = ["json"] }
webbrowser = "1"
