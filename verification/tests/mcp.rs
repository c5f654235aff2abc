//! The configuration files of other tools.
use partiri::json::Json;
use partiri::mcp::{
    chosen_client, install, installed_report, no_entry, nothing_to_remove, overwrite_warning,
    read_config, removed_report, server_entry, slugs, uninstall, write_config, BaseDir, Family,
    McpClient, Platform, CLIENTS, MCP_URL, SERVER_NAME,
};

fn family() -> Family {
    Family { title: "Acme".to_string(), word: "acme".to_string() }
}

fn value(json: &Json) -> serde_json::Value {
    serde_json::from_str(&write_config(json).unwrap()).unwrap()
}

#[test]
fn every_tool_is_chosen_by_its_name_in_any_case() {
    let f = family();
    for i in 0..CLIENTS {
        let client = McpClient::at(i);
        let slug = client.slug(&f);
        assert_eq!(McpClient::from_slug(&slug, &f), Some(client));
        assert_eq!(McpClient::from_slug(&slug.to_uppercase(), &f), Some(client));
    }
    assert_eq!(
        slugs(&f),
        ["acme-desktop", "acme-code", "cursor", "vscode", "copilot-cli", "windsurf"]
    );
    let err = chosen_client("emacs", &f).unwrap_err();
    assert_eq!(
        err.to_text(),
        "Unknown client 'emacs'. Valid options: acme-desktop, acme-code, cursor, vscode, copilot-cli, windsurf"
    );
}

#[test]
fn files_are_where_the_tools_look_for_them() {
    let f = family();
    let (base, parts) = McpClient::ClaudeDesktop.config_path(&f, Platform::Linux).unwrap();
    assert_eq!(base, BaseDir::Config);
    assert_eq!(parts, ["Acme", "acme_desktop_config.json"]);
    let (base, _) = McpClient::ClaudeDesktop.config_path(&f, Platform::MacOs).unwrap();
    assert_eq!(base, BaseDir::Data);
    assert!(McpClient::Vscode.config_path(&f, Platform::Other).is_none());
    let (base, parts) = McpClient::ClaudeCode.config_path(&f, Platform::Other).unwrap();
    assert_eq!(base, BaseDir::Home);
    assert_eq!(parts, [".acme.json"]);
    let (_, parts) = McpClient::Windsurf.config_path(&f, Platform::Windows).unwrap();
    assert_eq!(parts, [".codeium", "windsurf", "mcp_config.json"]);
    assert_eq!(McpClient::Vscode.servers_key(), "servers");
    assert_eq!(McpClient::Cursor.servers_key(), "mcpServers");
}

#[test]
fn configs_are_read_leniently() {
    assert_eq!(value(&read_config(None).unwrap()), value(&Json::object()));
    assert_eq!(value(&read_config(Some(" \n")).unwrap()), value(&Json::object()));
    let read = read_config(Some(" { \"a\": [1, 2.5, true, null, \"x\"] } \n")).unwrap();
    assert_eq!(value(&read)["a"][1], 2.5);
    assert_eq!(value(&read)["a"][4], "x");
    assert!(read_config(Some("{")).is_err());
}

#[test]
fn written_configs_end_with_a_newline() {
    let text = write_config(&Json::object().with("a", Json::num(1))).unwrap();
    assert_eq!(text, "{\n  \"a\": 1\n}\n");
}

#[test]
fn install_adds_one_entry_and_uninstall_takes_it_away() {
    let before = r#"{ "theme": "dark", "mcpServers": { "other": { "url": "x" } } }"#;
    let config = read_config(Some(before)).unwrap();
    let (config, replaced) = install(config, "mcpServers").unwrap();
    assert!(!replaced);
    let v = value(&config);
    assert_eq!(v["theme"], "dark");
    assert_eq!(v["mcpServers"]["other"]["url"], "x");
    assert_eq!(v["mcpServers"][SERVER_NAME]["url"], MCP_URL);
    let (config, replaced) = install(config, "mcpServers").unwrap();
    assert!(replaced);
    let config = uninstall(config, "mcpServers").unwrap();
    assert_eq!(value(&config), serde_json::from_str::<serde_json::Value>(before).unwrap());
    assert!(uninstall(config, "mcpServers").is_none());
    assert_eq!(server_entry().get_str("url"), Some(MCP_URL));
}

#[test]
fn other_shapes_are_refused() {
    let err = install(Json::num(1), "servers").unwrap_err();
    assert_eq!(err.to_text(), "Config file is not a JSON object.");
    let odd = read_config(Some(r#"{ "servers": [] }"#)).unwrap();
    let err = install(odd, "servers").unwrap_err();
    assert_eq!(err.to_text(), "'servers' in config is not a JSON object.");
    let (made, _) = install(Json::object(), "servers").unwrap();
    assert_eq!(value(&made)["servers"][SERVER_NAME]["url"], MCP_URL);
}

#[test]
fn reports_name_the_tool_and_the_file() {
    let f = family();
    let report = installed_report(McpClient::ClaudeDesktop, &f, "/f");
    assert_eq!(report.message, "Installed MCP server into Acme Desktop (/f)");
    assert_eq!(report.notes, ["→ Restart Acme Desktop for changes to take effect."]);
    assert!(installed_report(McpClient::Cursor, &f, "/f").notes.is_empty());
    assert_eq!(
        removed_report(McpClient::ClaudeCode, &f, "/f").message,
        "Removed MCP server from Acme Code (/f)"
    );
    assert_eq!(
        overwrite_warning("/f"),
        "A 'partiri-cloud' entry already exists in /f. It will be overwritten."
    );
    assert_eq!(
        nothing_to_remove("/f").to_text(),
        "Config file does not exist: /f. Nothing to remove."
    );
    assert_eq!(no_entry("/f").to_text(), "No 'partiri-cloud' entry found in /f.");
}
