//! `partiri init`: create a `.partiri.jsonc`, by a wizard that detects the
//! project and asks for the rest, or as a template to fill in.
use vstd::prelude::*;
use vstd::string::*;

use crate::client::{Pod, Project, Region, RegionPricing, WorkspaceSecret, Workspace};
use crate::common::{project_label, project_labels, workspace_label, workspace_labels};
use crate::config::{
    config_display, config_display_of, is_valid, known_deploy_type, known_runtime,
    valid_config_meaning, ConfigOverride, PartiriConfig, ServiceConfig, MAX_NAME_LEN,
};
use crate::error::{error_text, validation_error_with_hint, validation_hint_of};
use crate::error::{CliErrorView, Failure, FailureView};
use crate::json::{
    member_of, member_string, parse_json, parsed_json, string_of_json, strings_view, Json, JsonView,
    Member,
};
use crate::output::{Ctx, Report, ReportView};
use crate::seqs::{filter_insert, filter_push, first_item, first_where, first_where_range};
use crate::service::env::{lines, lines_of};
use crate::service::push::price_of_pod;
use crate::service::token::{secret_label, secret_label_of};
use crate::text::{
    cat2, cat3, cat4, cat5, cat6, chars_of, ends_with, find_char, find_from, opt_str_view, opt_view,
    owned, starts_with, str_eq, string_of, strs, trim, trimmed, views,
};

verus! {

/// The flags of `init`.
#[derive(Debug)]
pub struct InitArgs {
    /// Write a template in place of running the wizard.
    pub template: bool,
}

// ─── Project detection ─────────────────────────────────────────────────────

/// What was found out about a project.
#[derive(Debug)]
pub struct DetectedProject {
    pub runtime: String,
    pub name: Option<String>,
    pub build_command: Option<String>,
    pub run_command: Option<String>,
}

pub ghost struct DetectedView {
    pub runtime: Seq<char>,
    pub name: Option<Seq<char>>,
    pub build_command: Option<Seq<char>>,
    pub run_command: Option<Seq<char>>,
}

impl View for DetectedProject {
    type V = DetectedView;

    open spec fn view(&self) -> DetectedView {
        DetectedView {
            runtime: self.runtime@,
            name: opt_view(self.name),
            build_command: opt_view(self.build_command),
            run_command: opt_view(self.run_command),
        }
    }
}

/// The directory that a project is detected in: which files are there, the
/// texts of those that are looked into (none where a file is missing or cannot
/// be read), and the names of all entries.
#[derive(Debug)]
pub struct ProjectFiles {
    pub deno_json: bool,
    pub deno_jsonc: bool,
    /// The text of `deno.json`, or else of `deno.jsonc`.
    pub deno_text: Option<String>,
    pub package_json: bool,
    pub package_text: Option<String>,
    pub cargo_toml: bool,
    pub cargo_text: Option<String>,
    pub requirements_txt: bool,
    pub pyproject_toml: bool,
    pub go_mod: bool,
    pub go_text: Option<String>,
    pub gemfile: bool,
    pub mix_exs: bool,
    pub composer_json: bool,
    pub pom_xml: bool,
    pub build_gradle: bool,
    pub build_gradle_kts: bool,
    pub cmake_lists: bool,
    pub entries: Vec<String>,
}

#[verifier::external_type_specification]
#[verifier::external_body]
pub struct ExTomlValue(toml::Value);

/// The value that a TOML text stands for, as `toml::from_str` reads it; none
/// for a text that it refuses. Numbers and dates are kept as their texts.
pub uninterp spec fn parsed_toml(text: Seq<char>) -> Option<JsonView>;

/// The library's form of a `toml::Value`, variant by variant.
#[verifier::external_body]
fn json_of_toml(value: toml::Value) -> Json {
    match value {
        toml::Value::String(s) => Json::Str(s),
        toml::Value::Integer(n) => Json::Num(n.to_string()),
        toml::Value::Float(n) => Json::Num(n.to_string()),
        toml::Value::Boolean(b) => Json::Bool(b),
        toml::Value::Datetime(d) => Json::Num(d.to_string()),
        toml::Value::Array(items) => Json::Arr(items.into_iter().map(json_of_toml).collect()),
        toml::Value::Table(map) => Json::Obj(
            map.into_iter().map(|(key, v)| Member { key, value: json_of_toml(v) }).collect(),
        ),
    }
}

/// `toml::from_str` into a `toml::Value`. Whether it reads the text and what it
/// makes of it depend on the characters of `text` alone.
#[verifier::external_body]
fn parse_toml(text: &str) -> (r: Option<Json>)
    ensures
        r is Some <==> parsed_toml(text@) is Some,
        r is Some ==> r->0@ == parsed_toml(text@)->0,
{
    toml::from_str::<toml::Value>(text).ok().map(json_of_toml)
}

/// What a Cargo manifest says of the name of its package.
pub ghost enum CargoName {
    /// There is no manifest that parses.
    Nothing,
    /// The manifest parses and has no package, or one without a name.
    Missing,
    /// The name, where it is a string.
    Name(Option<Seq<char>>),
}

/// The package name in the value of a manifest.
pub open spec fn cargo_name_in(manifest: JsonView) -> CargoName {
    match member_of(manifest, "package"@) {
        Some(package) => match member_of(package, "name"@) {
            Some(name) => CargoName::Name(string_of_json(name)),
            None => CargoName::Missing,
        },
        None => CargoName::Missing,
    }
}

/// The package name in the text of a manifest.
pub open spec fn cargo_name_of(text: Option<String>) -> CargoName {
    match text {
        Some(t) => match parsed_toml(t@) {
            Some(manifest) => cargo_name_in(manifest),
            None => CargoName::Nothing,
        },
        None => CargoName::Nothing,
    }
}

/// The outcome of looking for the package name in a manifest.
#[derive(Debug)]
pub enum CargoRead {
    Nothing,
    Missing,
    Name(Option<String>),
}

impl View for CargoRead {
    type V = CargoName;

    open spec fn view(&self) -> CargoName {
        match self {
            CargoRead::Nothing => CargoName::Nothing,
            CargoRead::Missing => CargoName::Missing,
            CargoRead::Name(n) => CargoName::Name(opt_view(*n)),
        }
    }
}

/// The package name in the value of a manifest.
pub fn cargo_name(manifest: &Json) -> (r: CargoRead)
    ensures
        r@ == cargo_name_in(manifest@),
{
    match manifest.get("package") {
        Some(package) => match package.get("name") {
            Some(name) => match name.as_str() {
                Some(s) => CargoRead::Name(Some(s.to_owned())),
                None => CargoRead::Name(None),
            },
            None => CargoRead::Missing,
        },
        None => CargoRead::Missing,
    }
}

fn read_cargo(text: &Option<String>) -> (r: CargoRead)
    ensures
        r@ == cargo_name_of(*text),
{
    match text {
        Some(t) => match parse_toml(t.as_str()) {
            Some(manifest) => cargo_name(&manifest),
            None => CargoRead::Nothing,
        },
        None => CargoRead::Nothing,
    }
}

/// The `name` of a JSON manifest, given its text.
pub open spec fn json_name_of(text: Option<String>) -> Option<Seq<char>> {
    match text {
        Some(t) => match parsed_json(t@) {
            Some(v) => member_string(v, "name"@),
            None => None,
        },
        None => None,
    }
}

fn json_name(text: &Option<String>) -> (r: Option<String>)
    ensures
        opt_view(r) == json_name_of(*text),
{
    match text {
        Some(t) => match parse_json(t.as_str()) {
            Ok(v) => match v.get_str("name") {
                Some(s) => Some(s.to_owned()),
                None => None,
            },
            Err(_) => None,
        },
        None => None,
    }
}

/// The text without every `module ` at its start.
pub open spec fn without_module(s: Seq<char>) -> Seq<char>
    decreases s.len(),
{
    if "module "@.len() > 0 && "module "@.is_prefix_of(s) {
        without_module(s.skip("module "@.len() as int))
    } else {
        s
    }
}

pub open spec fn is_module_line() -> spec_fn(Seq<char>) -> bool {
    |l: Seq<char>| "module "@.is_prefix_of(l)
}

/// The module that a `go.mod` declares: on its first line that starts with
/// `module `.
pub open spec fn go_module(text: Seq<char>) -> Option<Seq<char>> {
    match first_item(lines_of(text), is_module_line()) {
        Some(l) => Some(trimmed(without_module(l))),
        None => None,
    }
}

/// The module name in the text of a `go.mod`.
pub fn go_module_name(text: &str) -> (r: Option<String>)
    ensures
        opt_view(r) == go_module(text@),
{
    let all = lines(text);
    let ghost texts = lines_of(text@);
    let ghost p = is_module_line();
    let mut i: usize = 0;
    while i < all.len()
        invariant
            i <= all@.len(),
            views(all@) == texts,
            texts == lines_of(text@),
            p == is_module_line(),
            first_where(texts, p, 0) == first_where(texts, p, i as int),
        decreases all@.len() - i,
    {
        assert(texts[i as int] == all@[i as int]@);
        if starts_with(all[i].as_str(), "module ") {
            assert(p(texts[i as int]));
            let rest = strip_module(all[i].as_str());
            return Some(trim(rest.as_str()).to_owned());
        }
        assert(!p(texts[i as int]));
        i += 1;
    }
    None
}

fn strip_module(line: &str) -> (r: String)
    ensures
        r@ == without_module(line@),
    decreases line@.len(),
{
    proof {
        reveal_strlit("module ");
        assert("module "@.len() == 7);
    }
    if starts_with(line, "module ") {
        let cs = chars_of(line);
        let rest = string_of(&cs, 7, cs.len());
        assert(rest@ =~= line@.skip(7));
        strip_module(rest.as_str())
    } else {
        line.to_owned()
    }
}

/// The name of a .NET project or solution.
pub open spec fn is_dotnet_file(name: Seq<char>) -> bool {
    ".csproj"@.is_suffix_of(name) || ".fsproj"@.is_suffix_of(name) || ".sln"@.is_suffix_of(name)
}

pub open spec fn has_dotnet(entries: Seq<String>) -> bool {
    exists|i: int| 0 <= i < entries.len() && is_dotnet_file((#[trigger] entries[i])@)
}

fn any_dotnet(entries: &Vec<String>) -> (r: bool)
    ensures
        r == has_dotnet(entries@),
{
    for i in 0..entries.len()
        invariant
            forall|k: int| 0 <= k < i ==> !is_dotnet_file((#[trigger] entries@[k])@),
    {
        let n = entries[i].as_str();
        if ends_with(n, ".csproj") || ends_with(n, ".fsproj") || ends_with(n, ".sln") {
            return true;
        }
    }
    false
}

pub open spec fn found(
    runtime: Seq<char>,
    name: Option<Seq<char>>,
    build: Option<Seq<char>>,
    run: Option<Seq<char>>,
) -> DetectedView {
    DetectedView { runtime, name, build_command: build, run_command: run }
}

/// The project in a directory: the first kind whose files are there decides.
/// None where that is a Cargo manifest without a package name. A Cargo
/// manifest that does not parse, and a directory with no known file, decide
/// nothing.
pub open spec fn project_in(f: ProjectFiles) -> Option<DetectedView> {
    let cargo = cargo_name_of(f.cargo_text);
    if f.deno_json || f.deno_jsonc {
        Some(
            found(
                "deno"@,
                json_name_of(f.deno_text),
                Some("deno cache main.ts"@),
                Some("deno run --allow-net --allow-env main.ts"@),
            ),
        )
    } else if f.package_json {
        Some(
            found(
                "node"@,
                json_name_of(f.package_text),
                Some("npm run build"@),
                Some("npm start"@),
            ),
        )
    } else if f.cargo_toml && !(cargo is Nothing) {
        match cargo {
            CargoName::Name(n) => Some(
                found("rust"@, n, Some("cargo build --release"@), None),
            ),
            _ => None,
        }
    } else if f.requirements_txt || f.pyproject_toml {
        Some(
            found(
                "python"@,
                None,
                Some("pip install -r requirements.txt"@),
                Some("python main.py"@),
            ),
        )
    } else if f.go_mod {
        Some(
            found(
                "go"@,
                match f.go_text {
                    Some(t) => go_module(t@),
                    None => None,
                },
                Some("go build -o app ."@),
                Some("./app"@),
            ),
        )
    } else if f.gemfile {
        Some(found("ruby"@, None, Some("bundle install"@), Some("ruby app.rb"@)))
    } else if f.mix_exs {
        Some(
            found(
                "elixir"@,
                None,
                Some("mix deps.get && mix compile"@),
                Some("mix run --no-halt"@),
            ),
        )
    } else if f.composer_json {
        Some(
            found(
                "php"@,
                None,
                Some("composer install"@),
                Some("php -S 0.0.0.0:8080 -t public"@),
            ),
        )
    } else if f.pom_xml {
        Some(
            found(
                "jvm"@,
                None,
                Some("mvn package -DskipTests"@),
                Some("java -jar target/*.jar"@),
            ),
        )
    } else if f.build_gradle || f.build_gradle_kts {
        Some(
            found(
                "jvm"@,
                None,
                Some("./gradlew build"@),
                Some("java -jar build/libs/*.jar"@),
            ),
        )
    } else if has_dotnet(f.entries@) {
        Some(
            found(
                "dotnet"@,
                None,
                Some("dotnet publish -c Release"@),
                Some("dotnet run"@),
            ),
        )
    } else if f.cmake_lists {
        Some(
            found(
                "cpp"@,
                None,
                Some("cmake -B build -DCMAKE_BUILD_TYPE=Release && cmake --build build"@),
                None,
            ),
        )
    } else {
        Some(found("node"@, None, None, None))
    }
}

fn detected(runtime: &str, name: Option<String>, build: Option<&str>, run: Option<&str>) -> (r:
    DetectedProject)
    ensures
        r@ == found(runtime@, opt_view(name), opt_str_view(build), opt_str_view(run)),
{
    DetectedProject {
        runtime: runtime.to_owned(),
        name,
        build_command: match build {
            Some(s) => Some(s.to_owned()),
            None => None,
        },
        run_command: match run {
            Some(s) => Some(s.to_owned()),
            None => None,
        },
    }
}

/// Detect the project in a directory.
pub fn detect_project(f: &ProjectFiles) -> (r: Option<DetectedProject>)
    ensures
        r is Some <==> project_in(*f) is Some,
        r is Some ==> r->0@ == project_in(*f)->0,
{
    if f.deno_json || f.deno_jsonc {
        return Some(
            detected(
                "deno",
                json_name(&f.deno_text),
                Some("deno cache main.ts"),
                Some("deno run --allow-net --allow-env main.ts"),
            ),
        );
    }
    if f.package_json {
        return Some(
            detected("node", json_name(&f.package_text), Some("npm run build"), Some("npm start")),
        );
    }
    if f.cargo_toml {
        match read_cargo(&f.cargo_text) {
            CargoRead::Name(n) => {
                return Some(detected("rust", n, Some("cargo build --release"), None));
            },
            CargoRead::Missing => {
                return None;
            },
            CargoRead::Nothing => {},
        }
    }
    if f.requirements_txt || f.pyproject_toml {
        return Some(
            detected(
                "python",
                None,
                Some("pip install -r requirements.txt"),
                Some("python main.py"),
            ),
        );
    }
    if f.go_mod {
        let name = match &f.go_text {
            Some(t) => go_module_name(t.as_str()),
            None => None,
        };
        return Some(detected("go", name, Some("go build -o app ."), Some("./app")));
    }
    if f.gemfile {
        return Some(detected("ruby", None, Some("bundle install"), Some("ruby app.rb")));
    }
    if f.mix_exs {
        return Some(
            detected(
                "elixir",
                None,
                Some("mix deps.get && mix compile"),
                Some("mix run --no-halt"),
            ),
        );
    }
    if f.composer_json {
        return Some(
            detected(
                "php",
                None,
                Some("composer install"),
                Some("php -S 0.0.0.0:8080 -t public"),
            ),
        );
    }
    if f.pom_xml {
        return Some(
            detected(
                "jvm",
                None,
                Some("mvn package -DskipTests"),
                Some("java -jar target/*.jar"),
            ),
        );
    }
    if f.build_gradle || f.build_gradle_kts {
        return Some(
            detected("jvm", None, Some("./gradlew build"), Some("java -jar build/libs/*.jar")),
        );
    }
    if any_dotnet(&f.entries) {
        return Some(
            detected("dotnet", None, Some("dotnet publish -c Release"), Some("dotnet run")),
        );
    }
    if f.cmake_lists {
        return Some(
            detected(
                "cpp",
                None,
                Some("cmake -B build -DCMAKE_BUILD_TYPE=Release && cmake --build build"),
                None,
            ),
        );
    }
    Some(detected("node", None, None, None))
}

/// The origin that `git remote get-url origin` printed, where it did.
pub fn git_remote(output: Option<&str>) -> (r: Option<String>)
    ensures
        opt_view(r) == match opt_str_view(output) {
            Some(s) => if trimmed(s).len() == 0 {
                None
            } else {
                Some(trimmed(s))
            },
            None => None,
        },
{
    match output {
        Some(s) => {
            let t = trim(s);
            if t.is_empty() {
                None
            } else {
                Some(t.to_owned())
            }
        },
        None => None,
    }
}

/// The name of a service that has no better one.
pub open spec fn fallback_name(directory: Option<Seq<char>>) -> Seq<char> {
    match directory {
        Some(d) => d,
        None => "my-service"@,
    }
}

/// The name that the wizard proposes: that of the project or of the directory,
/// at most sixteen characters of it.
pub open spec fn proposed_name_of(name: Option<Seq<char>>, directory: Option<Seq<char>>) -> Seq<
    char,
> {
    let full = match name {
        Some(n) => n,
        None => fallback_name(directory),
    };
    if full.len() > MAX_NAME_LEN {
        full.take(MAX_NAME_LEN as int)
    } else {
        full
    }
}

pub fn proposed_name(name: &Option<String>, directory: &Option<String>) -> (r: String)
    ensures
        r@ == proposed_name_of(opt_view(*name), opt_view(*directory)),
        r@.len() <= MAX_NAME_LEN,
{
    let full = match name {
        Some(n) => n.as_str(),
        None => match directory {
            Some(d) => d.as_str(),
            None => "my-service",
        },
    };
    let cs = chars_of(full);
    if cs.len() > MAX_NAME_LEN {
        let r = string_of(&cs, 0, MAX_NAME_LEN);
        assert(r@ =~= full@.take(MAX_NAME_LEN as int));
        r
    } else {
        full.to_owned()
    }
}

// ─── Offers ────────────────────────────────────────────────────────────────

/// How a prompt for a UUID goes: pick from labels, or type it, after a warning
/// where one is due.
#[derive(Debug)]
pub enum Offer {
    Pick(Vec<String>),
    Type(Option<String>),
}

/// The offer of workspaces. Without a client there is no list.
pub fn prompt_for_workspace(list: Option<Result<Vec<Workspace>, Failure>>) -> (r: Offer)
    ensures
        match list {
            Some(Ok(v)) => if v@.len() > 0 {
                r is Pick && views(r->Pick_0@) == v@.map_values(|w: Workspace| workspace_label(w))
            } else {
                r is Type && opt_view(r->Type_0) == Some(
                    "No workspaces found for your API key."@,
                )
            },
            Some(Err(e)) => r is Type && opt_view(r->Type_0) == Some(
                "Could not fetch workspaces: "@ + error_text(e@)
                    + "\n  Enter the workspace ID manually."@,
            ),
            None => r is Type && r->Type_0 is None,
        },
{
    match list {
        Some(Ok(v)) => {
            if v.len() > 0 {
                Offer::Pick(workspace_labels(&v))
            } else {
                Offer::Type(Some("No workspaces found for your API key.".to_owned()))
            }
        },
        Some(Err(e)) => {
            let why = e.to_text();
            Offer::Type(
                Some(
                    cat3(
                        "Could not fetch workspaces: ",
                        why.as_str(),
                        "\n  Enter the workspace ID manually.",
                    ),
                ),
            )
        },
        None => Offer::Type(None),
    }
}

/// The offer of projects.
pub fn prompt_for_project(list: Option<Result<Vec<Project>, Failure>>) -> (r: Offer)
    ensures
        match list {
            Some(Ok(v)) => if v@.len() > 0 {
                r is Pick && views(r->Pick_0@) == v@.map_values(|p: Project| project_label(p))
            } else {
                r is Type && opt_view(r->Type_0) == Some("No projects found in this workspace."@)
            },
            Some(Err(e)) => r is Type && opt_view(r->Type_0) == Some(
                "Could not fetch projects: "@ + error_text(e@)
                    + "\n  Enter the project ID manually."@,
            ),
            None => r is Type && r->Type_0 is None,
        },
{
    match list {
        Some(Ok(v)) => {
            if v.len() > 0 {
                Offer::Pick(project_labels(&v))
            } else {
                Offer::Type(Some("No projects found in this workspace.".to_owned()))
            }
        },
        Some(Err(e)) => {
            let why = e.to_text();
            Offer::Type(
                Some(
                    cat3(
                        "Could not fetch projects: ",
                        why.as_str(),
                        "\n  Enter the project ID manually.",
                    ),
                ),
            )
        },
        None => Offer::Type(None),
    }
}

/// How a region is offered: by its label, or else by its name.
pub open spec fn region_label(x: Region) -> Seq<char> {
    let display = match x.label {
        Some(l) => l@,
        None => x.name@,
    };
    match x.country_code {
        Some(cc) => display + " ["@ + cc@ + "] ("@ + x.id@ + ")"@,
        None => display + " ("@ + x.id@ + ")"@,
    }
}

fn region_text(x: &Region) -> (r: String)
    ensures
        r@ == region_label(*x),
{
    let display = match &x.label {
        Some(l) => l.as_str(),
        None => x.name.as_str(),
    };
    match &x.country_code {
        Some(cc) => cat6(display, " [", cc.as_str(), "] (", x.id.as_str(), ")"),
        None => cat4(display, " (", x.id.as_str(), ")"),
    }
}

/// The offer of regions.
pub fn prompt_for_region(list: Option<Result<Vec<Region>, Failure>>) -> (r: Offer)
    ensures
        match list {
            Some(Ok(v)) => if v@.len() > 0 {
                r is Pick && views(r->Pick_0@) == v@.map_values(|x: Region| region_label(x))
            } else {
                r is Type && opt_view(r->Type_0) == Some("No regions returned by the API."@)
            },
            Some(Err(e)) => r is Type && opt_view(r->Type_0) == Some(
                "Could not fetch regions: "@ + error_text(e@),
            ),
            None => r is Type && r->Type_0 is None,
        },
{
    match list {
        Some(Ok(v)) => {
            if v.len() == 0 {
                return Offer::Type(Some("No regions returned by the API.".to_owned()));
            }
            let mut labels: Vec<String> = Vec::new();
            for i in 0..v.len()
                invariant
                    labels@.len() == i,
                    forall|k: int| 0 <= k < i ==> (#[trigger] labels@[k])@ == region_label(v@[k]),
            {
                labels.push(region_text(&v[i]));
            }
            assert(views(labels@) =~= v@.map_values(|x: Region| region_label(x)));
            Offer::Pick(labels)
        },
        Some(Err(e)) => {
            let why = e.to_text();
            Offer::Type(Some(cat2("Could not fetch regions: ", why.as_str())))
        },
        None => Offer::Type(None),
    }
}

/// A monthly price in euros: `rank` orders prices as their amounts do, and
/// `shown` is the amount with two decimals.
#[derive(Debug)]
pub struct Price {
    pub rank: i64,
    pub shown: String,
}

/// The price of a pod in a region; none is a gap in the prices, never free.
pub open spec fn price_in(pricing: Option<RegionPricing<Price>>, pod_id: Seq<char>) -> Option<
    Price,
> {
    match pricing {
        Some(pr) => match first_item(pr.pods@, price_of_pod(pod_id)) {
            Some(p) => Some(p.price),
            None => None,
        },
        None => None,
    }
}

/// The price of a pod in a region, where it has one.
pub fn pod_price<'a>(pricing: Option<&'a RegionPricing<Price>>, pod_id: &str) -> (r: Option<
    &'a Price,
>)
    ensures
        r is Some <==> price_in(opt_deref(pricing), pod_id@) is Some,
        r is Some ==> *r->0 == price_in(opt_deref(pricing), pod_id@)->0,
{
    match pricing {
        Some(pr) => {
            let ghost p = price_of_pod::<Price>(pod_id@);
            let mut i: usize = 0;
            while i < pr.pods.len()
                invariant
                    i <= pr.pods@.len(),
                    pricing == Some(pr),
                    p == price_of_pod::<Price>(pod_id@),
                    first_where(pr.pods@, p, 0) == first_where(pr.pods@, p, i as int),
                decreases pr.pods@.len() - i,
            {
                if str_eq(pr.pods[i].fk_pod.as_str(), pod_id) {
                    assert(p(pr.pods@[i as int]));
                    return Some(&pr.pods[i].price);
                }
                assert(!p(pr.pods@[i as int]));
                i += 1;
            }
            None
        },
        None => None,
    }
}

pub open spec fn opt_deref<T>(o: Option<&T>) -> Option<T> {
    match o {
        Some(x) => Some(*x),
        None => None,
    }
}

/// Whether pod `a` is listed behind pod `b`: it costs more, or it has no price
/// and the other has one.
pub open spec fn costs_more(pricing: Option<RegionPricing<Price>>, a: Pod, b: Pod) -> bool {
    match (price_in(pricing, a.id@), price_in(pricing, b.id@)) {
        (Some(x), Some(y)) => x.rank > y.rank,
        (None, Some(_)) => true,
        _ => false,
    }
}

pub open spec fn dearer_than(pricing: Option<RegionPricing<Price>>, b: Pod) -> spec_fn(Pod) -> bool {
    |a: Pod| costs_more(pricing, a, b)
}

/// The pods with the cheapest first; pods of the same price keep their order.
pub open spec fn cheapest_first(s: Seq<Pod>, pricing: Option<RegionPricing<Price>>) -> Seq<Pod>
    decreases s.len(),
{
    if s.len() == 0 {
        s
    } else {
        let front = cheapest_first(s.drop_last(), pricing);
        front.insert(first_where(front, dearer_than(pricing, s.last()), 0), s.last())
    }
}

/// How a pod is offered: its label or name, its size where it is known, and
/// its price where prices are known.
pub open spec fn pod_label(p: Pod, pricing: Option<RegionPricing<Price>>) -> Seq<char> {
    let display = match p.label {
        Some(l) => l@,
        None => p.name@,
    };
    let specs = match (p.cpu, p.ram) {
        (Some(cpu), Some(ram)) => " — "@ + cpu@ + " CPU / "@ + ram@ + " RAM"@,
        _ => ""@,
    };
    let price = match pricing {
        Some(_) => match price_in(pricing, p.id@) {
            Some(v) => " — €"@ + v.shown@ + "/mo"@,
            None => " — price unavailable"@,
        },
        None => ""@,
    };
    display + specs + price + " ("@ + p.id@ + ")"@
}

fn pod_text(p: &Pod, pricing: Option<&RegionPricing<Price>>) -> (r: String)
    ensures
        r@ == pod_label(*p, opt_deref(pricing)),
{
    let display = match &p.label {
        Some(l) => l.as_str(),
        None => p.name.as_str(),
    };
    let specs = match (&p.cpu, &p.ram) {
        (Some(cpu), Some(ram)) => cat5(" — ", cpu.as_str(), " CPU / ", ram.as_str(), " RAM"),
        _ => "".to_owned(),
    };
    let price = match pricing {
        Some(_) => match pod_price(pricing, p.id.as_str()) {
            Some(v) => cat3(" — €", v.shown.as_str(), "/mo"),
            None => " — price unavailable".to_owned(),
        },
        None => "".to_owned(),
    };
    cat6(display, specs.as_str(), price.as_str(), " (", p.id.as_str(), ")")
}

fn is_dearer(pricing: Option<&RegionPricing<Price>>, a: &Pod, b: &Pod) -> (r: bool)
    ensures
        r == costs_more(opt_deref(pricing), *a, *b),
{
    match (pod_price(pricing, a.id.as_str()), pod_price(pricing, b.id.as_str())) {
        (Some(x), Some(y)) => x.rank > y.rank,
        (None, Some(_)) => true,
        _ => false,
    }
}

fn sort_pods(pods: Vec<Pod>, pricing: Option<&RegionPricing<Price>>) -> (r: Vec<Pod>)
    ensures
        r@ == cheapest_first(pods@, opt_deref(pricing)),
{
    let ghost all = pods@;
    let ghost pr = opt_deref(pricing);
    let mut rest = pods;
    let mut out: Vec<Pod> = Vec::new();
    assert(all.take(0) =~= out@);
    assert(all.skip(0) =~= all);
    while rest.len() > 0
        invariant
            pr == opt_deref(pricing),
            rest@.len() <= all.len(),
            rest@ == all.skip(all.len() - rest@.len()),
            out@ == cheapest_first(all.take(all.len() - rest@.len()), pr),
            out@.len() == all.len() - rest@.len(),
        decreases rest@.len(),
    {
        let ghost done = all.len() - rest@.len();
        let ghost before = out@;
        let pod = rest.remove(0);
        let ghost p = dearer_than(pr, pod);
        let mut i: usize = 0;
        while i < out.len() && !is_dearer(pricing, &out[i], &pod)
            invariant
                out@ == before,
                pr == opt_deref(pricing),
                p == dearer_than(pr, pod),
                i <= out@.len(),
                first_where(before, p, 0) == first_where(before, p, i as int),
            decreases out@.len() - i,
        {
            assert(!p(before[i as int]));
            i += 1;
        }
        proof {
            if i < before.len() {
                assert(p(before[i as int]));
            }
            assert(pod == all[done]);
            assert(all.take(done + 1).drop_last() =~= all.take(done));
            assert(rest@ =~= all.skip(done + 1));
        }
        out.insert(i, pod);
    }
    assert(all.take(all.len() as int) =~= all);
    out
}

/// The order in which pods are offered: with prices the cheapest first, and
/// otherwise as they came.
pub open spec fn offered_pods(pods: Seq<Pod>, pricing: Option<RegionPricing<Price>>) -> Seq<Pod> {
    if pricing is Some {
        cheapest_first(pods, pricing)
    } else {
        pods
    }
}

/// The labels to pick a pod from, and the pods in the same order.
pub fn build_pod_choices(pods: Vec<Pod>, pricing: Option<&RegionPricing<Price>>) -> (r: (
    Vec<String>,
    Vec<Pod>,
))
    ensures
        r.1@ == offered_pods(pods@, opt_deref(pricing)),
        views(r.0@) == r.1@.map_values(|p: Pod| pod_label(p, opt_deref(pricing))),
{
    let sorted = if pricing.is_some() {
        sort_pods(pods, pricing)
    } else {
        pods
    };
    let mut labels: Vec<String> = Vec::new();
    for i in 0..sorted.len()
        invariant
            labels@.len() == i,
            forall|k: int|
                0 <= k < i ==> (#[trigger] labels@[k])@ == pod_label(
                    sorted@[k],
                    opt_deref(pricing),
                ),
    {
        labels.push(pod_text(&sorted[i], pricing));
    }
    assert(views(labels@) =~= sorted@.map_values(|p: Pod| pod_label(p, opt_deref(pricing))));
    (labels, sorted)
}

/// The warning of a pod prompt that has no list.
pub open spec fn pod_warning_of(list: Result<Vec<Pod>, Failure>) -> Option<Seq<char>> {
    match list {
        Ok(v) => if v@.len() > 0 {
            None
        } else {
            Some("No compute pods returned by the API."@)
        },
        Err(e) => Some("Could not fetch compute pods: "@ + error_text(e@)),
    }
}

/// Why pods cannot be offered, if they cannot.
pub fn prompt_for_pod(list: &Result<Vec<Pod>, Failure>) -> (r: Option<String>)
    ensures
        opt_view(r) == pod_warning_of(*list),
{
    match list {
        Ok(v) => {
            if v.len() > 0 {
                None
            } else {
                Some("No compute pods returned by the API.".to_owned())
            }
        },
        Err(e) => {
            let why = e.to_text();
            Some(cat2("Could not fetch compute pods: ", why.as_str()))
        },
    }
}

/// The warning for prices that could not be had.
pub fn pricing_warning(e: &Failure) -> (r: String)
    ensures
        r@ == "Could not fetch pod pricing: "@ + error_text(e@)
            + ". Listing pods without prices."@,
{
    let why = e.to_text();
    cat3("Could not fetch pod pricing: ", why.as_str(), ". Listing pods without prices.")
}

/// The labels of the tokens for a source, or the note where there is none.
pub fn prompt_for_token(secrets: &Vec<WorkspaceSecret>, registry: bool) -> (r: Result<
    Vec<String>,
    String,
>)
    ensures
        r is Ok <==> secrets@.len() > 0,
        r is Ok ==> views(r->Ok_0@) == secrets@.map_values(
            |s: WorkspaceSecret| secret_label_of(s),
        ),
        r is Err ==> r->Err_0@ == "No "@ + (if registry {
            "registry"@
        } else {
            "repository"@
        }) + " secrets found in this workspace. Create one in the Partiri dashboard first."@,
{
    if secrets.len() == 0 {
        let kind = if registry {
            "registry"
        } else {
            "repository"
        };
        return Err(
            cat3(
                "No ",
                kind,
                " secrets found in this workspace. Create one in the Partiri dashboard first.",
            ),
        );
    }
    let mut labels: Vec<String> = Vec::new();
    for i in 0..secrets.len()
        invariant
            labels@.len() == i,
            forall|k: int| 0 <= k < i ==> (#[trigger] labels@[k])@ == secret_label_of(secrets@[k]),
    {
        labels.push(secret_label(&secrets[i]));
    }
    assert(views(labels@) =~= secrets@.map_values(|s: WorkspaceSecret| secret_label_of(s)));
    Ok(labels)
}

// ─── The wizard ────────────────────────────────────────────────────────────

/// How `init` starts.
#[derive(Debug, Clone, Copy, PartialEq, Eq, Structural)]
pub enum InitStart {
    /// Write the template.
    Template,
    /// Ask whether to run the wizard or to write the template.
    ChooseMode,
}

/// The error for a wizard that cannot prompt.
pub open spec fn needs_terminal() -> CliErrorView {
    validation_hint_of(
        "init requires a TTY for the wizard."@,
        "Pass --template to write a non-interactive scaffold instead."@,
    )
}

/// `init`: a configuration that is there already is never overwritten.
pub fn run(args: &InitArgs, path_exists: bool, ctx: Ctx, over: &ConfigOverride) -> (r: Result<
    InitStart,
    Failure,
>)
    ensures
        path_exists ==> r is Err && r->Err_0@ == FailureView::Text(
            config_display_of(over@)
                + " already exists.\n  Delete it manually to re-initialize."@,
        ),
        !path_exists && args.template ==> r == Ok::<InitStart, Failure>(InitStart::Template),
        !path_exists && !args.template && ctx.no_input ==> r is Err && r->Err_0@
            == FailureView::Cli(needs_terminal()),
        !path_exists && !args.template && !ctx.no_input ==> r == Ok::<InitStart, Failure>(
            InitStart::ChooseMode,
        ),
{
    if path_exists {
        let path = config_display(over);
        return Err(
            Failure::Text(
                cat2(path.as_str(), " already exists.\n  Delete it manually to re-initialize."),
            ),
        );
    }
    if args.template {
        return Ok(InitStart::Template);
    }
    if ctx.no_input {
        return Err(
            validation_error_with_hint(
                "init requires a TTY for the wizard.",
                "Pass --template to write a non-interactive scaffold instead.",
            ),
        );
    }
    Ok(InitStart::ChooseMode)
}

/// What the wizard has been told so far; what was not asked yet is absent.
#[derive(Debug)]
pub struct WizardAnswers {
    pub name: Option<String>,
    pub deploy_type: Option<String>,
    /// Whether the service comes from a registry.
    pub from_registry: Option<bool>,
    pub repository_url: Option<String>,
    pub repository_branch: Option<String>,
    pub image: Option<String>,
    pub workspace: Option<String>,
    pub project: Option<String>,
    pub region: Option<String>,
    pub pod: Option<String>,
    /// The token, once it was asked for.
    pub token: Option<Option<String>>,
    pub runtime: Option<String>,
    pub build_command: Option<String>,
    pub build_path: Option<String>,
    pub run_command: Option<String>,
    pub health_check_path: Option<String>,
}

/// The questions of the wizard.
#[derive(Debug, Clone, Copy, PartialEq, Eq, Structural)]
pub enum Question {
    Name,
    DeployType,
    Source,
    RepositoryUrl,
    Branch,
    Image,
    Workspace,
    Project,
    Region,
    Pod,
    Token,
    Runtime,
    BuildCommand,
    BuildPath,
    RunCommand,
    HealthCheck,
    Done,
}

pub open spec fn is_static(a: WizardAnswers) -> bool {
    a.deploy_type is Some && a.deploy_type->0@ == "static"@
}

/// Whether the service comes from a registry; a static site never does.
pub open spec fn is_registry(a: WizardAnswers) -> bool {
    !is_static(a) && a.from_registry == Some(true)
}

/// Whether a health check is asked for: only where the service takes requests.
pub open spec fn takes_requests(a: WizardAnswers) -> bool {
    a.deploy_type is Some && (a.deploy_type->0@ == "webservice"@ || a.deploy_type->0@
        == "private-service"@)
}

/// The next question: the first that applies and has no answer.
pub open spec fn question_of(a: WizardAnswers) -> Question {
    if a.name is None {
        Question::Name
    } else if a.deploy_type is None {
        Question::DeployType
    } else if !is_static(a) && a.from_registry is None {
        Question::Source
    } else if !is_registry(a) && a.repository_url is None {
        Question::RepositoryUrl
    } else if !is_registry(a) && a.repository_branch is None {
        Question::Branch
    } else if is_registry(a) && a.image is None {
        Question::Image
    } else if a.workspace is None {
        Question::Workspace
    } else if a.project is None {
        Question::Project
    } else if a.region is None {
        Question::Region
    } else if a.pod is None {
        Question::Pod
    } else if a.token is None {
        Question::Token
    } else if !is_registry(a) && a.runtime is None {
        Question::Runtime
    } else if !is_registry(a) && a.build_command is None {
        Question::BuildCommand
    } else if !is_registry(a) && a.build_path is None {
        Question::BuildPath
    } else if !is_registry(a) && !is_static(a) && a.run_command is None {
        Question::RunCommand
    } else if takes_requests(a) && a.health_check_path is None {
        Question::HealthCheck
    } else {
        Question::Done
    }
}

impl WizardAnswers {
    /// Nothing answered yet.
    pub fn none() -> (r: WizardAnswers)
        ensures
            r.name is None,
            r.deploy_type is None,
            r.from_registry is None,
            r.repository_url is None,
            r.repository_branch is None,
            r.image is None,
            r.workspace is None,
            r.project is None,
            r.region is None,
            r.pod is None,
            r.token is None,
            r.runtime is None,
            r.build_command is None,
            r.build_path is None,
            r.run_command is None,
            r.health_check_path is None,
    {
        WizardAnswers {
            name: None,
            deploy_type: None,
            from_registry: None,
            repository_url: None,
            repository_branch: None,
            image: None,
            workspace: None,
            project: None,
            region: None,
            pod: None,
            token: None,
            runtime: None,
            build_command: None,
            build_path: None,
            run_command: None,
            health_check_path: None,
        }
    }

    fn static_site(&self) -> (r: bool)
        ensures
            r == is_static(*self),
    {
        match &self.deploy_type {
            Some(t) => str_eq(t.as_str(), "static"),
            None => false,
        }
    }

    /// Whether the service comes from a registry.
    pub fn registry(&self) -> (r: bool)
        ensures
            r == is_registry(*self),
    {
        let chosen = match self.from_registry {
            Some(b) => b,
            None => false,
        };
        !self.static_site() && chosen
    }

    fn serves(&self) -> (r: bool)
        ensures
            r == takes_requests(*self),
    {
        match &self.deploy_type {
            Some(t) => str_eq(t.as_str(), "webservice") || str_eq(t.as_str(), "private-service"),
            None => false,
        }
    }

    /// What to ask next.
    pub fn next_question(&self) -> (r: Question)
        ensures
            r == question_of(*self),
    {
        let registry = self.registry();
        let site = self.static_site();
        if self.name.is_none() {
            Question::Name
        } else if self.deploy_type.is_none() {
            Question::DeployType
        } else if !site && self.from_registry.is_none() {
            Question::Source
        } else if !registry && self.repository_url.is_none() {
            Question::RepositoryUrl
        } else if !registry && self.repository_branch.is_none() {
            Question::Branch
        } else if registry && self.image.is_none() {
            Question::Image
        } else if self.workspace.is_none() {
            Question::Workspace
        } else if self.project.is_none() {
            Question::Project
        } else if self.region.is_none() {
            Question::Region
        } else if self.pod.is_none() {
            Question::Pod
        } else if self.token.is_none() {
            Question::Token
        } else if !registry && self.runtime.is_none() {
            Question::Runtime
        } else if !registry && self.build_command.is_none() {
            Question::BuildCommand
        } else if !registry && self.build_path.is_none() {
            Question::BuildPath
        } else if !registry && !site && self.run_command.is_none() {
            Question::RunCommand
        } else if self.serves() && self.health_check_path.is_none() {
            Question::HealthCheck
        } else {
            Question::Done
        }
    }
}

/// The error on an input, if there is one.
pub open spec fn name_input_error(s: Seq<char>) -> Option<Seq<char>> {
    if s.len() == 0 {
        Some("Service name is required"@)
    } else if s.len() > MAX_NAME_LEN {
        Some("Service name must be 16 characters or fewer"@)
    } else {
        None
    }
}

/// Check the name that was typed.
pub fn check_name_input(s: &str) -> (r: Option<&'static str>)
    ensures
        opt_str_view(r) == name_input_error(s@),
{
    if s.is_empty() {
        Some("Service name is required")
    } else if s.unicode_len() > MAX_NAME_LEN {
        Some("Service name must be 16 characters or fewer")
    } else {
        None
    }
}

pub open spec fn image_input_error(s: Seq<char>) -> Option<Seq<char>> {
    let t = trimmed(s);
    let slash = find_from(t, '/', 0);
    if t.len() == 0 {
        Some("Image reference is required."@)
    } else if 0 < slash && slash + 1 < t.len() {
        None
    } else {
        Some("Expected '<registry>/<image>[:tag]' (e.g. ghcr.io/owner/image:latest)."@)
    }
}

/// Check the image reference that was typed: a host and a path.
pub fn check_image_input(s: &str) -> (r: Option<&'static str>)
    ensures
        opt_str_view(r) == image_input_error(s@),
{
    let t = trim(s);
    let cs = chars_of(t);
    if cs.len() == 0 {
        return Some("Image reference is required.");
    }
    let slash: usize = find_char(&cs, '/', 0);
    if 0 < slash && slash < cs.len() - 1 {
        None
    } else {
        Some("Expected '<registry>/<image>[:tag]' (e.g. ghcr.io/owner/image:latest).")
    }
}

/// Check a command that was typed: it cannot be blank.
pub fn check_required_input(s: &str) -> (r: Option<&'static str>)
    ensures
        opt_str_view(r) == if trimmed(s@).len() == 0 {
            Some("This field is required"@)
        } else {
            None
        },
{
    if trim(s).is_empty() {
        Some("This field is required")
    } else {
        None
    }
}

/// The runtimes that the wizard offers.
pub const WIZARD_RUNTIMES: [&'static str; 11] = [
    "node",
    "rust",
    "python",
    "go",
    "ruby",
    "elixir",
    "php",
    "jvm",
    "dotnet",
    "cpp",
    "static",
];

/// The position at which the runtime list starts: on the detected runtime, or
/// on the first.
pub open spec fn runtime_position(list: Seq<Seq<char>>, runtime: Seq<char>, from: int) -> int
    decreases list.len() - from,
{
    if from >= list.len() {
        0
    } else if list[from] == runtime {
        from
    } else {
        runtime_position(list, runtime, from + 1)
    }
}

pub fn runtime_cursor(runtime: &str) -> (r: usize)
    ensures
        r as int == runtime_position(strs(WIZARD_RUNTIMES@), runtime@, 0),
        r < 11,
{
    let list = WIZARD_RUNTIMES;
    let ghost all = strs(list@);
    let mut i: usize = 0;
    while i < 11
        invariant
            i <= 11,
            list == WIZARD_RUNTIMES,
            list@.len() == 11,
            all == strs(list@),
            runtime_position(all, runtime@, 0) == runtime_position(all, runtime@, i as int),
        decreases 11 - i,
    {
        assert(all[i as int] == list@[i as int]@);
        if str_eq(list[i], runtime) {
            return i;
        }
        i += 1;
    }
    0
}

pub open spec fn none_if_empty(o: Option<String>) -> Option<Seq<char>> {
    match o {
        Some(s) => if s@.len() == 0 {
            None
        } else {
            Some(s@)
        },
        None => None,
    }
}

pub open spec fn none_if_blank(o: Option<String>) -> Option<Seq<char>> {
    match o {
        Some(s) => if trimmed(s@).len() == 0 {
            None
        } else {
            Some(s@)
        },
        None => None,
    }
}

/// The configuration that complete answers make.
pub open spec fn is_assembled(c: PartiriConfig, a: WizardAnswers) -> bool {
    let s = c.service;
    let reg = is_registry(a);
    &&& c.id is None
    &&& c.deploy_tag is None
    &&& c.fk_workspace == a.workspace->0
    &&& c.fk_project == a.project->0
    &&& s.name == a.name->0
    &&& s.deploy_type == a.deploy_type->0
    &&& s.runtime@ == if reg {
        "registry"@
    } else {
        a.runtime->0@
    }
    &&& s.root_path@ == "."@
    &&& s.repository_url == if reg {
        None
    } else {
        a.repository_url
    }
    &&& s.repository_branch == if reg {
        None
    } else {
        a.repository_branch
    }
    &&& opt_view(s.registry_url) == if reg {
        Some(trimmed(a.image->0@))
    } else {
        None
    }
    &&& s.fk_service_secret == a.token->0
    &&& opt_view(s.build_path) == if reg {
        None
    } else {
        none_if_empty(a.build_path)
    }
    &&& s.build_command == if reg {
        None
    } else {
        a.build_command
    }
    &&& s.pre_deploy_command is None
    &&& s.run_command == if reg || is_static(a) {
        None
    } else {
        a.run_command
    }
    &&& s.fk_region == a.region->0
    &&& s.fk_pod == a.pod->0
    &&& opt_view(s.health_check_path) == if takes_requests(a) {
        none_if_blank(a.health_check_path)
    } else {
        None
    }
    &&& s.disk is None
    &&& !s.maintenance_mode
    &&& s.active
    &&& s.env is None
}

fn keep_given(o: Option<String>) -> (r: Option<String>)
    ensures
        opt_view(r) == none_if_empty(o),
{
    match o {
        Some(s) => if s.as_str().is_empty() {
            None
        } else {
            Some(s)
        },
        None => None,
    }
}

fn keep_filled(o: Option<String>) -> (r: Option<String>)
    ensures
        opt_view(r) == none_if_blank(o),
{
    match o {
        Some(s) => if trim(s.as_str()).is_empty() {
            None
        } else {
            Some(s)
        },
        None => None,
    }
}

/// The configuration of a finished wizard.
pub fn assemble(a: WizardAnswers) -> (r: PartiriConfig)
    requires
        question_of(a) == Question::Done,
    ensures
        is_assembled(r, a),
{
    let reg = a.registry();
    let site = a.static_site();
    let serves = a.serves();
    let registry_url = if reg {
        Some(trim(opt_unwrap(&a.image)).to_owned())
    } else {
        None
    };
    PartiriConfig {
        id: None,
        deploy_tag: None,
        fk_workspace: a.workspace.unwrap(),
        fk_project: a.project.unwrap(),
        service: ServiceConfig {
            name: a.name.unwrap(),
            deploy_type: a.deploy_type.unwrap(),
            runtime: if reg {
                "registry".to_owned()
            } else {
                a.runtime.unwrap()
            },
            root_path: ".".to_owned(),
            repository_url: if reg {
                None
            } else {
                a.repository_url
            },
            repository_branch: if reg {
                None
            } else {
                a.repository_branch
            },
            registry_url,
            fk_service_secret: a.token.unwrap(),
            build_path: if reg {
                None
            } else {
                keep_given(a.build_path)
            },
            build_command: if reg {
                None
            } else {
                a.build_command
            },
            pre_deploy_command: None,
            run_command: if reg || site {
                None
            } else {
                a.run_command
            },
            fk_region: a.region.unwrap(),
            fk_pod: a.pod.unwrap(),
            health_check_path: if serves {
                keep_filled(a.health_check_path)
            } else {
                None
            },
            maintenance_mode: false,
            active: true,
            disk: None,
            env: None,
        },
    }
}

fn opt_unwrap(o: &Option<String>) -> (r: &str)
    requires
        o is Some,
    ensures
        r@ == o->0@,
{
    match o {
        Some(s) => s.as_str(),
        None => "",
    }
}

/// The report on a configuration that the wizard wrote.
pub fn created_report(over: &ConfigOverride) -> (r: Report)
    ensures
        r@ == (ReportView {
            message: config_display_of(over@) + " created successfully."@,
            data: None,
            notes: strs(WIZARD_NOTES@),
        }),
{
    let path = config_display(over);
    Report {
        message: cat2(path.as_str(), " created successfully."),
        data: None,
        notes: owned(WIZARD_NOTES.as_slice()),
    }
}

/// What follows the wizard.
pub const WIZARD_NOTES: [&'static str; 3] = [
    "Next steps:",
    "  'partiri service create'  — register your service on Partiri",
    "  'partiri service deploy'      — deploy it",
];

// ─── The template ──────────────────────────────────────────────────────────

/// The configuration of a template: everything to fill in is empty, and the
/// source is a repository.
pub open spec fn is_template(c: PartiriConfig) -> bool {
    let s = c.service;
    &&& c.id is None
    &&& c.deploy_tag is None
    &&& c.fk_workspace@.len() == 0
    &&& c.fk_project@.len() == 0
    &&& s.name@.len() == 0
    &&& s.deploy_type@.len() == 0
    &&& s.runtime@.len() == 0
    &&& s.root_path@ == "."@
    &&& opt_view(s.repository_url) == Some(Seq::<char>::empty())
    &&& opt_view(s.repository_branch) == Some(Seq::<char>::empty())
    &&& s.registry_url is None
    &&& s.fk_service_secret is None
    &&& s.build_path is None
    &&& s.build_command is None
    &&& s.pre_deploy_command is None
    &&& s.run_command is None
    &&& s.fk_region@.len() == 0
    &&& s.fk_pod@.len() == 0
    &&& s.health_check_path is None
    &&& s.disk is None
    &&& !s.maintenance_mode
    &&& s.active
    &&& s.env is None
}

pub fn template_config() -> (r: PartiriConfig)
    ensures
        is_template(r),
{
    PartiriConfig {
        id: None,
        deploy_tag: None,
        fk_workspace: String::new(),
        fk_project: String::new(),
        service: ServiceConfig {
            name: String::new(),
            deploy_type: String::new(),
            runtime: String::new(),
            root_path: ".".to_owned(),
            repository_url: Some(String::new()),
            repository_branch: Some(String::new()),
            registry_url: None,
            fk_service_secret: None,
            build_path: None,
            build_command: None,
            pre_deploy_command: None,
            run_command: None,
            fk_region: String::new(),
            fk_pod: String::new(),
            health_check_path: None,
            maintenance_mode: false,
            active: true,
            disk: None,
            env: None,
        },
    }
}

/// What to do with a template.
pub const TEMPLATE_NEXT_STEPS: [&'static str; 6] = [
    "Read the file — every field is documented in inline comments.",
    "Fill in fk_workspace, fk_project, and the service.* block.",
    "Run 'partiri -j llm context' to fetch every workspace/project/region/pod UUID in one call.",
    "Run 'partiri validate --remote' to check your config end-to-end.",
    "Run 'partiri service create' once validation passes.",
    "Run 'partiri service deploy --yes' to ship.",
];

/// The commands that list what a template needs.
pub const TEMPLATE_DISCOVERY: [&'static str; 5] = [
    "partiri llm context",
    "partiri workspaces list",
    "partiri projects list --workspace <UUID>",
    "partiri regions list --workspace <UUID>",
    "partiri pods list --workspace <UUID>",
];

/// What a person is told of a template.
pub const TEMPLATE_NOTES: [&'static str; 23] = [
    "",
    "The file contains commented examples for every field — read it, fill in the values,",
    "then run 'partiri service create'.",
    "",
    "Fields you must populate:",
    "  fk_workspace, fk_project, service.name, service.deploy_type, service.runtime,",
    "  service.fk_region, service.fk_pod, and one of (repository_url+branch) or",
    "  registry_url (full image reference, e.g. ghcr.io/owner/image:tag).",
    "",
    "To grab every UUID in one call, run 'partiri -j llm context'.",
    "Per-resource discovery:",
    "  partiri workspaces list",
    "  partiri projects list --workspace <UUID>",
    "  partiri regions list --workspace <UUID>",
    "  partiri pods list --workspace <UUID>",
    "",
    "Validate, create, and deploy:",
    "  partiri validate --remote",
    "  partiri service create",
    "  partiri service deploy --yes",
    "",
    "Run 'partiri llm next' at any time to see the suggested next command for the current state.",
    "Full agent guide: 'partiri llm guide'.",
];

/// What is reported of a template that was written.
pub open spec fn template_view(over: Option<Seq<char>>) -> ReportView {
    let path = config_display_of(over);
    ReportView {
        message: "Template written to "@ + path + "."@,
        data: Some(
            JsonView::Obj(
                seq![
                    ("path"@, JsonView::Str(path)),
                    ("next_steps"@, strings_view(strs(TEMPLATE_NEXT_STEPS@))),
                    ("discovery_commands"@, strings_view(strs(TEMPLATE_DISCOVERY@))),
                    ("guide_command"@, JsonView::Str("partiri llm guide"@)),
                ],
            ),
        ),
        notes: strs(TEMPLATE_NOTES@),
    }
}

/// The report on a template that was written.
pub fn write_template(over: &ConfigOverride) -> (r: Report)
    ensures
        r@ == template_view(over@),
{
    let path = config_display(over);
    let steps = owned(TEMPLATE_NEXT_STEPS.as_slice());
    let discovery = owned(TEMPLATE_DISCOVERY.as_slice());
    let data = Json::object().with("path", Json::str(path.as_str())).with(
        "next_steps",
        Json::strings(&steps),
    ).with("discovery_commands", Json::strings(&discovery)).with(
        "guide_command",
        Json::str("partiri llm guide"),
    );
    assert(data@->Obj_0 =~= template_view(over@).data->0->Obj_0);
    Report {
        message: cat3("Template written to ", path.as_str(), "."),
        data: Some(data),
        notes: owned(TEMPLATE_NOTES.as_slice()),
    }
}

// ─── Laws ──────────────────────────────────────────────────────────────────

/// Sorting neither drops nor repeats a pod.
pub proof fn cheapest_first_is_a_permutation(s: Seq<Pod>, pricing: Option<RegionPricing<Price>>)
    ensures
        cheapest_first(s, pricing).len() == s.len(),
        cheapest_first(s, pricing).to_multiset() =~= s.to_multiset(),
    decreases s.len(),
{
    broadcast use vstd::seq_lib::group_to_multiset_ensures;

    if s.len() > 0 {
        let front = cheapest_first(s.drop_last(), pricing);
        cheapest_first_is_a_permutation(s.drop_last(), pricing);
        let i = first_where(front, dearer_than(pricing, s.last()), 0);
        first_where_range(front, dearer_than(pricing, s.last()), 0);
        let out = front.insert(i, s.last());
        assert(s.drop_last().push(s.last()) =~= s);
        assert(out =~= front.take(i).push(s.last()) + front.skip(i));
        assert(front =~= front.take(i) + front.skip(i));
        vstd::seq_lib::lemma_multiset_commutative(front.take(i).push(s.last()), front.skip(i));
        vstd::seq_lib::lemma_multiset_commutative(front.take(i), front.skip(i));
    }
}

/// No pod stands before a cheaper one, and a pod without a price stands behind
/// every pod that has one.
pub proof fn cheapest_first_is_sorted(s: Seq<Pod>, pricing: Option<RegionPricing<Price>>)
    ensures
        forall|i: int, j: int|
            0 <= i < j < cheapest_first(s, pricing).len() ==> !#[trigger] costs_more(
                pricing,
                cheapest_first(s, pricing)[i],
                cheapest_first(s, pricing)[j],
            ),
    decreases s.len(),
{
    if s.len() > 0 {
        let front = cheapest_first(s.drop_last(), pricing);
        let x = s.last();
        cheapest_first_is_sorted(s.drop_last(), pricing);
        let p = dearer_than(pricing, x);
        let at = first_where(front, p, 0);
        first_where_range(front, p, 0);
        let out = cheapest_first(s, pricing);
        assert forall|i: int, j: int| 0 <= i < j < out.len() implies !#[trigger] costs_more(
            pricing,
            out[i],
            out[j],
        ) by {
            if j < at {
                assert(out[i] == front[i] && out[j] == front[j]);
            } else if j == at {
                assert(out[i] == front[i]);
                assert(!p(front[i]));
            } else if i < at {
                assert(out[i] == front[i] && out[j] == front[j - 1]);
            } else if i == at {
                assert(out[j] == front[j - 1]);
                assert(p(front[at]));
                if j - 1 > at {
                    assert(!costs_more(pricing, front[at], front[j - 1]));
                }
            } else {
                assert(out[i] == front[i - 1] && out[j] == front[j - 1]);
            }
        }
    }
}

/// Where a pod stands among the prices, if it has one.
pub open spec fn rank_in(pricing: Option<RegionPricing<Price>>, p: Pod) -> Option<i64> {
    match price_in(pricing, p.id@) {
        Some(price) => Some(price.rank),
        None => None,
    }
}

pub open spec fn ranked(pricing: Option<RegionPricing<Price>>, rank: Option<i64>) -> spec_fn(
    Pod,
) -> bool {
    |p: Pod| rank_in(pricing, p) == rank
}

/// Pods of the same price, or without one, keep the order that they came in.
pub proof fn cheapest_first_keeps_ties(
    s: Seq<Pod>,
    pricing: Option<RegionPricing<Price>>,
    rank: Option<i64>,
)
    ensures
        cheapest_first(s, pricing).filter(ranked(pricing, rank)) == s.filter(ranked(pricing, rank)),
    decreases s.len(),
{
    if s.len() > 0 {
        let front = cheapest_first(s.drop_last(), pricing);
        let x = s.last();
        let tie = ranked(pricing, rank);
        cheapest_first_keeps_ties(s.drop_last(), pricing, rank);
        cheapest_first_is_sorted(s.drop_last(), pricing);
        let p = dearer_than(pricing, x);
        let at = first_where(front, p, 0);
        first_where_range(front, p, 0);
        assert forall|k: int| tie(x) && at <= k < front.len() implies !tie(#[trigger] front[k]) by {
            assert(p(front[at]));
            if k > at {
                assert(!costs_more(pricing, front[at], front[k]));
            }
        }
        filter_insert(front, at, x, tie);
        assert(s =~= s.drop_last().push(x));
        filter_push(s.drop_last(), x, tie);
    }
}

/// The pod that is offered first is the cheapest: no pod with a price costs
/// less, and it has a price where any pod has one.
pub proof fn first_offer_is_the_cheapest(
    s: Seq<Pod>,
    pricing: Option<RegionPricing<Price>>,
    i: int,
)
    requires
        pricing is Some,
        0 <= i < s.len(),
    ensures
        !costs_more(pricing, offered_pods(s, pricing)[0], s[i]),
{
    cheapest_first_is_sorted(s, pricing);
    cheapest_first_is_a_permutation(s, pricing);
    let out = cheapest_first(s, pricing);
    broadcast use vstd::seq_lib::group_to_multiset_ensures;

    assert(s.contains(s[i]));
    assert(s.to_multiset().contains(s[i]));
    assert(out.contains(s[i]));
    let j = out.index_of(s[i]);
    assert(out[j] == s[i]);
    if j > 0 {
        assert(!costs_more(pricing, out[0], out[j]));
    }
}

/// Without prices the list is as it came.
pub proof fn unpriced_list_is_unchanged(s: Seq<Pod>)
    ensures
        offered_pods(s, None) == s,
{
}

/// A finished wizard whose answers passed the checks of the prompts makes a
/// configuration that passes validation.
pub proof fn finished_wizard_is_valid(c: PartiriConfig, a: WizardAnswers)
    requires
        question_of(a) == Question::Done,
        is_assembled(c, a),
        name_input_error(a.name->0@) is None,
        known_deploy_type(a.deploy_type->0@),
        !is_registry(a) ==> known_runtime(a.runtime->0@),
        !is_registry(a) ==> a.repository_url->0@.len() > 0,
        !is_registry(a) ==> a.repository_branch->0@.len() > 0,
        !is_registry(a) && !(is_static(a) && a.runtime->0@ == "static"@) ==> trimmed(
            a.build_command->0@,
        ).len() > 0,
        !is_registry(a) && !is_static(a) ==> trimmed(a.run_command->0@).len() > 0,
        is_registry(a) ==> image_input_error(a.image->0@) is None,
        a.region->0@.len() > 0,
        a.pod->0@.len() > 0,
    ensures
        is_valid(c),
{
    valid_config_meaning(c);
    reveal_strlit(".");
    assert("."@.len() == 1);
    reveal_strlit("static");
    reveal_strlit("webservice");
    reveal_strlit("private-service");
    reveal_strlit("worker");
    assert("static"@.len() == 6 && "static"@[0] == 's');
    assert("webservice"@.len() == 10);
    assert("private-service"@.len() == 15);
    assert("worker"@[0] == 'w');
    if is_registry(a) {
        assert(known_runtime("registry"@)) by {
            let list = strs(crate::config::RUNTIMES@);
            assert(list[12] == "registry"@);
        }
    }
}

} // verus!
