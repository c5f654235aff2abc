//! `partiri mcp`: install the Partiri MCP server in AI tools, or remove it.
use vstd::prelude::*;
use vstd::string::*;

use crate::error::{list0, list1, list2, text_error, Failure, FailureView};
use crate::json::{
    member_index, member_index_range, member_of, members_view, object_view, parse_json, parsed_json,
    pretty_json, set_in, set_member, set_then_get, take_member, write_pretty, Json, JsonView,
    Member,
};
use crate::output::{Report, ReportView};
use crate::text::{
    ascii_lower, cat2, cat3, cat4, cat5, join, join_strings, lower_char, str_eq,
    to_ascii_lowercase, trim, trimmed, views,
};

verus! {

/// The AI tools that can be configured.
#[derive(Debug, Clone, Copy, PartialEq, Eq, Structural)]
pub enum McpClient {
    ClaudeDesktop,
    ClaudeCode,
    Cursor,
    Vscode,
    CopilotCli,
    Windsurf,
}

/// The name of the server entry.
pub const SERVER_NAME: &'static str = "partiri-cloud";

/// The address of the server.
pub const MCP_URL: &'static str = "https://mcp.partiri.cloud/mcp";

/// The name that a vendor's own tools share, in the spelling of titles and in
/// that of file names.
#[derive(Debug)]
pub struct Family {
    pub title: String,
    pub word: String,
}

/// How many tools there are.
pub const CLIENTS: usize = 6;

/// The tool at a position of the list.
pub open spec fn client_at(i: int) -> McpClient {
    if i == 0 {
        McpClient::ClaudeDesktop
    } else if i == 1 {
        McpClient::ClaudeCode
    } else if i == 2 {
        McpClient::Cursor
    } else if i == 3 {
        McpClient::Vscode
    } else if i == 4 {
        McpClient::CopilotCli
    } else {
        McpClient::Windsurf
    }
}

/// The name by which a tool is chosen.
pub open spec fn slug_of(c: McpClient, f: Family) -> Seq<char> {
    match c {
        McpClient::ClaudeDesktop => f.word@ + "-desktop"@,
        McpClient::ClaudeCode => f.word@ + "-code"@,
        McpClient::Cursor => "cursor"@,
        McpClient::Vscode => "vscode"@,
        McpClient::CopilotCli => "copilot-cli"@,
        McpClient::Windsurf => "windsurf"@,
    }
}

pub open spec fn display_name_of(c: McpClient, f: Family) -> Seq<char> {
    match c {
        McpClient::ClaudeDesktop => f.title@ + " Desktop"@,
        McpClient::ClaudeCode => f.title@ + " Code"@,
        McpClient::Cursor => "Cursor"@,
        McpClient::Vscode => "VS Code (GitHub Copilot)"@,
        McpClient::CopilotCli => "GitHub Copilot CLI"@,
        McpClient::Windsurf => "Windsurf"@,
    }
}

pub open spec fn servers_key_of(c: McpClient) -> Seq<char> {
    match c {
        McpClient::Vscode => "servers"@,
        _ => "mcpServers"@,
    }
}

/// Whether a name chooses a tool, whatever its letter case.
pub open spec fn is_called(c: McpClient, f: Family, s: Seq<char>) -> bool {
    ascii_lower(slug_of(c, f)) == ascii_lower(s)
}

/// The first tool at or after position `from` that a name chooses.
pub open spec fn client_from(s: Seq<char>, f: Family, from: int) -> Option<McpClient>
    decreases CLIENTS - from,
{
    if from >= CLIENTS {
        None
    } else if is_called(client_at(from), f, s) {
        Some(client_at(from))
    } else {
        client_from(s, f, from + 1)
    }
}

/// The tool that a name chooses. The tools are tried in their order.
pub open spec fn client_named(s: Seq<char>, f: Family) -> Option<McpClient> {
    client_from(s, f, 0)
}

/// The names of all tools, in the order in which they are offered.
pub open spec fn slugs_of(f: Family) -> Seq<Seq<char>> {
    Seq::new(CLIENTS as nat, |i: int| slug_of(client_at(i), f))
}

/// The platforms whose directories differ.
#[derive(Debug, Clone, Copy, PartialEq, Eq, Structural)]
pub enum Platform {
    Linux,
    MacOs,
    Windows,
    Other,
}

/// The directory that the file of a tool is under.
#[derive(Debug, Clone, Copy, PartialEq, Eq, Structural)]
pub enum BaseDir {
    Home,
    Config,
    Data,
}

/// Where the configuration file of a tool is: the base directory and the path
/// below it. None on a platform where the tool does not say.
pub open spec fn location_of(c: McpClient, f: Family, p: Platform) -> Option<
    (BaseDir, Seq<Seq<char>>),
> {
    let app_dir = match p {
        Platform::Linux => Some(BaseDir::Config),
        Platform::MacOs => Some(BaseDir::Data),
        Platform::Windows => Some(BaseDir::Config),
        Platform::Other => None,
    };
    match c {
        McpClient::ClaudeDesktop => match app_dir {
            Some(d) => Some((d, seq![f.title@, f.word@ + "_desktop_config.json"@])),
            None => None,
        },
        McpClient::ClaudeCode => Some((BaseDir::Home, seq!["."@ + f.word@ + ".json"@])),
        McpClient::Cursor => Some((BaseDir::Home, seq![".cursor"@, "mcp.json"@])),
        McpClient::Vscode => match app_dir {
            Some(d) => Some((d, seq!["Code"@, "User"@, "mcp.json"@])),
            None => None,
        },
        McpClient::CopilotCli => Some((BaseDir::Home, seq![".copilot"@, "mcp-config.json"@])),
        McpClient::Windsurf => Some(
            (BaseDir::Home, seq![".codeium"@, "windsurf"@, "mcp_config.json"@]),
        ),
    }
}

fn below1(base: BaseDir, a: &str) -> (r: Option<(BaseDir, Vec<String>)>)
    ensures
        r is Some,
        (r->0).0 == base,
        views((r->0).1@) == seq![a@],
{
    Some((base, list1(a)))
}

fn below2(base: BaseDir, a: &str, b: &str) -> (r: Option<(BaseDir, Vec<String>)>)
    ensures
        r is Some,
        (r->0).0 == base,
        views((r->0).1@) == seq![a@, b@],
{
    Some((base, list2(a, b)))
}

fn below3(base: BaseDir, a: &str, b: &str, c: &str) -> (r: Option<(BaseDir, Vec<String>)>)
    ensures
        r is Some,
        (r->0).0 == base,
        views((r->0).1@) == seq![a@, b@, c@],
{
    let mut v = list2(a, b);
    let ghost two = views(v@);
    v.push(c.to_owned());
    assert(views(v@) =~= two.push(c@));
    Some((base, v))
}

impl McpClient {
    /// The tool at a position of the list.
    pub fn at(i: usize) -> (r: McpClient)
        requires
            i < CLIENTS,
        ensures
            r == client_at(i as int),
    {
        if i == 0 {
            McpClient::ClaudeDesktop
        } else if i == 1 {
            McpClient::ClaudeCode
        } else if i == 2 {
            McpClient::Cursor
        } else if i == 3 {
            McpClient::Vscode
        } else if i == 4 {
            McpClient::CopilotCli
        } else {
            McpClient::Windsurf
        }
    }

    /// The name by which the tool is chosen.
    pub fn slug(&self, family: &Family) -> (r: String)
        ensures
            r@ == slug_of(*self, *family),
    {
        match self {
            McpClient::ClaudeDesktop => cat2(family.word.as_str(), "-desktop"),
            McpClient::ClaudeCode => cat2(family.word.as_str(), "-code"),
            McpClient::Cursor => "cursor".to_owned(),
            McpClient::Vscode => "vscode".to_owned(),
            McpClient::CopilotCli => "copilot-cli".to_owned(),
            McpClient::Windsurf => "windsurf".to_owned(),
        }
    }

    /// The name of the tool.
    pub fn display_name(&self, family: &Family) -> (r: String)
        ensures
            r@ == display_name_of(*self, *family),
    {
        match self {
            McpClient::ClaudeDesktop => cat2(family.title.as_str(), " Desktop"),
            McpClient::ClaudeCode => cat2(family.title.as_str(), " Code"),
            McpClient::Cursor => "Cursor".to_owned(),
            McpClient::Vscode => "VS Code (GitHub Copilot)".to_owned(),
            McpClient::CopilotCli => "GitHub Copilot CLI".to_owned(),
            McpClient::Windsurf => "Windsurf".to_owned(),
        }
    }

    /// The tool that a name chooses.
    pub fn from_slug(s: &str, family: &Family) -> (r: Option<McpClient>)
        ensures
            r == client_named(s@, *family),
    {
        let wanted = to_ascii_lowercase(s);
        let mut i: usize = 0;
        while i < CLIENTS
            invariant
                i <= CLIENTS,
                wanted@ == ascii_lower(s@),
                client_named(s@, *family) == client_from(s@, *family, i as int),
            decreases CLIENTS - i,
        {
            let client = McpClient::at(i);
            let slug = client.slug(family);
            let lower = to_ascii_lowercase(slug.as_str());
            if str_eq(lower.as_str(), wanted.as_str()) {
                return Some(client);
            }
            i += 1;
        }
        None
    }

    /// The key that holds the servers in the tool's configuration.
    pub fn servers_key(&self) -> (r: &'static str)
        ensures
            r@ == servers_key_of(*self),
    {
        match self {
            McpClient::Vscode => "servers",
            _ => "mcpServers",
        }
    }

    /// Where the configuration file of the tool is.
    pub fn config_path(&self, family: &Family, platform: Platform) -> (r: Option<
        (BaseDir, Vec<String>),
    >)
        ensures
            r is Some <==> location_of(*self, *family, platform) is Some,
            r is Some ==> ((r->0).0, views((r->0).1@)) == location_of(*self, *family, platform)->0,
    {
        let app_dir = match platform {
            Platform::Linux => Some(BaseDir::Config),
            Platform::MacOs => Some(BaseDir::Data),
            Platform::Windows => Some(BaseDir::Config),
            Platform::Other => None,
        };
        match self {
            McpClient::ClaudeDesktop => match app_dir {
                Some(d) => {
                    let file = cat2(family.word.as_str(), "_desktop_config.json");
                    below2(d, family.title.as_str(), file.as_str())
                },
                None => None,
            },
            McpClient::ClaudeCode => {
                let file = cat3(".", family.word.as_str(), ".json");
                below1(BaseDir::Home, file.as_str())
            },
            McpClient::Cursor => below2(BaseDir::Home, ".cursor", "mcp.json"),
            McpClient::Vscode => match app_dir {
                Some(d) => below3(d, "Code", "User", "mcp.json"),
                None => None,
            },
            McpClient::CopilotCli => below2(BaseDir::Home, ".copilot", "mcp-config.json"),
            McpClient::Windsurf => below3(
                BaseDir::Home,
                ".codeium",
                "windsurf",
                "mcp_config.json",
            ),
        }
    }
}

/// The names of all tools.
pub fn slugs(family: &Family) -> (r: Vec<String>)
    ensures
        views(r@) == slugs_of(*family),
{
    let mut out: Vec<String> = Vec::new();
    for i in 0..CLIENTS
        invariant
            out@.len() == i,
            forall|k: int|
                0 <= k < i ==> (#[trigger] out@[k])@ == slug_of(client_at(k), *family),
    {
        out.push(McpClient::at(i).slug(family));
    }
    assert(views(out@) =~= slugs_of(*family));
    out
}

/// The tool that a command works on, by the name that was given.
pub fn chosen_client(slug: &str, family: &Family) -> (r: Result<McpClient, Failure>)
    ensures
        r is Ok <==> client_named(slug@, *family) is Some,
        r is Ok ==> Some(r->Ok_0) == client_named(slug@, *family),
        r is Err ==> r->Err_0@ == FailureView::Text(
            "Unknown client '"@ + slug@ + "'. Valid options: "@ + join(slugs_of(*family), ", "@),
        ),
{
    match McpClient::from_slug(slug, family) {
        Some(c) => Ok(c),
        None => {
            let all = slugs(family);
            let list = join_strings(&all, ", ");
            Err(
                Failure::Text(
                    cat4("Unknown client '", slug, "'. Valid options: ", list.as_str()),
                ),
            )
        },
    }
}

// ─── The configuration of a tool ───────────────────────────────────────────

/// The entry of the server.
pub open spec fn entry_view() -> JsonView {
    JsonView::Obj(seq![("url"@, JsonView::Str(MCP_URL@))])
}

pub fn server_entry() -> (r: Json)
    ensures
        r@ == entry_view(),
{
    let r = Json::object().with("url", Json::str(MCP_URL));
    assert(r@->Obj_0 =~= entry_view()->Obj_0);
    r
}

/// The value of a configuration file: an empty object where there is no file
/// or only whitespace in it. None where the text is no JSON.
pub open spec fn config_value(content: Option<Seq<char>>) -> Option<JsonView> {
    match content {
        Some(text) => if trimmed(text).len() == 0 {
            Some(JsonView::Obj(seq![]))
        } else {
            parsed_json(trimmed(text))
        },
        None => Some(JsonView::Obj(seq![])),
    }
}

/// The value of a configuration file, given its text where it exists. The
/// error is that of the parser, where the text is no JSON.
pub fn read_config(content: Option<&str>) -> (r: Result<Json, serde_json::Error>)
    ensures
        r is Ok <==> config_value(crate::text::opt_str_view(content)) is Some,
        r is Ok ==> r->Ok_0@ == config_value(crate::text::opt_str_view(content))->0,
{
    match content {
        Some(text) => {
            let t = trim(text);
            if t.is_empty() {
                return Ok(Json::object());
            }
            parse_json(t)
        },
        None => Ok(Json::object()),
    }
}

/// The text that is written for a value: indented JSON and a newline.
pub fn write_config(value: &Json) -> (r: Result<String, serde_json::Error>)
    ensures
        r is Ok <==> pretty_json(value@) is Some,
        r is Ok ==> r->Ok_0@ == pretty_json(value@)->0 + "\n"@,
{
    match write_pretty(value) {
        Ok(text) => Ok(cat2(text.as_str(), "\n")),
        Err(e) => Err(e),
    }
}

/// The servers of a configuration; an empty object where there are none yet.
pub open spec fn servers_in(m: Seq<(Seq<char>, JsonView)>, key: Seq<char>) -> JsonView {
    match member_of(JsonView::Obj(m), key) {
        Some(v) => v,
        None => JsonView::Obj(seq![]),
    }
}

/// A configuration with the server entered: every other setting stays.
pub open spec fn installed(config: JsonView, key: Seq<char>) -> Result<JsonView, Seq<char>> {
    match config {
        JsonView::Obj(m) => match servers_in(m, key) {
            JsonView::Obj(servers) => Ok(
                JsonView::Obj(
                    set_in(m, key, JsonView::Obj(set_in(servers, SERVER_NAME@, entry_view()))),
                ),
            ),
            _ => Err("'"@ + key + "' in config is not a JSON object."@),
        },
        _ => Err("Config file is not a JSON object."@),
    }
}

/// Whether the server is there already.
pub open spec fn has_server(config: JsonView, key: Seq<char>) -> bool {
    config matches JsonView::Obj(m) && member_of(servers_in(m, key), SERVER_NAME@) is Some
}

/// Enter the server in the configuration of a tool. The flag tells whether an
/// entry was there already and is replaced.
pub fn install(config: Json, key: &str) -> (r: Result<(Json, bool), Failure>)
    ensures
        match installed(config@, key@) {
            Ok(v) => r is Ok && r->Ok_0.0@ == v && r->Ok_0.1 == has_server(config@, key@),
            Err(e) => r is Err && r->Err_0@ == FailureView::Text(e),
        },
{
    match config {
        Json::Obj(members) => {
            let mut m = members;
            proof {
                object_view(m);
            }
            let ghost before = members_view(m@);
            proof {
                member_index_range(before, key@, 0);
            }
            let current = match take_value(&m, key) {
                Some(i) => {
                    let old_value = replace_value(&mut m, i);
                    old_value
                },
                None => Json::object(),
            };
            assert(current@ == servers_in(before, key@));
            let had = current.get(SERVER_NAME).is_some();
            match current {
                Json::Obj(servers) => {
                    let mut s = servers;
                    proof {
                        object_view(s);
                    }
                    let ghost inner = members_view(s@);
                    set_member(&mut s, SERVER_NAME, server_entry());
                    proof {
                        object_view(s);
                    }
                    let ghost value = JsonView::Obj(set_in(inner, SERVER_NAME@, entry_view()));
                    let ghost blanked = members_view(m@);
                    set_member(&mut m, key, Json::Obj(s));
                    proof {
                        object_view(m);
                        blank_then_set(before, blanked, key@, value);
                    }
                    Ok((Json::Obj(m), had))
                },
                _ => {
                    proof {
                        assert(!(current@ is Obj));
                    }
                    Err(Failure::Text(cat3("'", key, "' in config is not a JSON object.")))
                },
            }
        },
        _ => Err(text_error("Config file is not a JSON object.")),
    }
}

/// The position of the member `key`.
fn take_value(m: &Vec<Member>, key: &str) -> (r: Option<usize>)
    ensures
        r is Some <==> member_index(members_view(m@), key@, 0) < m@.len(),
        r is Some ==> r->0 as int == member_index(members_view(m@), key@, 0) && r->0 < m@.len(),
{
    let mut i: usize = 0;
    while i < m.len() && !str_eq(m[i].key.as_str(), key)
        invariant
            i <= m@.len(),
            member_index(members_view(m@), key@, 0) == member_index(
                members_view(m@),
                key@,
                i as int,
            ),
        decreases m@.len() - i,
    {
        i += 1;
    }
    if i < m.len() {
        Some(i)
    } else {
        None
    }
}

/// Take the value at a position out, and leave `null` in its place.
fn replace_value(m: &mut Vec<Member>, i: usize) -> (r: Json)
    requires
        i < old(m)@.len(),
    ensures
        r@ == members_view(old(m)@)[i as int].1,
        members_view(final(m)@) == members_view(old(m)@).update(
            i as int,
            (members_view(old(m)@)[i as int].0, JsonView::Null),
        ),
{
    let ghost before = m@;
    let member = m.remove(i);
    let ghost key = member.key@;
    m.insert(i, Member { key: member.key, value: Json::Null });
    proof {
        assert(members_view(m@) =~= members_view(before).update(
            i as int,
            (members_view(before)[i as int].0, JsonView::Null),
        ));
    }
    member.value
}

/// Setting a member does not depend on what its value was.
proof fn blank_then_set(
    m: Seq<(Seq<char>, JsonView)>,
    blanked: Seq<(Seq<char>, JsonView)>,
    key: Seq<char>,
    value: JsonView,
)
    requires
        ({
            let i = member_index(m, key, 0);
            if i < m.len() {
                blanked == m.update(i, (m[i].0, JsonView::Null))
            } else {
                blanked == m
            }
        }),
    ensures
        set_in(blanked, key, value) == set_in(m, key, value),
{
    member_index_range(m, key, 0);
    member_index_range(blanked, key, 0);
    let i = member_index(m, key, 0);
    let j = member_index(blanked, key, 0);
    if i < m.len() {
        assert(blanked[i].0 == key);
        if j < i {
            assert(blanked[j].0 == m[j].0);
        }
        assert(i == j);
        assert(blanked.update(i, (key, value)) =~= m.update(i, (key, value)));
    }
}

/// A configuration without the server; none where the server is not in it.
pub open spec fn uninstalled(config: JsonView, key: Seq<char>) -> Option<JsonView> {
    match config {
        JsonView::Obj(m) => match member_of(config, key) {
            Some(JsonView::Obj(servers)) => {
                let i = member_index(servers, SERVER_NAME@, 0);
                if i < servers.len() {
                    Some(JsonView::Obj(set_in(m, key, JsonView::Obj(servers.remove(i)))))
                } else {
                    None
                }
            },
            _ => None,
        },
        _ => None,
    }
}

/// Remove the server from the configuration of a tool; none where it was not
/// there.
pub fn uninstall(config: Json, key: &str) -> (r: Option<Json>)
    ensures
        r is Some <==> uninstalled(config@, key@) is Some,
        r is Some ==> r->0@ == uninstalled(config@, key@)->0,
{
    match config {
        Json::Obj(members) => {
            let mut m = members;
            proof {
                object_view(m);
            }
            let ghost before = members_view(m@);
            proof {
                member_index_range(before, key@, 0);
            }
            let current = match take_value(&m, key) {
                Some(i) => replace_value(&mut m, i),
                None => {
                    return None;
                },
            };
            match current {
                Json::Obj(servers) => {
                    let mut s = servers;
                    proof {
                        object_view(s);
                    }
                    match take_member(&mut s, SERVER_NAME) {
                        Some(_) => {
                            let ghost value = JsonView::Obj(members_view(s@));
                            let ghost blanked = members_view(m@);
                            proof {
                                object_view(s);
                            }
                            set_member(&mut m, key, Json::Obj(s));
                            proof {
                                object_view(m);
                                blank_then_set(before, blanked, key@, value);
                            }
                            Some(Json::Obj(m))
                        },
                        None => None,
                    }
                },
                _ => {
                    proof {
                        assert(!(current@ is Obj));
                    }
                    None
                },
            }
        },
        _ => None,
    }
}

/// The warning for an entry that is replaced.
pub fn overwrite_warning(path: &str) -> (r: String)
    ensures
        r@ == "A '"@ + SERVER_NAME@ + "' entry already exists in "@ + path@
            + ". It will be overwritten."@,
{
    cat5("A '", SERVER_NAME, "' entry already exists in ", path, ". It will be overwritten.")
}

/// The report on an installation.
pub fn installed_report(client: McpClient, family: &Family, path: &str) -> (r: Report)
    ensures
        r@ == (ReportView {
            message: "Installed MCP server into "@ + display_name_of(client, *family) + " ("@
                + path@ + ")"@,
            data: None,
            notes: if client == McpClient::ClaudeDesktop {
                seq![
                    "→ Restart "@ + display_name_of(client, *family)
                        + " for changes to take effect."@,
                ]
            } else {
                seq![]
            },
        }),
{
    let name = client.display_name(family);
    let notes = if client == McpClient::ClaudeDesktop {
        let note = cat3("→ Restart ", name.as_str(), " for changes to take effect.");
        list1(note.as_str())
    } else {
        list0()
    };
    Report {
        message: cat5("Installed MCP server into ", name.as_str(), " (", path, ")"),
        data: None,
        notes,
    }
}

/// The report on a removal.
pub fn removed_report(client: McpClient, family: &Family, path: &str) -> (r: Report)
    ensures
        r@ == (ReportView {
            message: "Removed MCP server from "@ + display_name_of(client, *family) + " ("@
                + path@ + ")"@,
            data: None,
            notes: seq![],
        }),
{
    let name = client.display_name(family);
    Report {
        message: cat5("Removed MCP server from ", name.as_str(), " (", path, ")"),
        data: None,
        notes: list0(),
    }
}

/// The error for a configuration file that is not there.
pub fn nothing_to_remove(path: &str) -> (r: Failure)
    ensures
        r@ == FailureView::Text(
            "Config file does not exist: "@ + path@ + ". Nothing to remove."@,
        ),
{
    Failure::Text(cat3("Config file does not exist: ", path, ". Nothing to remove."))
}

/// The error for a configuration without the server.
pub fn no_entry(path: &str) -> (r: Failure)
    ensures
        r@ == FailureView::Text("No '"@ + SERVER_NAME@ + "' entry found in "@ + path@ + "."@),
{
    Failure::Text(cat5("No '", SERVER_NAME, "' entry found in ", path, "."))
}

// ─── Laws ──────────────────────────────────────────────────────────────────

/// The last letters of the names tell them apart.
proof fn slug_ends(c: McpClient, f: Family)
    ensures
        ({
            let s = ascii_lower(slug_of(c, f));
            let n = s.len() as int;
            match c {
                McpClient::ClaudeDesktop => n >= 8 && s[n - 1] == 'p',
                McpClient::ClaudeCode => n >= 5 && s[n - 1] == 'e' && s[n - 5] == '-',
                McpClient::Cursor => n >= 5 && s[n - 1] == 'r',
                McpClient::Vscode => n >= 5 && s[n - 1] == 'e' && s[n - 5] == 's',
                McpClient::CopilotCli => n >= 5 && s[n - 1] == 'i',
                McpClient::Windsurf => n >= 5 && s[n - 1] == 'f',
            }
        }),
{
    reveal_strlit("-desktop");
    reveal_strlit("-code");
    reveal_strlit("cursor");
    reveal_strlit("vscode");
    reveal_strlit("copilot-cli");
    reveal_strlit("windsurf");
    let s = slug_of(c, f);
    let n = s.len() as int;
    assert("-desktop"@.len() == 8 && "-desktop"@[7] == 'p');
    assert("-code"@.len() == 5 && "-code"@[4] == 'e' && "-code"@[0] == '-');
    assert("cursor"@.len() == 6 && "cursor"@[5] == 'r');
    assert("vscode"@.len() == 6 && "vscode"@[5] == 'e' && "vscode"@[1] == 's');
    assert("copilot-cli"@.len() == 11 && "copilot-cli"@[10] == 'i');
    assert("windsurf"@.len() == 8 && "windsurf"@[7] == 'f');
    assert(ascii_lower(s)[n - 1] == lower_char(s[n - 1]));
    assert(ascii_lower(s)[n - 5] == lower_char(s[n - 5]));
}

proof fn position_of_client(c: McpClient) -> (i: int)
    ensures
        0 <= i < CLIENTS,
        client_at(i) == c,
{
    match c {
        McpClient::ClaudeDesktop => 0,
        McpClient::ClaudeCode => 1,
        McpClient::Cursor => 2,
        McpClient::Vscode => 3,
        McpClient::CopilotCli => 4,
        McpClient::Windsurf => 5,
    }
}

proof fn chosen_from(c: McpClient, f: Family, from: int, at: int)
    requires
        0 <= from <= at < CLIENTS,
        client_at(at) == c,
    ensures
        client_from(slug_of(c, f), f, from) == Some(c),
    decreases at - from,
{
    if from < at {
        slug_ends(c, f);
        slug_ends(client_at(from), f);
        assert(client_at(from) != c);
        chosen_from(c, f, from + 1, at);
    }
}

/// Every tool is chosen by its own name.
pub proof fn slug_chooses_its_client(c: McpClient, f: Family)
    ensures
        client_named(slug_of(c, f), f) == Some(c),
{
    let at = position_of_client(c);
    chosen_from(c, f, 0, at);
}

proof fn case_is_ignored_from(a: Seq<char>, b: Seq<char>, f: Family, from: int)
    requires
        ascii_lower(a) == ascii_lower(b),
        0 <= from <= CLIENTS,
    ensures
        client_from(a, f, from) == client_from(b, f, from),
    decreases CLIENTS - from,
{
    if from < CLIENTS {
        case_is_ignored_from(a, b, f, from + 1);
    }
}

/// A name that chooses a tool does so in any letter case.
pub proof fn slug_case_is_ignored(a: Seq<char>, b: Seq<char>, f: Family)
    requires
        ascii_lower(a) == ascii_lower(b),
    ensures
        client_named(a, f) == client_named(b, f),
{
    case_is_ignored_from(a, b, f, 0);
}

/// After an installation the server is there.
pub proof fn installed_server_is_there(config: JsonView, key: Seq<char>)
    requires
        installed(config, key) is Ok,
    ensures
        has_server(installed(config, key)->Ok_0, key),
        member_of(
            servers_in(installed(config, key)->Ok_0->Obj_0, key),
            SERVER_NAME@,
        ) == Some(entry_view()),
{
    let m = config->Obj_0;
    let servers = servers_in(m, key)->Obj_0;
    let value = JsonView::Obj(set_in(servers, SERVER_NAME@, entry_view()));
    set_then_get(m, key, value);
    set_then_get(servers, SERVER_NAME@, entry_view());
}

/// An installation leaves every other setting as it was.
pub proof fn installing_keeps_other_settings(config: JsonView, key: Seq<char>, other: Seq<char>)
    requires
        installed(config, key) is Ok,
        other != key,
    ensures
        member_of(installed(config, key)->Ok_0, other) == member_of(config, other),
{
    let m = config->Obj_0;
    let servers = servers_in(m, key)->Obj_0;
    crate::json::set_keeps_the_others(
        m,
        key,
        JsonView::Obj(set_in(servers, SERVER_NAME@, entry_view())),
        other,
    );
}

/// What was installed can be removed, and where no server was there before,
/// removing it leaves the servers as they were.
pub proof fn uninstall_undoes_install(config: JsonView, key: Seq<char>)
    requires
        installed(config, key) is Ok,
        !has_server(config, key),
    ensures
        uninstalled(installed(config, key)->Ok_0, key) is Some,
        member_of(uninstalled(installed(config, key)->Ok_0, key)->0, key) == Some(
            servers_in(config->Obj_0, key),
        ),
{
    let m = config->Obj_0;
    let servers = servers_in(m, key)->Obj_0;
    let entered = set_in(servers, SERVER_NAME@, entry_view());
    member_index_range(servers, SERVER_NAME@, 0);
    assert(entered == servers.push((SERVER_NAME@, entry_view())));
    set_then_get(m, key, JsonView::Obj(entered));
    member_index_range(entered, SERVER_NAME@, 0);
    let i = member_index(entered, SERVER_NAME@, 0);
    if i < servers.len() {
        assert(entered[i] == servers[i]);
    }
    assert(entered[servers.len() as int].0 == SERVER_NAME@);
    assert(i == servers.len());
    assert(entered.remove(i) =~= servers);
    let after = set_in(m, key, JsonView::Obj(entered));
    set_then_get(after, key, JsonView::Obj(entered.remove(i)));
}

} // verus!
