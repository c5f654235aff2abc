//! The `.partiri.jsonc` configuration.
use vstd::prelude::*;
use vstd::string::*;

use crate::error::{bare, enriched_of, hinted, text_error};
use crate::error::{CliError, CliErrorView, Failure, FailureView};
use crate::jsonc::{jsonc_of, render};
use crate::text::{
    cat2, cat3, cat4, chars_of, is_white, is_whitespace, join, join_slices, opt_view,
    slice_contains, str_eq, strs, trim, trimmed,
};

verus! {

/// Name of the per-service configuration file, looked up in the current
/// directory.
pub const CONFIG_FILE: &'static str = ".partiri.jsonc";

/// Allowed values of [`ServiceConfig::deploy_type`].
pub const DEPLOY_TYPES: [&'static str; 4] = ["webservice", "static", "private-service", "worker"];

/// Allowed values of [`ServiceConfig::runtime`].
pub const RUNTIMES: [&'static str; 13] = [
    "node",
    "deno",
    "rust",
    "python",
    "go",
    "ruby",
    "elixir",
    "php",
    "jvm",
    "dotnet",
    "cpp",
    "static",
    "registry",
];

/// Maximum length of [`ServiceConfig::name`] in characters.
pub const MAX_NAME_LEN: usize = 16;

/// Minimum [`DiskConfig::size`] in GB.
pub const DISK_SIZE_MIN: u32 = 1;

/// Maximum [`DiskConfig::size`] in GB.
pub const DISK_SIZE_MAX: u32 = 10;

/// The `.partiri.jsonc` file as a whole.
#[derive(Debug, Clone)]
pub struct PartiriConfig {
    /// Service id, assigned by `partiri service create`.
    pub id: Option<String>,
    /// Deploy tag, set after each deployment. Scopes logs and metrics.
    pub deploy_tag: Option<String>,
    /// UUID of the workspace that the service belongs to.
    pub fk_workspace: String,
    /// UUID of the project that the service belongs to.
    pub fk_project: String,
    /// The service definition that the user edits.
    pub service: ServiceConfig,
}

/// The `service` section: the fields of a service that the user manages.
#[derive(Debug, Clone)]
pub struct ServiceConfig {
    /// At most [`MAX_NAME_LEN`] characters, unique within the project.
    pub name: String,
    /// One of [`DEPLOY_TYPES`].
    pub deploy_type: String,
    /// One of [`RUNTIMES`].
    pub runtime: String,
    /// Path of the application within the repository.
    pub root_path: String,
    /// Git repository. Excludes `registry_url`.
    pub repository_url: Option<String>,
    /// Branch to deploy. Required when `repository_url` is set.
    pub repository_branch: Option<String>,
    /// Container image reference. Excludes `repository_url`.
    pub registry_url: Option<String>,
    /// Secret for private repositories and registries.
    pub fk_service_secret: Option<String>,
    /// Directory that the build writes to.
    pub build_path: Option<String>,
    /// Command that builds the project. Required for repository-sourced
    /// non-static services.
    pub build_command: Option<String>,
    /// Command that runs before each deploy.
    pub pre_deploy_command: Option<String>,
    /// Command that starts the service.
    pub run_command: Option<String>,
    /// Region UUID.
    pub fk_region: String,
    /// Compute pod UUID.
    pub fk_pod: String,
    /// Health-check path or URL; none disables the check.
    pub health_check_path: Option<String>,
    /// Serve a maintenance page in place of the service.
    pub maintenance_mode: bool,
    /// Whether the service is active.
    pub active: bool,
    /// Persistent disk of the service. Kept in the file, never sent with the
    /// service.
    pub disk: Option<DiskConfig>,
    /// Environment variables; sent only when they are replaced, never kept in
    /// the file.
    pub env: Option<Vec<EnvVar>>,
}

/// A persistent disk.
#[derive(Debug, Clone)]
pub struct DiskConfig {
    /// Absolute mount path inside the container.
    pub mount_path: String,
    /// Size in GB.
    pub size: u32,
}

/// One environment variable.
#[derive(Debug, Clone)]
pub struct EnvVar {
    pub key: String,
    pub value: String,
}

impl Default for ServiceConfig {
    /// Every text empty, every option absent, every switch off.
    fn default() -> (r: Self)
        ensures
            r.name@.len() == 0,
            r.deploy_type@.len() == 0,
            r.runtime@.len() == 0,
            r.root_path@.len() == 0,
            r.fk_region@.len() == 0,
            r.fk_pod@.len() == 0,
            r.repository_url is None,
            r.repository_branch is None,
            r.registry_url is None,
            r.fk_service_secret is None,
            r.build_path is None,
            r.build_command is None,
            r.pre_deploy_command is None,
            r.run_command is None,
            r.health_check_path is None,
            r.disk is None,
            r.env is None,
            !r.maintenance_mode,
            !r.active,
    {
        ServiceConfig {
            name: String::new(),
            deploy_type: String::new(),
            runtime: String::new(),
            root_path: String::new(),
            repository_url: None,
            repository_branch: None,
            registry_url: None,
            fk_service_secret: None,
            build_path: None,
            build_command: None,
            pre_deploy_command: None,
            run_command: None,
            fk_region: String::new(),
            fk_pod: String::new(),
            health_check_path: None,
            maintenance_mode: false,
            active: false,
            disk: None,
            env: None,
        }
    }
}

/// The `--config` override: the resolved path once one was given.
#[derive(Debug, Clone)]
pub struct ConfigOverride {
    pub path: Option<String>,
}

impl View for ConfigOverride {
    type V = Option<Seq<char>>;

    open spec fn view(&self) -> Option<Seq<char>> {
        opt_view(self.path)
    }
}

impl ConfigOverride {
    /// No override.
    pub fn none() -> (r: ConfigOverride)
        ensures
            r@ == None::<Seq<char>>,
    {
        ConfigOverride { path: None }
    }
}

/// The path of the active configuration file.
pub open spec fn config_display_of(over: Option<Seq<char>>) -> Seq<char> {
    match over {
        Some(p) => p,
        None => CONFIG_FILE@,
    }
}

/// Whether some character of `s` is whitespace.
pub open spec fn has_white(s: Seq<char>) -> bool {
    exists|i: int| 0 <= i < s.len() && is_white(#[trigger] s[i])
}

/// The ` --config <path>` fragment that makes a suggested command use the same
/// configuration file; empty without an override. A path with whitespace is
/// put in single quotes.
pub open spec fn config_flag_suffix_of(over: Option<Seq<char>>) -> Seq<char> {
    match over {
        Some(p) => if has_white(p) {
            " --config '"@ + p + "'"@
        } else {
            " --config "@ + p
        },
        None => Seq::empty(),
    }
}

/// The active configuration path, for messages.
pub fn config_display(over: &ConfigOverride) -> (r: String)
    ensures
        r@ == config_display_of(over@),
{
    match &over.path {
        Some(p) => p.clone(),
        None => CONFIG_FILE.to_owned(),
    }
}

fn has_whitespace(s: &str) -> (r: bool)
    ensures
        r == has_white(s@),
{
    let cs = chars_of(s);
    for i in 0..cs.len()
        invariant
            cs@ == s@,
            forall|k: int| 0 <= k < i ==> !is_white(#[trigger] cs@[k]),
    {
        if is_whitespace(cs[i]) {
            return true;
        }
    }
    false
}

/// The fragment that a suggested command needs to use the active
/// configuration file.
pub fn config_flag_suffix(over: &ConfigOverride) -> (r: String)
    ensures
        r@ == config_flag_suffix_of(over@),
{
    match &over.path {
        Some(p) => {
            if has_whitespace(p.as_str()) {
                cat3(" --config '", p.as_str(), "'")
            } else {
                cat2(" --config ", p.as_str())
            }
        },
        None => String::new(),
    }
}

/// Install the `--config` override. The first path that was given stays.
pub fn init_config_path(
    over: &mut ConfigOverride,
    override_path: Option<String>,
    is_dir: bool,
    separator: char,
)
    ensures
        final(over)@ == match (old(over)@, override_path) {
            (None, Some(p)) => Some(resolved_path(p@, is_dir, separator)),
            _ => old(over)@,
        },
{
    match override_path {
        Some(p) => {
            if over.path.is_none() {
                over.path = Some(resolve_config_path(p.as_str(), is_dir, separator));
            }
        },
        None => {},
    }
}

/// Whether a path ends with a path separator.
pub open spec fn ends_with_separator(p: Seq<char>, separator: char) -> bool {
    p.len() > 0 && (p.last() == separator || p.last() == '/')
}

/// The configuration file that a `--config` path stands for: the file in it
/// for a directory (one that exists, or a path that ends with a separator),
/// and the path itself for all else.
pub open spec fn resolved_path(p: Seq<char>, is_dir: bool, separator: char) -> Seq<char> {
    if ends_with_separator(p, separator) {
        p + CONFIG_FILE@
    } else if is_dir {
        if p.len() == 0 {
            CONFIG_FILE@
        } else {
            p.push(separator) + CONFIG_FILE@
        }
    } else {
        p
    }
}

/// Resolve a `--config` path, given whether a directory exists at it and the
/// platform's path separator.
pub fn resolve_config_path(p: &str, is_dir: bool, separator: char) -> (r: String)
    ensures
        r@ == resolved_path(p@, is_dir, separator),
{
    let cs = chars_of(p);
    let n: usize = cs.len();
    let trailing = n > 0 && (cs[n - 1] == separator || cs[n - 1] == '/');
    let mut out = p.to_owned();
    if trailing {
        out.append(CONFIG_FILE);
    } else if is_dir {
        if n > 0 {
            out.push(separator);
        }
        out.append(CONFIG_FILE);
        proof {
            assert(Seq::<char>::empty() + CONFIG_FILE@ =~= CONFIG_FILE@);
            assert(n == 0 ==> p@ =~= Seq::<char>::empty());
        }
    }
    out
}

/// What was found when the configuration file was read.
#[derive(Debug)]
pub enum ConfigRead {
    /// No file at the path.
    Missing,
    /// The file is there and cannot be read; the reason.
    Unreadable(String),
    /// The file's text is no configuration; the reason.
    Unparseable(String),
    /// The configuration in the file.
    Parsed(PartiriConfig),
}

/// The error for a configuration file that could not be had.
pub open spec fn read_error(path: Seq<char>, over: Option<Seq<char>>, read: ConfigRead) -> Option<
    CliErrorView,
> {
    match read {
        ConfigRead::Missing => Some(
            enriched_of(
                hinted(
                    bare("config"@, "No "@ + path + " found."@),
                    "Run 'partiri init --template --config "@ + path + "' to create one."@,
                ),
                over,
            ),
        ),
        ConfigRead::Unreadable(why) => Some(
            enriched_of(bare("config"@, "Failed to read "@ + path + ": "@ + why@), over),
        ),
        ConfigRead::Unparseable(why) => Some(
            enriched_of(
                hinted(
                    bare("config"@, "Failed to parse "@ + path + ": "@ + why@),
                    "Run 'partiri validate' to see which fields are wrong."@,
                ),
                over,
            ),
        ),
        ConfigRead::Parsed(_) => None,
    }
}

/// The error for a missing file where no `--config` was given.
pub open spec fn missing_here() -> CliErrorView {
    enriched_of(
        hinted(
            bare("config"@, "No "@ + CONFIG_FILE@ + " found in the current directory."@),
            "Run 'partiri init --template' to create one."@,
        ),
        None,
    )
}

/// A file to write: where, and what.
#[derive(Debug)]
pub struct FileWrite {
    pub path: String,
    pub contents: String,
}

impl FileWrite {
    /// The result of the save, given how the write went.
    pub fn outcome(&self, written: Result<(), String>) -> (r: Result<(), Failure>)
        ensures
            written is Ok <==> r is Ok,
            written matches Err(why) ==> r->Err_0@ == FailureView::Text(
                "Failed to write "@ + self.path@ + ": "@ + why@,
            ),
    {
        match written {
            Ok(_) => Ok(()),
            Err(why) => Err(
                Failure::Text(cat4("Failed to write ", self.path.as_str(), ": ", why.as_str())),
            ),
        }
    }
}

/// The message of [`PartiriConfig::id_or_err`].
pub open spec fn not_created() -> FailureView {
    FailureView::Text("Service not yet created. Run 'partiri service create' first."@)
}

impl PartiriConfig {
    /// The active configuration, given what was found at its path. Without an
    /// override a missing file is reported as missing from the current
    /// directory; with one, by its path.
    pub fn load(over: &ConfigOverride, read: ConfigRead) -> (r: Result<PartiriConfig, Failure>)
        ensures
            read matches ConfigRead::Parsed(c) ==> r == Ok::<PartiriConfig, Failure>(c),
            !(read is Parsed) ==> r is Err && r->Err_0@ == FailureView::Cli(
                if over@ is None && read is Missing {
                    missing_here()
                } else {
                    read_error(config_display_of(over@), over@, read)->0
                },
            ),
    {
        let path = PartiriConfig::config_path(over);
        if over.path.is_none() {
            match read {
                ConfigRead::Missing => {
                    let message = cat3("No ", CONFIG_FILE, " found in the current directory.");
                    return Err(
                        Failure::Cli(
                            CliError::new("config", message.as_str()).with_hint(
                                "Run 'partiri init --template' to create one.",
                            ).enriched(over),
                        ),
                    );
                },
                _ => {},
            }
        }
        PartiriConfig::load_from(path.as_str(), over, read)
    }

    /// The configuration at `path`, given what was found there.
    pub fn load_from(path: &str, over: &ConfigOverride, read: ConfigRead) -> (r: Result<
        PartiriConfig,
        Failure,
    >)
        ensures
            read matches ConfigRead::Parsed(c) ==> r == Ok::<PartiriConfig, Failure>(c),
            !(read is Parsed) ==> r is Err && r->Err_0@ == FailureView::Cli(
                read_error(path@, over@, read)->0,
            ),
    {
        match read {
            ConfigRead::Missing => {
                let message = cat3("No ", path, " found.");
                let hint = cat3(
                    "Run 'partiri init --template --config ",
                    path,
                    "' to create one.",
                );
                Err(
                    Failure::Cli(
                        CliError::new("config", message.as_str()).with_hint(
                            hint.as_str(),
                        ).enriched(over),
                    ),
                )
            },
            ConfigRead::Unreadable(why) => {
                let message = cat4("Failed to read ", path, ": ", why.as_str());
                Err(Failure::Cli(CliError::new("config", message.as_str()).enriched(over)))
            },
            ConfigRead::Unparseable(why) => {
                let message = cat4("Failed to parse ", path, ": ", why.as_str());
                Err(
                    Failure::Cli(
                        CliError::new("config", message.as_str()).with_hint(
                            "Run 'partiri validate' to see which fields are wrong.",
                        ).enriched(over),
                    ),
                )
            },
            ConfigRead::Parsed(c) => Ok(c),
        }
    }

    /// The write that saves the configuration at the active path.
    pub fn save(&self, over: &ConfigOverride) -> (r: FileWrite)
        ensures
            r.path@ == config_display_of(over@),
            r.contents@ == jsonc_of(*self),
    {
        let path = PartiriConfig::config_path(over);
        self.save_to(path.as_str())
    }

    /// The write that saves the configuration at `path`.
    pub fn save_to(&self, path: &str) -> (r: FileWrite)
        ensures
            r.path@ == path@,
            r.contents@ == jsonc_of(*self),
    {
        FileWrite { path: path.to_owned(), contents: render(self) }
    }

    /// The path of the active configuration file.
    pub fn config_path(over: &ConfigOverride) -> (r: String)
        ensures
            r@ == config_display_of(over@),
    {
        config_display(over)
    }

    /// The service id, or an error that asks for the service to be created.
    pub fn id_or_err(&self) -> (r: Result<&str, Failure>)
        ensures
            r is Ok <==> self.id is Some,
            self.id matches Some(id) ==> r->Ok_0@ == id@,
            self.id is None ==> r->Err_0@ == not_created(),
    {
        match &self.id {
            Some(id) => Ok(id.as_str()),
            None => Err(
                text_error("Service not yet created. Run 'partiri service create' first."),
            ),
        }
    }

    /// The annotated JSONC text of the configuration.
    pub fn to_jsonc_string(&self) -> (r: Result<String, Failure>)
        ensures
            r is Ok,
            r->Ok_0@ == jsonc_of(*self),
    {
        Ok(render(self))
    }
}

// ─── Field checks ──────────────────────────────────────────────────────────

/// The outcome of one field check.
#[derive(Debug)]
pub struct ValidationResult {
    pub field: String,
    pub ok: bool,
    pub message: String,
}

pub ghost struct ValidationView {
    pub field: Seq<char>,
    pub ok: bool,
    pub message: Seq<char>,
}

impl View for ValidationResult {
    type V = ValidationView;

    open spec fn view(&self) -> ValidationView {
        ValidationView { field: self.field@, ok: self.ok, message: self.message@ }
    }
}

/// What a list of outcomes says.
pub open spec fn outcomes(v: Seq<ValidationResult>) -> Seq<ValidationView> {
    v.map_values(|r: ValidationResult| r@)
}

pub open spec fn outcome(field: Seq<char>, ok: bool, message: Seq<char>) -> ValidationView {
    ValidationView { field, ok, message }
}

/// Present and not empty.
pub open spec fn given(o: Option<String>) -> bool {
    o is Some && o->0@.len() > 0
}

/// Present and not blank.
pub open spec fn filled(o: Option<String>) -> bool {
    o is Some && trimmed(o->0@).len() > 0
}

pub open spec fn has_repo(svc: ServiceConfig) -> bool {
    given(svc.repository_url)
}

pub open spec fn has_registry(svc: ServiceConfig) -> bool {
    given(svc.registry_url)
}

pub open spec fn known_deploy_type(s: Seq<char>) -> bool {
    strs(DEPLOY_TYPES@).contains(s)
}

pub open spec fn known_runtime(s: Seq<char>) -> bool {
    strs(RUNTIMES@).contains(s)
}

/// The deploy types that start a process of their own.
pub open spec fn runs_a_process(deploy_type: Seq<char>) -> bool {
    deploy_type == "webservice"@ || deploy_type == "private-service"@ || deploy_type == "worker"@
}

/// Whether the service is a static site: static by its deploy type and by its
/// runtime, so that nothing has to be built. The runtime counts too, since a
/// runtime such as `node` builds the files that a static deploy serves.
pub open spec fn is_static_site(svc: ServiceConfig) -> bool {
    svc.deploy_type@ == "static"@ && svc.runtime@ == "static"@
}

/// The checks that every configuration gets.
pub open spec fn base_checks(svc: ServiceConfig) -> Seq<ValidationView> {
    seq![
        outcome("name"@, svc.name@.len() > 0, "Service name is required"@),
        outcome(
            "name_length"@,
            svc.name@.len() <= MAX_NAME_LEN,
            "Service name must be 16 characters or fewer"@,
        ),
        outcome(
            "deploy_type"@,
            known_deploy_type(svc.deploy_type@),
            "Must be: "@ + join(strs(DEPLOY_TYPES@), " | "@),
        ),
        outcome(
            "runtime"@,
            known_runtime(svc.runtime@),
            "Must be: "@ + join(strs(RUNTIMES@), " | "@),
        ),
        outcome("root_path"@, svc.root_path@.len() > 0, "root_path is required"@),
        outcome("fk_region"@, svc.fk_region@.len() > 0, "Region is required"@),
        outcome("fk_pod"@, svc.fk_pod@.len() > 0, "Compute pod is required"@),
        outcome(
            "source"@,
            has_repo(svc) != has_registry(svc),
            if has_repo(svc) && has_registry(svc) {
                "Cannot have both repository_url and registry_url"@
            } else {
                "Either repository_url or registry_url is required"@
            },
        ),
    ]
}

/// A static site cannot come from a registry.
pub open spec fn static_checks(svc: ServiceConfig) -> Seq<ValidationView> {
    if svc.deploy_type@ == "static"@ && has_registry(svc) {
        seq![
            outcome(
                "deploy_type/static"@,
                false,
                "deploy_type 'static' only supports repository source (not registry)"@,
            ),
        ]
    } else {
        seq![]
    }
}

/// A repository needs the branch to deploy from.
pub open spec fn branch_checks(svc: ServiceConfig) -> Seq<ValidationView> {
    if has_repo(svc) {
        seq![
            outcome(
                "repository_branch"@,
                given(svc.repository_branch),
                "repository_branch is required when repository_url is set"@,
            ),
        ]
    } else {
        seq![]
    }
}

/// Code from a repository has to be built, unless it is a static site.
pub open spec fn build_checks(svc: ServiceConfig) -> Seq<ValidationView> {
    if has_repo(svc) && !is_static_site(svc) {
        seq![
            outcome(
                "build_command"@,
                filled(svc.build_command),
                "build_command is required for repository-sourced services"@,
            ),
        ]
    } else {
        seq![]
    }
}

/// Code from a repository has to be started where the deploy type runs a
/// process.
pub open spec fn run_checks(svc: ServiceConfig) -> Seq<ValidationView> {
    if has_repo(svc) && runs_a_process(svc.deploy_type@) {
        seq![
            outcome(
                "run_command"@,
                filled(svc.run_command),
                "run_command is required for webservice, private-service, and worker deploy types"@,
            ),
        ]
    } else {
        seq![]
    }
}

/// Every check of a configuration, in order.
pub open spec fn checks_of(c: PartiriConfig) -> Seq<ValidationView> {
    base_checks(c.service) + static_checks(c.service) + branch_checks(c.service) + build_checks(
        c.service,
    ) + run_checks(c.service)
}

fn check(results: &mut Vec<ValidationResult>, field: &str, ok: bool, message: &str)
    ensures
        outcomes(final(results)@) == outcomes(old(results)@).push(outcome(field@, ok, message@)),
{
    results.push(ValidationResult { field: field.to_owned(), ok, message: message.to_owned() });
    assert(outcomes(results@) =~= outcomes(old(results)@).push(outcome(field@, ok, message@)));
}

pub(crate) fn is_given(o: &Option<String>) -> (r: bool)
    ensures
        r == given(*o),
{
    match o {
        Some(s) => !s.as_str().is_empty(),
        None => false,
    }
}

pub(crate) fn is_filled(o: &Option<String>) -> (r: bool)
    ensures
        r == filled(*o),
{
    match o {
        Some(s) => !trim(s.as_str()).is_empty(),
        None => false,
    }
}

/// Whether the service is a static site.
pub(crate) fn static_site(svc: &ServiceConfig) -> (r: bool)
    ensures
        r == is_static_site(*svc),
{
    str_eq(svc.deploy_type.as_str(), "static") && str_eq(svc.runtime.as_str(), "static")
}

/// Check every required and conditional field.
#[verifier::rlimit(60)]
pub fn validate_config(config: &PartiriConfig) -> (r: Vec<ValidationResult>)
    ensures
        outcomes(r@) == checks_of(*config),
{
    let svc = &config.service;
    let mut results: Vec<ValidationResult> = Vec::new();
    check(&mut results, "name", !svc.name.as_str().is_empty(), "Service name is required");
    check(
        &mut results,
        "name_length",
        svc.name.as_str().unicode_len() <= MAX_NAME_LEN,
        "Service name must be 16 characters or fewer",
    );
    let types = join_slices(DEPLOY_TYPES.as_slice(), " | ");
    check(
        &mut results,
        "deploy_type",
        slice_contains(DEPLOY_TYPES.as_slice(), svc.deploy_type.as_str()),
        cat2("Must be: ", types.as_str()).as_str(),
    );
    let runtimes = join_slices(RUNTIMES.as_slice(), " | ");
    check(
        &mut results,
        "runtime",
        slice_contains(RUNTIMES.as_slice(), svc.runtime.as_str()),
        cat2("Must be: ", runtimes.as_str()).as_str(),
    );
    check(
        &mut results,
        "root_path",
        !svc.root_path.as_str().is_empty(),
        "root_path is required",
    );
    check(&mut results, "fk_region", !svc.fk_region.as_str().is_empty(), "Region is required");
    check(&mut results, "fk_pod", !svc.fk_pod.as_str().is_empty(), "Compute pod is required");
    let repo = is_given(&svc.repository_url);
    let reg = is_given(&svc.registry_url);
    check(
        &mut results,
        "source",
        repo != reg,
        if repo && reg {
            "Cannot have both repository_url and registry_url"
        } else {
            "Either repository_url or registry_url is required"
        },
    );
    assert(outcomes(results@) =~= base_checks(*svc));
    if str_eq(svc.deploy_type.as_str(), "static") && reg {
        check(
            &mut results,
            "deploy_type/static",
            false,
            "deploy_type 'static' only supports repository source (not registry)",
        );
    }
    assert(outcomes(results@) =~= base_checks(*svc) + static_checks(*svc));
    if repo {
        check(
            &mut results,
            "repository_branch",
            is_given(&svc.repository_branch),
            "repository_branch is required when repository_url is set",
        );
    }
    assert(outcomes(results@) =~= base_checks(*svc) + static_checks(*svc) + branch_checks(*svc));
    if repo && !static_site(svc) {
        check(
            &mut results,
            "build_command",
            is_filled(&svc.build_command),
            "build_command is required for repository-sourced services",
        );
    }
    assert(outcomes(results@) =~= base_checks(*svc) + static_checks(*svc) + branch_checks(*svc)
        + build_checks(*svc));
    let kind = svc.deploy_type.as_str();
    if repo && (str_eq(kind, "webservice") || str_eq(kind, "private-service") || str_eq(
        kind,
        "worker",
    )) {
        check(
            &mut results,
            "run_command",
            is_filled(&svc.run_command),
            "run_command is required for webservice, private-service, and worker deploy types",
        );
    }
    assert(outcomes(results@) =~= checks_of(*config));
    results
}

/// Whether every check of `c` passes.
pub open spec fn is_valid(c: PartiriConfig) -> bool {
    forall|i: int| 0 <= i < checks_of(c).len() ==> (#[trigger] checks_of(c)[i]).ok
}

/// What a configuration that passes every check looks like.
pub proof fn valid_config_meaning(c: PartiriConfig)
    ensures
        is_valid(c) <==> {
            let s = c.service;
            &&& 0 < s.name@.len() <= MAX_NAME_LEN
            &&& known_deploy_type(s.deploy_type@)
            &&& known_runtime(s.runtime@)
            &&& s.root_path@.len() > 0
            &&& s.fk_region@.len() > 0
            &&& s.fk_pod@.len() > 0
            &&& has_repo(s) != has_registry(s)
            &&& s.deploy_type@ == "static"@ ==> has_repo(s)
            &&& has_repo(s) ==> given(s.repository_branch)
            &&& has_repo(s) && !is_static_site(s) ==> filled(s.build_command)
            &&& has_repo(s) && runs_a_process(s.deploy_type@) ==> filled(s.run_command)
        },
{
    let s = c.service;
    let all = checks_of(c);
    let b = base_checks(s);
    let t = static_checks(s);
    let h = branch_checks(s);
    let m = build_checks(s);
    let r = run_checks(s);
    let at_h = 8 + t.len() as int;
    let at_m = at_h + h.len();
    let at_r = at_m + m.len();
    assert(b.len() == 8);
    assert forall|i: int| 0 <= i < 8 implies all[i] == b[i] by {}
    assert forall|i: int| 0 <= i < t.len() implies all[8 + i] == t[i] by {}
    assert forall|i: int| 0 <= i < h.len() implies all[at_h + i] == h[i] by {}
    assert forall|i: int| 0 <= i < m.len() implies all[at_m + i] == m[i] by {}
    assert forall|i: int| 0 <= i < r.len() implies all[at_r + i] == r[i] by {}
    if is_valid(c) {
        assert(b[0].ok && b[1].ok && b[2].ok && b[3].ok && b[4].ok && b[5].ok && b[6].ok && b[7].ok)
            by {
            assert(all[0].ok && all[1].ok && all[2].ok && all[3].ok && all[4].ok && all[5].ok
                && all[6].ok && all[7].ok);
        }
        if t.len() > 0 {
            assert(all[8].ok);
        }
        if h.len() > 0 {
            assert(all[at_h + 0].ok);
        }
        if m.len() > 0 {
            assert(all[at_m + 0].ok);
        }
        if r.len() > 0 {
            assert(all[at_r + 0].ok);
        }
    }
}

} // verus!
