//! The command line, and the entry point that each command goes to.
use vstd::prelude::*;
use vstd::string::*;

use crate::auth::AuthArgs;
use crate::error::{error_text, Failure, FailureView};
use crate::init::InitArgs;
use crate::llm::TemplateArgs;
use crate::projects::CreateArgs;
use crate::secret::{CreateRegistryArgs, CreateRepositoryArgs};
use crate::service::link::LinkArgs;
use crate::service::token::TokenArgs;
use crate::text::{str_eq, trim, trimmed};

verus! {

/// The whole command line.
#[derive(Debug)]
pub struct Cli {
    /// Print JSON.
    pub json: bool,
    /// Answer yes to confirmations.
    pub yes: bool,
    /// Never prompt.
    pub no_input: bool,
    /// Configuration file, or the directory that holds it.
    pub config: Option<String>,
    pub command: Commands,
}

#[derive(Debug)]
pub enum Commands {
    Auth { cmd: AuthCommands },
    Init { template: bool },
    Validate { remote: bool },
    Service(ServiceCommands),
    Workspaces(WorkspaceCommands),
    Projects(ProjectCommands),
    Storage(StorageCommands),
    Secrets(SecretsCommands),
    Regions(RegionCommands),
    Pods(PodCommands),
    Mcp(McpCommands),
    Llm(LlmCommands),
}

#[derive(Debug)]
pub enum AuthCommands {
    Login { force: bool },
    SetApikey { key: Option<String>, key_stdin: bool, force: bool },
}

#[derive(Debug)]
pub enum RegionCommands {
    List { workspace: String },
}

#[derive(Debug)]
pub enum PodCommands {
    List { workspace: String, region: Option<String> },
}

#[derive(Debug)]
pub enum McpCommands {
    Install { client: Option<String> },
    Uninstall { client: Option<String> },
}

#[derive(Debug)]
pub enum ServiceCommands {
    Create,
    Pull { service: Option<String> },
    List { project: Option<String>, workspace: Option<String> },
    Push,
    Metrics,
    Logs,
    Jobs,
    Deploy { service: Option<String> },
    Pause,
    Unpause,
    Kill,
    Link {
        workspace: Option<String>,
        project: Option<String>,
        region: Option<String>,
        pod: Option<String>,
        token: Option<String>,
        clear_token: bool,
    },
    Env { path: Option<String>, save: bool },
    Token { secret: Option<String>, clear: bool },
}

#[derive(Debug)]
pub enum ProjectCommands {
    List { workspace: Option<String> },
    Create { workspace: Option<String>, name: Option<String>, environment: Option<String> },
}

#[derive(Debug)]
pub enum WorkspaceCommands {
    List,
}

#[derive(Debug)]
pub enum SecretsCommands {
    CreateRegistry {
        workspace: Option<String>,
        name: Option<String>,
        provider: Option<String>,
        username: Option<String>,
        password: Option<String>,
        password_stdin: bool,
    },
    CreateRepository {
        workspace: Option<String>,
        name: Option<String>,
        provider: Option<String>,
        token: Option<String>,
        token_stdin: bool,
        username: Option<String>,
    },
    List { workspace: Option<String> },
}

#[derive(Debug)]
pub enum StorageCommands {
    Create,
    Update,
    List { project: Option<String>, workspace: Option<String> },
    Show { id: String },
    Detach { id: String },
    Delete { id: String },
}

#[derive(Debug)]
pub enum LlmCommands {
    Guide,
    Schema,
    Template { deploy_type: Option<String>, runtime: Option<String>, source: Option<String> },
    Examples,
    Capabilities,
    Errors,
    Explain { command: String },
    Whoami,
    Doctor,
    Context { workspace: Option<String> },
    Next,
}

/// What is set up before a command runs, in this order. What a command does
/// not need is not set up, so that it works without credentials or a
/// configuration.
#[derive(Debug, Clone, Copy, PartialEq, Eq, Structural)]
pub enum Setup {
    Nothing,
    Client,
    Config,
    ConfigThenClient,
    ClientThenConfig,
}

/// The entry points, with their arguments.
#[derive(Debug)]
pub enum Task {
    Login { force: bool },
    SetApikey(AuthArgs),
    Init(InitArgs),
    Validate,
    ValidateRemote,
    PullById(String),
    Pull,
    DeployById(String),
    ServiceList { project: Option<String>, workspace: Option<String> },
    Create,
    Push,
    /// Refreshes the deploy tag first, where it can.
    Metrics,
    /// Refreshes the deploy tag first, where it can.
    Logs,
    Jobs,
    Deploy,
    Pause,
    Unpause,
    Kill,
    Link(LinkArgs),
    Token(TokenArgs),
    Env { path: Option<String>, save: bool },
    ProjectList { workspace: Option<String> },
    ProjectCreate(CreateArgs),
    WorkspaceList,
    RegionList { workspace: String },
    PodList { workspace: String, region: Option<String> },
    Guide,
    Schema,
    Template(TemplateArgs),
    Examples,
    Capabilities,
    Errors,
    Explain(String),
    Whoami,
    Doctor,
    Context { workspace: Option<String> },
    Next,
    McpInstall(Option<String>),
    McpUninstall(Option<String>),
    CreateRegistry(CreateRegistryArgs),
    CreateRepository(CreateRepositoryArgs),
    SecretList { workspace: Option<String> },
    StorageCreate,
    StorageUpdate,
    StorageList { project: Option<String>, workspace: Option<String> },
    StorageShow(String),
    StorageDetach(String),
    StorageDelete(String),
}

/// The entry point of a `service` command, and what it needs: a pull needs no
/// configuration, nor does a deploy by id or a list.
pub open spec fn service_task(cmd: ServiceCommands) -> (Setup, Task) {
    match cmd {
        ServiceCommands::Pull { service: Some(id) } => (Setup::Client, Task::PullById(id)),
        ServiceCommands::Pull { service: None } => (Setup::Client, Task::Pull),
        ServiceCommands::Deploy { service: Some(id) } => (Setup::Client, Task::DeployById(id)),
        ServiceCommands::Deploy { service: None } => (Setup::ClientThenConfig, Task::Deploy),
        ServiceCommands::List { project, workspace } => (
            Setup::Client,
            Task::ServiceList { project, workspace },
        ),
        ServiceCommands::Create => (Setup::ClientThenConfig, Task::Create),
        ServiceCommands::Push => (Setup::ClientThenConfig, Task::Push),
        ServiceCommands::Metrics => (Setup::ClientThenConfig, Task::Metrics),
        ServiceCommands::Logs => (Setup::ClientThenConfig, Task::Logs),
        ServiceCommands::Jobs => (Setup::ClientThenConfig, Task::Jobs),
        ServiceCommands::Pause => (Setup::ClientThenConfig, Task::Pause),
        ServiceCommands::Unpause => (Setup::ClientThenConfig, Task::Unpause),
        ServiceCommands::Kill => (Setup::ClientThenConfig, Task::Kill),
        ServiceCommands::Link { workspace, project, region, pod, token, clear_token } => (
            Setup::ClientThenConfig,
            Task::Link(LinkArgs { workspace, project, region, pod, token, clear_token }),
        ),
        ServiceCommands::Token { secret, clear } => (
            Setup::ClientThenConfig,
            Task::Token(TokenArgs { secret, clear }),
        ),
        ServiceCommands::Env { path, save } => (
            Setup::ClientThenConfig,
            Task::Env { path, save },
        ),
    }
}

/// The entry point of an `llm` command. Only two of them need the API.
pub open spec fn llm_task(cmd: LlmCommands) -> (Setup, Task) {
    match cmd {
        LlmCommands::Guide => (Setup::Nothing, Task::Guide),
        LlmCommands::Schema => (Setup::Nothing, Task::Schema),
        LlmCommands::Template { deploy_type, runtime, source } => (
            Setup::Nothing,
            Task::Template(TemplateArgs { deploy_type, runtime, source }),
        ),
        LlmCommands::Examples => (Setup::Nothing, Task::Examples),
        LlmCommands::Capabilities => (Setup::Nothing, Task::Capabilities),
        LlmCommands::Errors => (Setup::Nothing, Task::Errors),
        LlmCommands::Explain { command } => (Setup::Nothing, Task::Explain(command)),
        LlmCommands::Whoami => (Setup::Client, Task::Whoami),
        LlmCommands::Doctor => (Setup::Nothing, Task::Doctor),
        LlmCommands::Context { workspace } => (Setup::Client, Task::Context { workspace }),
        LlmCommands::Next => (Setup::Nothing, Task::Next),
    }
}

/// The entry point of a `storage` command. Creating and updating read the disk
/// block of the configuration; the rest work on a volume id.
pub open spec fn storage_task(cmd: StorageCommands) -> (Setup, Task) {
    match cmd {
        StorageCommands::Create => (Setup::ClientThenConfig, Task::StorageCreate),
        StorageCommands::Update => (Setup::ClientThenConfig, Task::StorageUpdate),
        StorageCommands::List { project, workspace } => (
            Setup::Client,
            Task::StorageList { project, workspace },
        ),
        StorageCommands::Show { id } => (Setup::Client, Task::StorageShow(id)),
        StorageCommands::Detach { id } => (Setup::Client, Task::StorageDetach(id)),
        StorageCommands::Delete { id } => (Setup::Client, Task::StorageDelete(id)),
    }
}

/// The entry point of a `secrets` command.
pub open spec fn secrets_task(cmd: SecretsCommands) -> (Setup, Task) {
    match cmd {
        SecretsCommands::CreateRegistry {
            workspace,
            name,
            provider,
            username,
            password,
            password_stdin,
        } => (
            Setup::Client,
            Task::CreateRegistry(
                CreateRegistryArgs {
                    workspace,
                    name,
                    provider,
                    username,
                    password,
                    password_stdin,
                },
            ),
        ),
        SecretsCommands::CreateRepository {
            workspace,
            name,
            provider,
            token,
            token_stdin,
            username,
        } => (
            Setup::Client,
            Task::CreateRepository(
                CreateRepositoryArgs { workspace, name, provider, token, token_stdin, username },
            ),
        ),
        SecretsCommands::List { workspace } => (Setup::Client, Task::SecretList { workspace }),
    }
}

/// The entry point of a command, and what it needs.
pub open spec fn task_of(cmd: Commands) -> (Setup, Task) {
    match cmd {
        Commands::Auth { cmd: AuthCommands::Login { force } } => (
            Setup::Nothing,
            Task::Login { force },
        ),
        Commands::Auth { cmd: AuthCommands::SetApikey { key, key_stdin, force } } => (
            Setup::Nothing,
            Task::SetApikey(AuthArgs { key, key_stdin, force }),
        ),
        Commands::Init { template } => (Setup::Nothing, Task::Init(InitArgs { template })),
        Commands::Validate { remote } => if remote {
            (Setup::ConfigThenClient, Task::ValidateRemote)
        } else {
            (Setup::Config, Task::Validate)
        },
        Commands::Service(cmd) => service_task(cmd),
        Commands::Workspaces(WorkspaceCommands::List) => (Setup::Client, Task::WorkspaceList),
        Commands::Projects(ProjectCommands::List { workspace }) => (
            Setup::Client,
            Task::ProjectList { workspace },
        ),
        Commands::Projects(ProjectCommands::Create { workspace, name, environment }) => (
            Setup::Client,
            Task::ProjectCreate(CreateArgs { workspace, name, environment }),
        ),
        Commands::Storage(cmd) => storage_task(cmd),
        Commands::Secrets(cmd) => secrets_task(cmd),
        Commands::Regions(RegionCommands::List { workspace }) => (
            Setup::Client,
            Task::RegionList { workspace },
        ),
        Commands::Pods(PodCommands::List { workspace, region }) => (
            Setup::Client,
            Task::PodList { workspace, region },
        ),
        Commands::Mcp(McpCommands::Install { client }) => (
            Setup::Nothing,
            Task::McpInstall(client),
        ),
        Commands::Mcp(McpCommands::Uninstall { client }) => (
            Setup::Nothing,
            Task::McpUninstall(client),
        ),
        Commands::Llm(cmd) => llm_task(cmd),
    }
}

fn run_service(cmd: ServiceCommands) -> (r: (Setup, Task))
    ensures
        r == service_task(cmd),
{
    match cmd {
        ServiceCommands::Pull { service } => match service {
            Some(id) => (Setup::Client, Task::PullById(id)),
            None => (Setup::Client, Task::Pull),
        },
        ServiceCommands::Deploy { service } => match service {
            Some(id) => (Setup::Client, Task::DeployById(id)),
            None => (Setup::ClientThenConfig, Task::Deploy),
        },
        ServiceCommands::List { project, workspace } => (
            Setup::Client,
            Task::ServiceList { project, workspace },
        ),
        ServiceCommands::Create => (Setup::ClientThenConfig, Task::Create),
        ServiceCommands::Push => (Setup::ClientThenConfig, Task::Push),
        ServiceCommands::Metrics => (Setup::ClientThenConfig, Task::Metrics),
        ServiceCommands::Logs => (Setup::ClientThenConfig, Task::Logs),
        ServiceCommands::Jobs => (Setup::ClientThenConfig, Task::Jobs),
        ServiceCommands::Pause => (Setup::ClientThenConfig, Task::Pause),
        ServiceCommands::Unpause => (Setup::ClientThenConfig, Task::Unpause),
        ServiceCommands::Kill => (Setup::ClientThenConfig, Task::Kill),
        ServiceCommands::Link { workspace, project, region, pod, token, clear_token } => (
            Setup::ClientThenConfig,
            Task::Link(LinkArgs { workspace, project, region, pod, token, clear_token }),
        ),
        ServiceCommands::Token { secret, clear } => (
            Setup::ClientThenConfig,
            Task::Token(TokenArgs { secret, clear }),
        ),
        ServiceCommands::Env { path, save } => (
            Setup::ClientThenConfig,
            Task::Env { path, save },
        ),
    }
}

fn run_llm(cmd: LlmCommands) -> (r: (Setup, Task))
    ensures
        r == llm_task(cmd),
{
    match cmd {
        LlmCommands::Guide => (Setup::Nothing, Task::Guide),
        LlmCommands::Schema => (Setup::Nothing, Task::Schema),
        LlmCommands::Template { deploy_type, runtime, source } => (
            Setup::Nothing,
            Task::Template(TemplateArgs { deploy_type, runtime, source }),
        ),
        LlmCommands::Examples => (Setup::Nothing, Task::Examples),
        LlmCommands::Capabilities => (Setup::Nothing, Task::Capabilities),
        LlmCommands::Errors => (Setup::Nothing, Task::Errors),
        LlmCommands::Explain { command } => (Setup::Nothing, Task::Explain(command)),
        LlmCommands::Whoami => (Setup::Client, Task::Whoami),
        LlmCommands::Doctor => (Setup::Nothing, Task::Doctor),
        LlmCommands::Context { workspace } => (Setup::Client, Task::Context { workspace }),
        LlmCommands::Next => (Setup::Nothing, Task::Next),
    }
}

fn run_storage(cmd: StorageCommands) -> (r: (Setup, Task))
    ensures
        r == storage_task(cmd),
{
    match cmd {
        StorageCommands::Create => (Setup::ClientThenConfig, Task::StorageCreate),
        StorageCommands::Update => (Setup::ClientThenConfig, Task::StorageUpdate),
        StorageCommands::List { project, workspace } => (
            Setup::Client,
            Task::StorageList { project, workspace },
        ),
        StorageCommands::Show { id } => (Setup::Client, Task::StorageShow(id)),
        StorageCommands::Detach { id } => (Setup::Client, Task::StorageDetach(id)),
        StorageCommands::Delete { id } => (Setup::Client, Task::StorageDelete(id)),
    }
}

fn run_secrets(cmd: SecretsCommands) -> (r: (Setup, Task))
    ensures
        r == secrets_task(cmd),
{
    match cmd {
        SecretsCommands::CreateRegistry {
            workspace,
            name,
            provider,
            username,
            password,
            password_stdin,
        } => (
            Setup::Client,
            Task::CreateRegistry(
                CreateRegistryArgs {
                    workspace,
                    name,
                    provider,
                    username,
                    password,
                    password_stdin,
                },
            ),
        ),
        SecretsCommands::CreateRepository {
            workspace,
            name,
            provider,
            token,
            token_stdin,
            username,
        } => (
            Setup::Client,
            Task::CreateRepository(
                CreateRepositoryArgs { workspace, name, provider, token, token_stdin, username },
            ),
        ),
        SecretsCommands::List { workspace } => (Setup::Client, Task::SecretList { workspace }),
    }
}

/// Where a command goes, and what is set up before it runs.
pub fn run(cmd: Commands) -> (r: (Setup, Task))
    ensures
        r == task_of(cmd),
{
    match cmd {
        Commands::Auth { cmd } => match cmd {
            AuthCommands::Login { force } => (Setup::Nothing, Task::Login { force }),
            AuthCommands::SetApikey { key, key_stdin, force } => (
                Setup::Nothing,
                Task::SetApikey(AuthArgs { key, key_stdin, force }),
            ),
        },
        Commands::Init { template } => (Setup::Nothing, Task::Init(InitArgs { template })),
        Commands::Validate { remote } => if remote {
            (Setup::ConfigThenClient, Task::ValidateRemote)
        } else {
            (Setup::Config, Task::Validate)
        },
        Commands::Service(cmd) => run_service(cmd),
        Commands::Workspaces(cmd) => match cmd {
            WorkspaceCommands::List => (Setup::Client, Task::WorkspaceList),
        },
        Commands::Projects(cmd) => match cmd {
            ProjectCommands::List { workspace } => (
                Setup::Client,
                Task::ProjectList { workspace },
            ),
            ProjectCommands::Create { workspace, name, environment } => (
                Setup::Client,
                Task::ProjectCreate(CreateArgs { workspace, name, environment }),
            ),
        },
        Commands::Storage(cmd) => run_storage(cmd),
        Commands::Secrets(cmd) => run_secrets(cmd),
        Commands::Regions(cmd) => match cmd {
            RegionCommands::List { workspace } => (Setup::Client, Task::RegionList { workspace }),
        },
        Commands::Pods(cmd) => match cmd {
            PodCommands::List { workspace, region } => (
                Setup::Client,
                Task::PodList { workspace, region },
            ),
        },
        Commands::Mcp(cmd) => match cmd {
            McpCommands::Install { client } => (Setup::Nothing, Task::McpInstall(client)),
            McpCommands::Uninstall { client } => (Setup::Nothing, Task::McpUninstall(client)),
        },
        Commands::Llm(cmd) => run_llm(cmd),
    }
}

/// Whether an error is a cancellation by the user.
pub open spec fn is_cancellation(e: FailureView) -> bool {
    (e is Cli && e->Cli_0.code == "cancelled"@) || trimmed(error_text(e)) == "Cancelled."@
}

/// The exit code for an error: 2 for a cancellation, 1 for everything else.
pub fn exit_code_for(err: &Failure) -> (r: i32)
    ensures
        r == (if is_cancellation(err@) {
            2i32
        } else {
            1i32
        }),
{
    match err {
        Failure::Cli(c) => {
            if str_eq(c.code.as_str(), "cancelled") {
                return 2;
            }
        },
        Failure::Text(_) => {},
    }
    let text = err.to_text();
    if str_eq(trim(text.as_str()), "Cancelled.") {
        return 2;
    }
    1
}

/// Of the `llm` commands only `whoami` and `context` need the API; the others
/// need neither credentials nor a configuration.
pub proof fn offline_commands_need_nothing(cmd: LlmCommands)
    ensures
        llm_task(cmd).0 == Setup::Nothing <==> !(cmd is Whoami) && !(cmd is Context),
{
}

} // verus!
