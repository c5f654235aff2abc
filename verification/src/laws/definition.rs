//! What becomes of a service definition: pulled, pushed, linked, and assembled
//! from the answers of the wizard.
use vstd::prelude::*;
use vstd::string::*;

use crate::client::{primary_index, primary_region_of, service_members, Service, ServiceReplica};
use crate::config::{DiskConfig, PartiriConfig, ServiceConfig};
use crate::error::Failure;
use crate::init::{
    is_assembled, is_template, project_in, proposed_name_of, question_of, ProjectFiles, Question,
    WizardAnswers,
};
use crate::json::{member_of, JsonView};
use crate::laws::bodies::{decided, if_given, said, service_body_says_each_field};
use crate::service::link::{link_problem, linked, next_step, with_pick, LinkArgs, LinkStep};
use crate::service::pull::{disk_after, is_config_of, mapping_problem};
use crate::service::token::with_token;
use crate::text::{opt_view, trimmed};

verus! {

// ─── Pull ──────────────────────────────────────────────────────────────────

/// Whether a replica is the home of a service: the first that is primary.
pub open spec fn is_home(svc: Service, x: ServiceReplica) -> bool {
    svc.replicas matches Some(v) && exists|i: int|
        {
            &&& 0 <= i < v@.len()
            &&& #[trigger] v@[i] == x
            &&& x.is_primary
            &&& forall|j: int| 0 <= j < i ==> !(#[trigger] v@[j]).is_primary
        }
}

/// Whether no replica of a service is primary.
pub open spec fn is_homeless(svc: Service) -> bool {
    svc.replicas matches Some(v) ==> forall|j: int|
        0 <= j < v@.len() ==> !(#[trigger] v@[j]).is_primary
}

proof fn home_index(v: Seq<ServiceReplica>, i: int, from: int)
    requires
        0 <= from <= i < v.len(),
        v[i].is_primary,
        forall|j: int| 0 <= j < i ==> !(#[trigger] v[j]).is_primary,
    ensures
        primary_index(v, from) == i,
    decreases i - from,
{
    if from < i {
        assert(!v[from].is_primary);
        home_index(v, i, from + 1);
    }
}

proof fn no_home_index(v: Seq<ServiceReplica>, from: int)
    requires
        0 <= from <= v.len(),
        forall|j: int| 0 <= j < v.len() ==> !(#[trigger] v[j]).is_primary,
    ensures
        primary_index(v, from) == v.len(),
    decreases v.len() - from,
{
    if from < v.len() {
        no_home_index(v, from + 1);
    }
}

/// The region of a service is that of its home, and it has none without one.
pub proof fn region_is_that_of_the_home(svc: Service)
    ensures
        forall|x: ServiceReplica| #[trigger] is_home(svc, x) ==> primary_region_of(svc) == Some(
            x.fk_region@,
        ),
        is_homeless(svc) ==> primary_region_of(svc) is None,
{
    assert forall|x: ServiceReplica| #[trigger] is_home(svc, x) implies primary_region_of(svc)
        == Some(x.fk_region@) by {
        let v = svc.replicas->0@;
        let i = choose|i: int|
            {
                &&& 0 <= i < v.len()
                &&& #[trigger] v[i] == x
                &&& x.is_primary
                &&& forall|j: int| 0 <= j < i ==> !(#[trigger] v[j]).is_primary
            };
        home_index(v, i, 0);
    }
    if is_homeless(svc) && svc.replicas is Some {
        no_home_index(svc.replicas->0@, 0);
    }
}

/// A service can be pulled exactly where it has a home region and a pod.
pub proof fn pull_needs_a_region_and_a_pod(svc: Service)
    ensures
        mapping_problem(svc) is None ==> svc.fk_pod is Some && svc.fk_pod->0@.len() > 0
            && !is_homeless(svc),
        forall|x: ServiceReplica| #[trigger] is_home(svc, x) ==> (mapping_problem(svc) is None
            <==> x.fk_region@.len() > 0 && svc.fk_pod is Some && svc.fk_pod->0@.len() > 0),
{
    region_is_that_of_the_home(svc);
}

/// A pulled configuration has each field of the service under the same name, the
/// region of its home, and the place that was given only where the service names
/// none.
pub proof fn pulled_fields_are_the_services(
    c: PartiriConfig,
    svc: Service,
    id: String,
    w: String,
    p: String,
)
    requires
        is_config_of(c, svc, id, w, p),
        mapping_problem(svc) is None,
    ensures
        c.id == Some(id),
        c.deploy_tag == svc.deploy_tag,
        svc.fk_workspace is Some ==> c.fk_workspace == svc.fk_workspace->0,
        svc.fk_workspace is None ==> c.fk_workspace == w,
        svc.fk_project is Some ==> c.fk_project == svc.fk_project->0,
        svc.fk_project is None ==> c.fk_project == p,
        c.service.name == svc.name,
        c.service.deploy_type == svc.deploy_type,
        c.service.runtime == svc.runtime,
        svc.root_path is Some ==> c.service.root_path@ == svc.root_path->0@,
        svc.root_path is None ==> c.service.root_path@ == "."@,
        c.service.repository_url == svc.repository_url,
        c.service.repository_branch == svc.repository_branch,
        c.service.registry_url == svc.registry_url,
        c.service.fk_service_secret == svc.fk_service_secret,
        c.service.build_path == svc.build_path,
        c.service.build_command == svc.build_command,
        c.service.pre_deploy_command == svc.pre_deploy_command,
        c.service.run_command == svc.run_command,
        c.service.health_check_path == svc.health_check_path,
        forall|x: ServiceReplica| #[trigger] is_home(svc, x) ==> c.service.fk_region@
            == x.fk_region@,
        svc.fk_pod == Some(c.service.fk_pod),
        svc.maintenance_mode is Some ==> c.service.maintenance_mode == svc.maintenance_mode->0,
        svc.maintenance_mode is None ==> !c.service.maintenance_mode,
        svc.active is Some ==> c.service.active == svc.active->0,
        svc.active is None ==> c.service.active,
{
    region_is_that_of_the_home(svc);
}

/// Pushing what was pulled sends back what the API gave: under each key the
/// value that the service has there.
pub proof fn pull_then_push_sends_the_same(
    c: PartiriConfig,
    svc: Service,
    id: String,
    w: String,
    p: String,
)
    requires
        is_config_of(c, svc, id, w, p),
        mapping_problem(svc) is None,
    ensures
        ({
            let body = JsonView::Obj(service_members(c.service));
            &&& member_of(body, "name"@) == said(svc.name@)
            &&& member_of(body, "deploy_type"@) == said(svc.deploy_type@)
            &&& member_of(body, "runtime"@) == said(svc.runtime@)
            &&& svc.root_path is Some ==> member_of(body, "root_path"@) == if_given(svc.root_path)
            &&& member_of(body, "repository_url"@) == if_given(svc.repository_url)
            &&& member_of(body, "repository_branch"@) == if_given(svc.repository_branch)
            &&& member_of(body, "registry_url"@) == if_given(svc.registry_url)
            &&& member_of(body, "fk_service_secret"@) == if_given(svc.fk_service_secret)
            &&& member_of(body, "build_path"@) == if_given(svc.build_path)
            &&& member_of(body, "build_command"@) == if_given(svc.build_command)
            &&& member_of(body, "pre_deploy_command"@) == if_given(svc.pre_deploy_command)
            &&& member_of(body, "run_command"@) == if_given(svc.run_command)
            &&& member_of(body, "health_check_path"@) == if_given(svc.health_check_path)
            &&& member_of(body, "fk_pod"@) == if_given(svc.fk_pod)
            &&& forall|x: ServiceReplica| #[trigger]
                is_home(svc, x) ==> member_of(body, "fk_region"@) == said(x.fk_region@)
            &&& svc.maintenance_mode is Some ==> member_of(body, "maintenance_mode"@) == decided(
                svc.maintenance_mode->0,
            )
            &&& svc.active is Some ==> member_of(body, "active"@) == decided(svc.active->0)
            &&& member_of(body, "env"@) is None
        }),
{
    pulled_fields_are_the_services(c, svc, id, w, p);
    service_body_says_each_field(c.service);
}

/// The disk block becomes that of the live volume where there is one, and stays
/// as it is where there is none or it cannot be told.
pub proof fn pulled_disk_is_the_live_one(
    local: Option<DiskConfig>,
    fetched: Result<Option<DiskConfig>, Failure>,
)
    ensures
        fetched matches Ok(Some(live)) ==> disk_after(local, fetched) == Some(live),
        !(fetched matches Ok(Some(_))) ==> disk_after(local, fetched) == local,
{
}

// ─── Link ──────────────────────────────────────────────────────────────────

/// Each flag of `service link` sets the reference of its name and no other, and
/// a reference without a flag stays.
pub proof fn link_sets_each_reference(c: PartiriConfig, a: LinkArgs)
    ensures
        ({
            let r = linked(c, a);
            &&& a.workspace matches Some(w) ==> r.fk_workspace == w
            &&& a.workspace is None ==> r.fk_workspace == c.fk_workspace
            &&& a.project matches Some(p) ==> r.fk_project == p
            &&& a.project is None ==> r.fk_project == c.fk_project
            &&& a.region matches Some(x) ==> r.service.fk_region == x
            &&& a.region is None ==> r.service.fk_region == c.service.fk_region
            &&& a.pod matches Some(x) ==> r.service.fk_pod == x
            &&& a.pod is None ==> r.service.fk_pod == c.service.fk_pod
            &&& a.token is Some ==> r.service.fk_service_secret == a.token
            &&& a.token is None && a.clear_token ==> r.service.fk_service_secret is None
            &&& a.token is None && !a.clear_token ==> r.service.fk_service_secret
                == c.service.fk_service_secret
            &&& r.id == c.id
            &&& r.deploy_tag == c.deploy_tag
            &&& r.service == (ServiceConfig {
                fk_region: r.service.fk_region,
                fk_pod: r.service.fk_pod,
                fk_service_secret: r.service.fk_service_secret,
                ..c.service
            })
        }),
{
}

/// A workspace needs its project and a region its pod; nothing else is refused.
pub proof fn link_refuses_half_a_pair(a: LinkArgs)
    ensures
        link_problem(a) is Some <==> (a.workspace is Some && a.project is None) || (a.region is Some
            && a.pod is None),
{
}

/// A pick in the link wizard sets the reference of its step, and nothing else.
pub proof fn pick_sets_the_reference_of_its_step(c: PartiriConfig, id: String)
    ensures
        with_pick(c, LinkStep::Workspace, id) == (PartiriConfig { fk_workspace: id, ..c }),
        with_pick(c, LinkStep::Project, id) == (PartiriConfig { fk_project: id, ..c }),
        with_pick(c, LinkStep::Region, id).service == (ServiceConfig {
            fk_region: id,
            ..c.service
        }),
        with_pick(c, LinkStep::Pod, id).service == (ServiceConfig { fk_pod: id, ..c.service }),
        forall|s: LinkStep| #![trigger with_pick(c, s, id)]
            with_pick(c, s, id).id == c.id && with_pick(c, s, id).deploy_tag == c.deploy_tag,
{
}

/// The link wizard goes from the workspace to the project and from the region to
/// the pod, and ends after the pod.
pub proof fn link_walk_ends()
    ensures
        next_step(next_step(next_step(next_step(LinkStep::Workspace)))) == LinkStep::Done,
        next_step(LinkStep::Workspace) == LinkStep::Project,
        next_step(LinkStep::Region) == LinkStep::Pod,
        forall|s: LinkStep| s != LinkStep::Done ==> #[trigger] next_step(s) != s,
{
}

/// Linking a token sets it, clearing it removes it, and the rest stays.
pub proof fn token_is_set(c: PartiriConfig, token: Option<String>)
    ensures
        with_token(c, token).service.fk_service_secret == token,
        with_token(with_token(c, token), c.service.fk_service_secret) == c,
{
}

// ─── Wizard ────────────────────────────────────────────────────────────────

/// Whether the answers say that the service comes from a registry.
pub open spec fn answered_registry(a: WizardAnswers) -> bool {
    a.from_registry == Some(true) && !(a.deploy_type matches Some(t) && t@ == "static"@)
}

/// The configuration that is assembled holds each answer under its own name:
/// the references to what was picked, the source that was chosen and nothing of
/// the other, and the commands in their places.
pub proof fn answers_stand_under_their_names(c: PartiriConfig, a: WizardAnswers)
    requires
        question_of(a) == Question::Done,
        is_assembled(c, a),
    ensures
        c.id is None,
        c.deploy_tag is None,
        a.workspace == Some(c.fk_workspace),
        a.project == Some(c.fk_project),
        a.region == Some(c.service.fk_region),
        a.pod == Some(c.service.fk_pod),
        a.name == Some(c.service.name),
        a.deploy_type == Some(c.service.deploy_type),
        a.token == Some(c.service.fk_service_secret),
        answered_registry(a) ==> {
            &&& opt_view(c.service.registry_url) == Some(trimmed(a.image->0@))
            &&& c.service.runtime@ == "registry"@
            &&& c.service.repository_url is None
            &&& c.service.repository_branch is None
            &&& c.service.build_command is None
            &&& c.service.build_path is None
            &&& c.service.run_command is None
        },
        !answered_registry(a) ==> {
            &&& c.service.registry_url is None
            &&& opt_view(a.runtime) == Some(c.service.runtime@)
            &&& a.repository_url is Some && c.service.repository_url == a.repository_url
            &&& a.repository_branch is Some && c.service.repository_branch == a.repository_branch
            &&& a.build_command is Some && c.service.build_command == a.build_command
            &&& a.build_path matches Some(p) && (if p@.len() > 0 {
                opt_view(c.service.build_path) == Some(p@)
            } else {
                c.service.build_path is None
            })
        },
        !answered_registry(a) && c.service.deploy_type@ != "static"@ ==> a.run_command is Some
            && c.service.run_command == a.run_command,
        c.service.deploy_type@ == "static"@ ==> c.service.run_command is None,
        c.service.deploy_type@ == "webservice"@ || c.service.deploy_type@ == "private-service"@
            ==> {
            &&& a.health_check_path is Some
            &&& if trimmed(a.health_check_path->0@).len() > 0 {
                opt_view(c.service.health_check_path) == opt_view(a.health_check_path)
            } else {
                c.service.health_check_path is None
            }
        },
        c.service.active,
        !c.service.maintenance_mode,
        c.service.root_path@ == "."@,
{
    reveal_strlit("static");
    reveal_strlit("webservice");
    reveal_strlit("private-service");
    assert("static"@.len() == 6);
    assert("webservice"@.len() == 10);
    assert("private-service"@.len() == 15);
}

/// The question that is asked is one that has no answer yet, and the wizard is
/// done exactly where every question that applies has one: a registry image
/// needs no repository, runtime or commands, a static site no source and no run
/// command, and only what takes requests a health check.
pub proof fn wizard_asks_what_is_open(a: WizardAnswers)
    ensures
        match question_of(a) {
            Question::Name => a.name is None,
            Question::DeployType => a.deploy_type is None,
            Question::Source => a.from_registry is None,
            Question::RepositoryUrl => a.repository_url is None,
            Question::Branch => a.repository_branch is None,
            Question::Image => a.image is None,
            Question::Workspace => a.workspace is None,
            Question::Project => a.project is None,
            Question::Region => a.region is None,
            Question::Pod => a.pod is None,
            Question::Token => a.token is None,
            Question::Runtime => a.runtime is None,
            Question::BuildCommand => a.build_command is None,
            Question::BuildPath => a.build_path is None,
            Question::RunCommand => a.run_command is None,
            Question::HealthCheck => a.health_check_path is None,
            Question::Done => true,
        },
        question_of(a) == Question::Done <==> {
            let kind = a.deploy_type->0@;
            &&& a.name is Some && a.deploy_type is Some
            &&& kind != "static"@ ==> a.from_registry is Some
            &&& a.workspace is Some && a.project is Some && a.region is Some && a.pod is Some
            &&& a.token is Some
            &&& if answered_registry(a) {
                a.image is Some
            } else {
                &&& a.repository_url is Some && a.repository_branch is Some
                &&& a.runtime is Some && a.build_command is Some && a.build_path is Some
                &&& kind != "static"@ ==> a.run_command is Some
            }
            &&& kind == "webservice"@ || kind == "private-service"@ ==> a.health_check_path is Some
        },
        answered_registry(a) ==> !(question_of(a) is RepositoryUrl || question_of(a) is Branch
            || question_of(a) is Runtime || question_of(a) is BuildCommand || question_of(
            a,
        ) is BuildPath || question_of(a) is RunCommand),
        a.deploy_type matches Some(t) && t@ == "static"@ ==> !(question_of(a) is Source
            || question_of(a) is Image || question_of(a) is RunCommand),
{
}

/// The template leaves every reference and every choice to be filled in, so that
/// it is not mistaken for a finished configuration.
pub proof fn template_is_to_be_filled_in(c: PartiriConfig)
    requires
        is_template(c),
    ensures
        !crate::config::is_valid(c),
        c.id is None,
        c.fk_workspace@.len() == 0 && c.fk_project@.len() == 0,
        c.service.fk_region@.len() == 0 && c.service.fk_pod@.len() == 0,
        c.service.name@.len() == 0,
        c.service.repository_url is Some && c.service.repository_branch is Some,
        c.service.registry_url is None,
        c.service.env is None && c.service.disk is None,
{
    crate::config::valid_config_meaning(c);
}

/// The name that is proposed is the start of the name of the project, or else of
/// the directory, and short enough.
pub proof fn proposed_name_is_the_projects(name: Option<Seq<char>>, directory: Option<Seq<char>>)
    ensures
        proposed_name_of(name, directory).len() <= 16,
        name matches Some(n) ==> proposed_name_of(name, directory).is_prefix_of(n) && (n.len() <= 16
            ==> proposed_name_of(name, directory) == n),
        name is None && directory is Some ==> proposed_name_of(name, directory).is_prefix_of(
            directory->0,
        ) && (directory->0.len() <= 16 ==> proposed_name_of(name, directory) == directory->0),
        name is None && directory is None ==> proposed_name_of(name, directory) == "my-service"@,
{
    reveal_strlit("my-service");
    assert("my-service"@.len() == 10);
}

/// Whether a directory holds a .NET project or solution.
pub open spec fn names_dotnet(f: ProjectFiles) -> bool {
    exists|i: int|
        0 <= i < f.entries@.len() && (ends((#[trigger] f.entries@[i])@, ".csproj"@) || ends(
            f.entries@[i]@,
            ".fsproj"@,
        ) || ends(f.entries@[i]@, ".sln"@))
}

/// Whether a text ends in `tail`.
pub open spec fn ends(s: Seq<char>, tail: Seq<char>) -> bool {
    exists|head: Seq<char>| s == #[trigger] (head + tail)
}

proof fn ends_is_a_suffix(s: Seq<char>, tail: Seq<char>)
    ensures
        ends(s, tail) <==> tail.is_suffix_of(s),
{
    if tail.is_suffix_of(s) {
        assert(s =~= s.take(s.len() - tail.len()) + tail);
    }
    if ends(s, tail) {
        let head = choose|head: Seq<char>| s == #[trigger] (head + tail);
        assert(tail =~= (head + tail).skip(head.len() as int));
        assert(tail.is_suffix_of(s));
    }
}

/// Whether a directory looks like a project of a runtime.
pub open spec fn marker(f: ProjectFiles, runtime: Seq<char>) -> bool {
    ||| runtime == "deno"@ && (f.deno_json || f.deno_jsonc)
    ||| runtime == "node"@ && (f.package_json)
    ||| runtime == "rust"@ && (f.cargo_toml)
    ||| runtime == "python"@ && (f.requirements_txt || f.pyproject_toml)
    ||| runtime == "go"@ && (f.go_mod)
    ||| runtime == "ruby"@ && (f.gemfile)
    ||| runtime == "elixir"@ && (f.mix_exs)
    ||| runtime == "php"@ && (f.composer_json)
    ||| runtime == "jvm"@ && (f.pom_xml || f.build_gradle || f.build_gradle_kts)
    ||| runtime == "dotnet"@ && (names_dotnet(f))
    ||| runtime == "cpp"@ && (f.cmake_lists)
}

/// Whether a directory looks like a project of one kind alone.
pub open spec fn stands_alone(f: ProjectFiles, runtime: Seq<char>) -> bool {
    marker(f, runtime) && forall|r: Seq<char>| #[trigger] marker(f, r) ==> r == runtime
}

/// A project is taken for what its files say: the runtime that is detected has
/// its marker, a marker that stands alone decides, and a directory without any
/// is taken for Node.js with nothing else known.
pub proof fn detected_runtime_has_its_marker(f: ProjectFiles)
    ensures
        project_in(f) matches Some(d) ==> marker(f, d.runtime) || (d.runtime == "node"@ && d.name
            is None && d.build_command is None && d.run_command is None),
        forall|r: Seq<char>|
            #![trigger stands_alone(f, r)]
            stands_alone(f, r) && r != "rust"@ ==> project_in(f) is Some && project_in(f)->0.runtime
                == r,
        (forall|r: Seq<char>| !#[trigger] marker(f, r)) ==> project_in(f) == Some(
            crate::init::DetectedView {
                runtime: "node"@,
                name: None,
                build_command: None,
                run_command: None,
            },
        ),
{
    runtime_shapes();
    assert(marker(f, "deno"@) <==> (f.deno_json || f.deno_jsonc));
    assert(marker(f, "node"@) <==> (f.package_json));
    assert(marker(f, "rust"@) <==> (f.cargo_toml));
    assert(marker(f, "python"@) <==> (f.requirements_txt || f.pyproject_toml));
    assert(marker(f, "go"@) <==> (f.go_mod));
    assert(marker(f, "ruby"@) <==> (f.gemfile));
    assert(marker(f, "elixir"@) <==> (f.mix_exs));
    assert(marker(f, "php"@) <==> (f.composer_json));
    assert(marker(f, "jvm"@) <==> (f.pom_xml || f.build_gradle || f.build_gradle_kts));
    assert(marker(f, "dotnet"@) <==> (names_dotnet(f)));
    assert(marker(f, "cpp"@) <==> (f.cmake_lists));
    assert(names_dotnet(f) <==> crate::init::has_dotnet(f.entries@)) by {
        assert forall|i: int| 0 <= i < f.entries@.len() implies crate::init::is_dotnet_file(
            (#[trigger] f.entries@[i])@,
        ) == (ends(f.entries@[i]@, ".csproj"@) || ends(f.entries@[i]@, ".fsproj"@) || ends(
            f.entries@[i]@,
            ".sln"@,
        )) by {
            ends_is_a_suffix(f.entries@[i]@, ".csproj"@);
            ends_is_a_suffix(f.entries@[i]@, ".fsproj"@);
            ends_is_a_suffix(f.entries@[i]@, ".sln"@);
        }
        if names_dotnet(f) {
            let i = choose|i: int|
                0 <= i < f.entries@.len() && (ends((#[trigger] f.entries@[i])@, ".csproj"@) || ends(
                    f.entries@[i]@,
                    ".fsproj"@,
                ) || ends(f.entries@[i]@, ".sln"@));
            assert(crate::init::is_dotnet_file(f.entries@[i]@));
        }
    }
}

/// The commands that are proposed are those of the detected runtime: what builds
/// it and what starts it.
pub proof fn detected_commands_fit_the_runtime(f: ProjectFiles)
    ensures
        project_in(f) matches Some(d) ==> {
            &&& d.runtime == "node"@ && f.package_json ==> d.build_command == Some(
                "npm run build"@,
            ) && d.run_command == Some("npm start"@)
            &&& d.runtime == "rust"@ ==> d.build_command == Some("cargo build --release"@)
                && d.run_command is None
            &&& d.runtime == "cpp"@ ==> d.build_command == Some(
                "cmake -B build -DCMAKE_BUILD_TYPE=Release && cmake --build build"@,
            ) && d.run_command is None
            &&& d.runtime == "jvm"@ ==> (d.build_command == Some("mvn package -DskipTests"@)
                && d.run_command == Some("java -jar target/*.jar"@)) || (d.build_command == Some(
                "./gradlew build"@,
            ) && d.run_command == Some("java -jar build/libs/*.jar"@))
            &&& d.runtime == "jvm"@ ==> (f.pom_xml <==> d.build_command == Some(
                "mvn package -DskipTests"@,
            ))
            &&& d.runtime == "deno"@ ==> d.build_command == Some("deno cache main.ts"@) && d.run_command == Some("deno run --allow-net --allow-env main.ts"@)
            &&& d.runtime == "python"@ ==> d.build_command == Some("pip install -r requirements.txt"@) && d.run_command == Some("python main.py"@)
            &&& d.runtime == "go"@ ==> d.build_command == Some("go build -o app ."@) && d.run_command == Some("./app"@)
            &&& d.runtime == "ruby"@ ==> d.build_command == Some("bundle install"@) && d.run_command == Some("ruby app.rb"@)
            &&& d.runtime == "elixir"@ ==> d.build_command == Some("mix deps.get && mix compile"@) && d.run_command == Some("mix run --no-halt"@)
            &&& d.runtime == "php"@ ==> d.build_command == Some("composer install"@) && d.run_command == Some("php -S 0.0.0.0:8080 -t public"@)
            &&& d.runtime == "dotnet"@ ==> d.build_command == Some("dotnet publish -c Release"@) && d.run_command == Some("dotnet run"@)
        },
{
    runtime_shapes();
}

/// The runtimes differ from each other.
pub proof fn runtime_shapes()
    ensures
        "deno"@.len() == 4 && "deno"@[0] == 'd',
        "node"@.len() == 4 && "node"@[0] == 'n',
        "rust"@.len() == 4 && "rust"@[0] == 'r' && "rust"@[2] == 's',
        "python"@.len() == 6 && "python"@[0] == 'p',
        "go"@.len() == 2,
        "ruby"@.len() == 4 && "ruby"@[0] == 'r' && "ruby"@[2] == 'b',
        "elixir"@.len() == 6 && "elixir"@[0] == 'e',
        "php"@.len() == 3 && "php"@[0] == 'p',
        "jvm"@.len() == 3 && "jvm"@[0] == 'j',
        "dotnet"@.len() == 6 && "dotnet"@[0] == 'd',
        "cpp"@.len() == 3 && "cpp"@[0] == 'c',
        "mvn package -DskipTests"@.len() == 23,
        "./gradlew build"@.len() == 15,
{
    reveal_strlit("deno");
    reveal_strlit("node");
    reveal_strlit("rust");
    reveal_strlit("python");
    reveal_strlit("go");
    reveal_strlit("ruby");
    reveal_strlit("elixir");
    reveal_strlit("php");
    reveal_strlit("jvm");
    reveal_strlit("dotnet");
    reveal_strlit("cpp");
    reveal_strlit("mvn package -DskipTests");
    reveal_strlit("./gradlew build");
    assert("deno"@.len() == 4);
    assert("node"@.len() == 4);
    assert("rust"@.len() == 4);
    assert("python"@.len() == 6);
    assert("go"@.len() == 2);
    assert("ruby"@.len() == 4);
    assert("elixir"@.len() == 6);
    assert("php"@.len() == 3);
    assert("jvm"@.len() == 3);
    assert("dotnet"@.len() == 6);
    assert("cpp"@.len() == 3);
    assert("mvn package -DskipTests"@.len() == 23);
    assert("./gradlew build"@.len() == 15);
}

} // verus!
