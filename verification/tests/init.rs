//! Setting up a project.
use partiri::client::{Pod, PodPrice, Project, Region, RegionPricing, Workspace, WorkspaceSecret};
use partiri::config::{validate_config, ConfigOverride};
use partiri::error::text_error;
use partiri::json::Json;
use partiri::init::{
    assemble, build_pod_choices, cargo_name, check_image_input, check_name_input, check_required_input,
    created_report, detect_project, git_remote, go_module_name, pod_price, pricing_warning,
    prompt_for_pod, prompt_for_project, prompt_for_region, prompt_for_token, prompt_for_workspace,
    proposed_name, run, runtime_cursor, template_config, write_template, CargoRead, InitArgs, InitStart,
    Offer, Price, ProjectFiles, Question, WizardAnswers, WIZARD_RUNTIMES,
};
use partiri::output::Ctx;

const TEXT: Ctx = Ctx { json: false, yes: false, no_input: false };

// ─── Pods ──────────────────────────────────────────────────────────────────

fn catalog() -> Vec<Pod> {
    vec![
        pod("pod-c", "roomy", Some("1600m"), Some("3072Mi")),
        pod("pod-a", "tiny", Some("250m"), Some("384Mi")),
        pod("pod-d", "unpriced", Some("3200m"), Some("6144Mi")),
        pod("pod-b", "middling", Some("800m"), Some("1536Mi")),
        pod("pod-e", "specless", None, None),
    ]
}

fn pod(id: &str, name: &str, cpu: Option<&str>, ram: Option<&str>) -> Pod {
    Pod {
        id: id.to_string(),
        name: name.to_string(),
        label: None,
        cpu: cpu.map(str::to_string),
        ram: ram.map(str::to_string),
    }
}

/// A price, with the order of its bits as the rank.
fn price(p: f64) -> Price {
    let bits = p.to_bits() as i64;
    Price {
        rank: bits ^ ((((bits >> 63) as u64) >> 1) as i64),
        shown: format!("{p:.2}"),
    }
}

fn pricing(entries: &[(&str, f64)]) -> RegionPricing<Price> {
    RegionPricing {
        pods: entries
            .iter()
            .map(|(id, p)| PodPrice {
                fk_pod: id.to_string(),
                price: price(*p),
                per_minute: price(p / (30.0 * 24.0 * 60.0)),
            })
            .collect(),
        volume_price_per_gb: price(1.0),
    }
}

fn full_pricing() -> RegionPricing<Price> {
    pricing(&[
        ("pod-c", 22.0),
        ("pod-a", 3.25),
        ("pod-b", 11.0),
        ("pod-e", 7.0),
    ])
}

#[test]
fn orders_cheapest_first_so_the_default_is_the_cheapest_pod() {
    let (_, sorted) = build_pod_choices(catalog(), Some(&full_pricing()));
    let ids: Vec<&str> = sorted.iter().map(|p| p.id.as_str()).collect();
    assert_eq!(ids, vec!["pod-a", "pod-e", "pod-b", "pod-c", "pod-d"]);
}

#[test]
fn pods_of_one_price_keep_their_order() {
    let prices = pricing(&[("pod-e", 5.0), ("pod-c", 5.0), ("pod-b", 4.0)]);
    let (_, sorted) = build_pod_choices(catalog(), Some(&prices));
    let ids: Vec<&str> = sorted.iter().map(|p| p.id.as_str()).collect();
    assert_eq!(ids, vec!["pod-b", "pod-c", "pod-e", "pod-a", "pod-d"]);
}

#[test]
fn sorts_unpriced_pods_last() {
    let (labels, sorted) = build_pod_choices(catalog(), Some(&full_pricing()));
    assert_eq!(sorted.last().unwrap().id, "pod-d");
    assert!(
        labels.last().unwrap().contains("price unavailable"),
        "{}",
        labels.last().unwrap()
    );
}

#[test]
fn renders_the_price_and_specs_in_the_label() {
    let (labels, _) = build_pod_choices(catalog(), Some(&full_pricing()));
    assert_eq!(
        labels[0], "tiny — 250m CPU / 384Mi RAM — €3.25/mo (pod-a)",
        "cheapest pod's label"
    );
}

#[test]
fn omits_specs_when_the_pod_reports_none() {
    let (labels, sorted) = build_pod_choices(catalog(), Some(&full_pricing()));
    let idx = sorted.iter().position(|p| p.id == "pod-e").unwrap();
    assert_eq!(labels[idx], "specless — €7.00/mo (pod-e)");
}

#[test]
fn prefers_the_label_over_the_name_when_present() {
    let mut p = pod("pod-x", "internal-name", Some("500m"), Some("512Mi"));
    p.label = Some("Friendly".to_string());
    let (labels, _) = build_pod_choices(vec![p], Some(&pricing(&[("pod-x", 1.0)])));
    assert!(labels[0].starts_with("Friendly — "), "{}", labels[0]);
}

#[test]
fn without_pricing_keeps_api_order_and_prints_no_price() {
    let (labels, sorted) = build_pod_choices(catalog(), None);
    let ids: Vec<&str> = sorted.iter().map(|p| p.id.as_str()).collect();
    assert_eq!(ids, vec!["pod-c", "pod-a", "pod-d", "pod-b", "pod-e"]);
    for label in &labels {
        assert!(!label.contains('€'), "{}", label);
        assert!(!label.contains("price unavailable"), "{}", label);
    }
}

#[test]
fn handles_a_catalog_with_no_priced_pods() {
    let (labels, sorted) = build_pod_choices(catalog(), Some(&pricing(&[])));
    assert_eq!(sorted.len(), 5, "no pod is dropped");
    assert!(labels.iter().all(|l| l.contains("price unavailable")));
}

#[test]
fn handles_single_pod_and_empty_catalogs() {
    let one = vec![pod("pod-a", "tiny", Some("500m"), Some("512Mi"))];
    let (labels, sorted) = build_pod_choices(one, Some(&full_pricing()));
    assert_eq!(labels.len(), 1);
    assert_eq!(sorted[0].id, "pod-a");

    let (labels, sorted) = build_pod_choices(vec![], Some(&full_pricing()));
    assert!(labels.is_empty() && sorted.is_empty());
}

#[test]
fn keeps_labels_and_pods_index_aligned() {
    let (labels, sorted) = build_pod_choices(catalog(), Some(&full_pricing()));
    assert_eq!(labels.len(), sorted.len());
    for (label, p) in labels.iter().zip(&sorted) {
        assert!(label.ends_with(&format!("({})", p.id)), "{}", label);
    }
}

#[test]
fn prices_are_found_by_pod() {
    let list = full_pricing();
    assert_eq!(pod_price(Some(&list), "pod-b").unwrap().shown, "11.00");
    assert!(pod_price(Some(&list), "pod-d").is_none());
    assert!(pod_price(None, "pod-b").is_none());
    assert!(pricing_warning(&text_error("offline")).contains("offline"));
}

// ─── Detection ─────────────────────────────────────────────────────────────

fn empty_directory() -> ProjectFiles {
    ProjectFiles {
        deno_json: false,
        deno_jsonc: false,
        deno_text: None,
        package_json: false,
        package_text: None,
        cargo_toml: false,
        cargo_text: None,
        requirements_txt: false,
        pyproject_toml: false,
        go_mod: false,
        go_text: None,
        gemfile: false,
        mix_exs: false,
        composer_json: false,
        pom_xml: false,
        build_gradle: false,
        build_gradle_kts: false,
        cmake_lists: false,
        entries: Vec::new(),
    }
}

#[test]
fn manifests_tell_the_runtime_and_the_name() {
    let mut f = empty_directory();
    f.cargo_toml = true;
    f.cargo_text = Some("[package]\nname = \"mill\"\nversion = \"1.0.0\"\n".to_string());
    let found = detect_project(&f).unwrap();
    assert_eq!(found.runtime, "rust");
    assert_eq!(found.name.as_deref(), Some("mill"));

    let mut f = empty_directory();
    f.package_json = true;
    f.package_text = Some(r#"{ "name": "web" }"#.to_string());
    let found = detect_project(&f).unwrap();
    assert_eq!(found.runtime, "node");
    assert_eq!(found.name.as_deref(), Some("web"));

    let mut f = empty_directory();
    f.go_mod = true;
    f.go_text = Some("module example.com/x/tool\n\ngo 1.22\n".to_string());
    let found = detect_project(&f).unwrap();
    assert_eq!(found.runtime, "go");
    assert_eq!(found.name.as_deref(), Some("example.com/x/tool"));
}

#[test]
fn a_cargo_manifest_without_a_name_is_refused() {
    let mut f = empty_directory();
    f.cargo_toml = true;
    f.cargo_text = Some("[workspace]\nmembers = []\n".to_string());
    assert!(detect_project(&f).is_none());
    f.cargo_text = Some("not toml [".to_string());
    let found = detect_project(&f).unwrap();
    assert_eq!(found.runtime, "node");
    assert!(found.name.is_none());
}

#[test]
fn marker_files_tell_the_runtime() {
    let runtime = |set: fn(&mut ProjectFiles)| {
        let mut f = empty_directory();
        set(&mut f);
        detect_project(&f).unwrap().runtime
    };
    assert_eq!(runtime(|f| f.requirements_txt = true), "python");
    assert_eq!(runtime(|f| f.gemfile = true), "ruby");
    assert_eq!(runtime(|f| f.mix_exs = true), "elixir");
    assert_eq!(runtime(|f| f.composer_json = true), "php");
    assert_eq!(runtime(|f| f.pom_xml = true), "jvm");
    assert_eq!(runtime(|f| f.cmake_lists = true), "cpp");
    assert_eq!(runtime(|f| f.entries = vec!["App.csproj".to_string()]), "dotnet");
}

#[test]
fn names_and_remotes_are_taken_from_the_project() {
    assert_eq!(go_module_name("module m\n").as_deref(), Some("m"));
    assert_eq!(go_module_name("go 1.22\n"), None);
    assert_eq!(git_remote(Some("https://github.com/o/r\n")).as_deref(), Some("https://github.com/o/r"));
    assert_eq!(git_remote(Some("\n")), None);
    assert_eq!(git_remote(None), None);
    assert_eq!(proposed_name(&Some("a".to_string()), &None), "a");
    assert_eq!(proposed_name(&None, &Some("dir".to_string())), "dir");
    assert_eq!(proposed_name(&None, &None), "my-service");
}

// ─── Offers ────────────────────────────────────────────────────────────────

#[test]
fn lists_are_offered_where_they_can_be_had() {
    let ws = vec![Workspace { id: "w".into(), name: "Acme".into(), email: None }];
    assert!(matches!(prompt_for_workspace(Some(Ok(ws))), Offer::Pick(l) if l == ["Acme (w)"]));
    assert!(matches!(prompt_for_workspace(Some(Ok(Vec::new()))), Offer::Type(_)));
    assert!(matches!(prompt_for_workspace(None), Offer::Type(None)));
    let failed = prompt_for_project(Some(Err(text_error("offline"))));
    assert!(matches!(failed, Offer::Type(Some(w)) if w.contains("offline")));
    let ps = vec![Project { id: "p".into(), name: "web".into(), environment: "prod".into(), fk_workspace: None }];
    assert!(matches!(prompt_for_project(Some(Ok(ps))), Offer::Pick(l) if l.len() == 1 && l[0].contains("web")));
    let rs = vec![Region { id: "r".into(), name: "eu".into(), label: Some("Amsterdam".into()), country_code: None }];
    assert!(matches!(prompt_for_region(Some(Ok(rs))), Offer::Pick(l) if l[0].contains("Amsterdam")));
    assert!(prompt_for_pod(&Ok(catalog())).is_none());
    assert!(prompt_for_pod(&Err(text_error("offline"))).unwrap().contains("offline"));
    let secrets = vec![WorkspaceSecret { id: "s".into(), name: Some("gh".into()), provider: None }];
    assert!(prompt_for_token(&secrets, false).unwrap().iter().any(|l| l.contains("gh")));
    assert!(prompt_for_token(&Vec::new(), true).is_err());
}

#[test]
fn input_is_checked() {
    assert!(check_name_input("web").is_none());
    assert!(check_name_input("").is_some());
    assert!(check_name_input(&"x".repeat(17)).is_some());
    assert!(check_required_input("x").is_none());
    assert!(check_required_input("").is_some());
    assert!(check_image_input("ghcr.io/o/i:1").is_none());
    assert!(check_image_input("").is_some());
    for (i, r) in WIZARD_RUNTIMES.iter().enumerate() {
        assert_eq!(runtime_cursor(r), i);
    }
    assert_eq!(runtime_cursor("cobol"), 0);
}

// ─── The wizard ────────────────────────────────────────────────────────────

#[test]
fn init_starts_with_a_template_or_a_choice() {
    let over = ConfigOverride::none();
    let template = InitArgs { template: true };
    assert!(matches!(run(&template, false, TEXT, &over), Ok(InitStart::Template)));
    let plain = InitArgs { template: false };
    assert!(matches!(run(&plain, false, TEXT, &over), Ok(InitStart::ChooseMode)));
    assert!(run(&plain, true, TEXT, &over).is_err());
}

/// Answers everything that is asked.
fn walk(deploy_type: &str, registry: bool) -> WizardAnswers {
    let mut a = WizardAnswers::none();
    let text = |s: &str| Some(s.to_string());
    loop {
        match a.next_question() {
            Question::Name => a.name = text("web"),
            Question::DeployType => a.deploy_type = text(deploy_type),
            Question::Source => a.from_registry = Some(registry),
            Question::RepositoryUrl => a.repository_url = text("https://github.com/o/r"),
            Question::Branch => a.repository_branch = text("main"),
            Question::Image => a.image = text("ghcr.io/o/i:1"),
            Question::Workspace => a.workspace = text("w"),
            Question::Project => a.project = text("p"),
            Question::Region => a.region = text("r"),
            Question::Pod => a.pod = text("pod"),
            Question::Token => a.token = Some(None),
            Question::Runtime => a.runtime = text("node"),
            Question::BuildCommand => a.build_command = text("npm ci"),
            Question::BuildPath => a.build_path = text("dist"),
            Question::RunCommand => a.run_command = text("npm start"),
            Question::HealthCheck => a.health_check_path = text("/up"),
            Question::Done => return a,
        }
    }
}

#[test]
fn finished_wizards_are_valid() {
    for deploy_type in ["webservice", "static", "private-service", "worker"] {
        for registry in [false, true] {
            let config = assemble(walk(deploy_type, registry));
            let failures: Vec<String> = validate_config(&config)
                .into_iter()
                .filter(|r| !r.ok)
                .map(|r| r.field)
                .collect();
            assert!(failures.is_empty(), "{deploy_type} {registry}: {failures:?}");
        }
    }
}

#[test]
fn a_template_is_a_config_to_fill_in() {
    let config = template_config();
    assert!(config.id.is_none());
    let over = ConfigOverride::none();
    assert!(write_template(&over).message.contains(".partiri.jsonc"));
    assert!(created_report(&over).message.contains(".partiri.jsonc"));
}

#[test]
fn a_manifest_names_its_package() {
    let named = Json::object().with("package", Json::object().with("name", Json::str("mill")));
    assert!(matches!(cargo_name(&named), CargoRead::Name(Some(n)) if n == "mill"));
    let odd = Json::object().with("package", Json::object().with("name", Json::num(1)));
    assert!(matches!(cargo_name(&odd), CargoRead::Name(None)));
    assert!(matches!(cargo_name(&Json::object()), CargoRead::Missing));
}
