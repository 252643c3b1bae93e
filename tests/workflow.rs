use minepack::add::{AddAction, AddEvent, AddFlow};
use minepack::config::{Link, Reference, Side};
use minepack::schema::{
    File, FileDependency, FileRelationType, FileReleaseType, FileStatus, Mod, ModLinks, ModStatus,
};
use minepack::store::ReferenceStore;
use minepack::walk::{DependencyWalk, WalkAction, WalkEvent};

fn file(id: u32, name: &str, versions: &[&str], deps: &[(u32, FileRelationType)]) -> File {
    File {
        id,
        game_id: 432,
        mod_id: 0,
        is_available: true,
        display_name: name.to_string(),
        file_name: format!("{}.jar", name),
        release_type: FileReleaseType::Release,
        file_status: FileStatus::Approved,
        hashes: vec![],
        file_date: String::new(),
        file_length: 0,
        download_count: 0,
        download_url: Some(format!("https://example.invalid/{}.jar", name)),
        game_versions: versions.iter().map(|v| v.to_string()).collect(),
        sortable_game_versions: vec![],
        dependencies: Some(
            deps.iter()
                .map(|(m, r)| FileDependency { mod_id: *m, file_id: None, relation_type: *r })
                .collect(),
        ),
        expose_as_alternative: None,
        parent_project_file_id: None,
        alternate_file_id: None,
        is_server_pack: None,
        server_pack_file_id: None,
        file_fingerprint: 0,
        modules: None,
    }
}

fn a_mod(id: u32, name: &str, slug: &str, files: Vec<File>) -> Mod {
    Mod {
        id,
        game_id: 432,
        name: name.to_string(),
        slug: slug.to_string(),
        links: ModLinks { website_url: None, wiki_url: None, issues_url: None, source_url: None },
        summary: String::new(),
        status: ModStatus::Approved,
        download_count: 0,
        is_featured: false,
        primary_category_id: 0,
        categories: vec![],
        class_id: None,
        authors: vec![],
        logo: None,
        screenshots: vec![],
        main_file_id: 0,
        latest_files: files,
        latest_files_indexes: vec![],
        date_created: String::new(),
        date_modified: String::new(),
        date_released: String::new(),
        allow_mod_distribution: None,
        game_popularity_rank: 0,
        is_available: true,
        thumbs_up_count: 0,
    }
}

const REQ: FileRelationType = FileRelationType::RequiredDependency;

/// The outcome of one add operation driven against a fixture registry.
struct Outcome {
    written: Vec<(String, Reference)>,
    visited: Vec<u32>,
    prompts: usize,
    fetches: Vec<u32>,
    warnings: Vec<u32>,
    result: Result<(), String>,
}

fn lookup(registry: &[Mod], id: u32, failing: &[u32]) -> Option<Mod> {
    if failing.contains(&id) {
        return None;
    }
    registry.iter().find(|m| m.id == id).cloned()
}

fn run_add(registry: &[Mod], failing: &[u32], query: &str, version: &str, yes: bool) -> Outcome {
    let mut out = Outcome {
        written: vec![],
        visited: vec![],
        prompts: 0,
        fetches: vec![],
        warnings: vec![],
        result: Ok(()),
    };
    let mut flow = AddFlow::new(version.to_string(), query.to_string(), yes);
    let mut event = AddEvent::Start;
    let (primary_id, primary_file) = loop {
        match flow.step(event) {
            AddAction::FetchMod(id) => {
                out.fetches.push(id);
                event = match lookup(registry, id, failing) {
                    Some(m) => AddEvent::Fetched(m),
                    None => AddEvent::FetchFailed("unavailable".to_string()),
                };
            }
            AddAction::Write(name, r) => {
                out.written.push((name, r));
                event = AddEvent::Written(true);
            }
            AddAction::Added(id, f) => break (id, f),
            AddAction::Done(r) => {
                out.result = r.map_err(|e| format!("{:?}", e));
                return out;
            }
            AddAction::Confirm(_) | AddAction::AskFallback(_) => {
                out.prompts += 1;
                event = AddEvent::Answer(true);
            }
            AddAction::ChooseFile(_) => {
                out.prompts += 1;
                event = AddEvent::FileChosen(0);
            }
            AddAction::ChooseMod(_) => {
                out.prompts += 1;
                event = AddEvent::ModChosen(0);
            }
            AddAction::SearchBySlug(_) | AddAction::SearchByText(_) => {
                event = AddEvent::SearchResults(registry.to_vec());
            }
        }
    };
    let mut store = ReferenceStore::new();
    for (name, r) in &out.written {
        store.write(name.clone(), r.clone());
    }
    let mut walk = DependencyWalk::new(version.to_string(), yes, store, primary_id, &primary_file);
    let mut event = WalkEvent::Continue;
    loop {
        match walk.step(event) {
            WalkAction::Fetch(id) => {
                out.fetches.push(id);
                event = match lookup(registry, id, failing) {
                    Some(m) => WalkEvent::Fetched(m),
                    None => WalkEvent::FetchFailed,
                };
            }
            WalkAction::Write(name, r) => {
                out.written.push((name, r));
                event = WalkEvent::Written(true);
            }
            WalkAction::Confirm(_) => {
                out.prompts += 1;
                event = WalkEvent::Confirmed(true);
            }
            WalkAction::ChooseFile(_) => {
                out.prompts += 1;
                event = WalkEvent::FileChosen(0);
            }
            WalkAction::FetchFailed(id) => {
                out.warnings.push(id);
                event = WalkEvent::Continue;
            }
            WalkAction::Done => break,
            _ => event = WalkEvent::Continue,
        }
    }
    out.visited = walk.visited().clone();
    out
}

fn project_of(r: &Reference) -> u32 {
    match r.link {
        Link::CurseForge { project_id, .. } => project_id,
    }
}

fn scenario_registry() -> Vec<Mod> {
    vec![
        a_mod(1030830, "Oritech", "oritech", vec![file(6332315, "oritech-1.0", &["1.20.1", "Fabric"], &[(111, REQ), (222, REQ)])]),
        a_mod(111, "Owo Lib", "owo-lib", vec![file(5001, "owo-lib-0.11", &["1.20.1"], &[])]),
        a_mod(222, "Athena", "athena", vec![file(5002, "athena-3.1", &["1.20.1"], &[])]),
    ]
}

#[test]
fn add_with_two_dependencies_writes_three_references() {
    let out = run_add(&scenario_registry(), &[], "1030830", "1.20.1", true);
    assert_eq!(out.result, Ok(()));
    assert_eq!(out.written.len(), 3);
    let names: Vec<&str> = out.written.iter().map(|(n, _)| n.as_str()).collect();
    assert_eq!(names, vec!["oritech.ex.json", "owo-lib.ex.json", "athena.ex.json"]);
    let mut visited = out.visited.clone();
    visited.sort();
    assert_eq!(visited, vec![111, 222, 1030830]);
    assert_eq!(out.prompts, 0);
    let primary = &out.written[0].1;
    assert_eq!(primary.name, "Oritech");
    assert_eq!(primary.filename, "oritech-1.0.jar");
    assert!(matches!(primary.link, Link::CurseForge { project_id: 1030830, file_id: 6332315, .. }));
}

#[test]
fn failed_dependency_fetch_is_skipped() {
    let out = run_add(&scenario_registry(), &[111], "1030830", "1.20.1", true);
    assert_eq!(out.result, Ok(()));
    assert_eq!(out.written.len(), 2);
    let projects: Vec<u32> = out.written.iter().map(|(_, r)| project_of(r)).collect();
    assert_eq!(projects, vec![1030830, 222]);
    assert_eq!(out.warnings, vec![111]);
}

#[test]
fn dependency_cycle_terminates_with_one_reference_each() {
    let registry = vec![
        a_mod(1, "Alpha", "alpha", vec![file(10, "alpha", &["1.20.1"], &[(2, REQ)])]),
        a_mod(2, "Beta", "beta", vec![file(20, "beta", &["1.20.1"], &[(1, REQ)])]),
    ];
    let out = run_add(&registry, &[], "1", "1.20.1", true);
    assert_eq!(out.result, Ok(()));
    let projects: Vec<u32> = out.written.iter().map(|(_, r)| project_of(r)).collect();
    assert_eq!(projects, vec![1, 2]);
    assert_eq!(out.fetches, vec![1, 2]);
}

#[test]
fn mod_without_required_dependencies_makes_no_further_requests() {
    let registry = vec![a_mod(
        7,
        "Solo",
        "solo",
        vec![file(70, "solo", &["1.20.1"], &[(8, FileRelationType::OptionalDependency)])],
    )];
    let out = run_add(&registry, &[], "7", "1.20.1", true);
    assert_eq!(out.result, Ok(()));
    assert_eq!(out.written.len(), 1);
    assert_eq!(out.fetches, vec![7]);
}

#[test]
fn installed_dependency_is_not_fetched() {
    let registry = scenario_registry();
    let mut store = ReferenceStore::new();
    store.write(
        "owo-lib.ex.json".to_string(),
        Reference {
            name: "Owo Lib".to_string(),
            filename: "owo.jar".to_string(),
            side: Side::Both,
            link: Link::CurseForge { project_id: 111, file_id: 1, download_url: None },
        },
    );
    let primary = registry[0].latest_files[0].clone();
    let mut walk = DependencyWalk::new("1.20.1".to_string(), true, store, 1030830, &primary);
    assert!(matches!(walk.step(WalkEvent::Continue), WalkAction::AlreadyInstalled(111)));
    assert!(matches!(walk.step(WalkEvent::Continue), WalkAction::Fetch(222)));
}

#[test]
fn declined_dependency_is_not_recorded() {
    let registry = scenario_registry();
    let primary = registry[0].latest_files[0].clone();
    let mut walk = DependencyWalk::new("1.20.1".to_string(), false, ReferenceStore::new(), 1030830, &primary);
    assert!(matches!(walk.step(WalkEvent::Continue), WalkAction::Fetch(111)));
    assert!(matches!(walk.step(WalkEvent::Fetched(registry[1].clone())), WalkAction::Confirm(ref n) if n == "Owo Lib"));
    assert!(matches!(walk.step(WalkEvent::Confirmed(false)), WalkAction::Declined(111)));
    assert!(matches!(walk.step(WalkEvent::Continue), WalkAction::Fetch(222)));
    assert_eq!(walk.visited(), &vec![1030830]);
}

#[test]
fn dependency_without_compatible_file_is_reported() {
    let registry = vec![
        a_mod(1, "Main", "main", vec![file(10, "main", &["1.20.1"], &[(2, REQ)])]),
        a_mod(2, "Old", "old", vec![file(20, "old", &["1.19.2"], &[])]),
    ];
    let out = run_add(&registry, &[], "1", "1.20.1", true);
    assert_eq!(out.written.len(), 1);
    assert_eq!(out.result, Ok(()));
}

#[test]
fn add_by_url_uses_slug_and_requested_file() {
    let registry = vec![a_mod(
        1030830,
        "Oritech",
        "oritech",
        vec![
            file(7000000, "oritech-1.1", &["1.21.1"], &[]),
            file(6332315, "oritech-1.0", &["1.21.1"], &[]),
        ],
    )];
    let out = run_add(
        &registry,
        &[],
        "https://www.curseforge.com/minecraft/mc-mods/oritech/files/6332315",
        "1.21.1",
        true,
    );
    assert_eq!(out.result, Ok(()));
    assert_eq!(out.written.len(), 1);
    assert!(matches!(out.written[0].1.link, Link::CurseForge { file_id: 6332315, .. }));
}

#[test]
fn add_by_url_without_matching_slug_fails() {
    let registry = vec![a_mod(5, "Other", "other", vec![file(50, "other", &["1.21.1"], &[])])];
    let out = run_add(&registry, &[], "https://www.curseforge.com/minecraft/mc-mods/oritech", "1.21.1", true);
    assert_eq!(out.result, Err("NoModsFound(\"oritech\")".to_string()));
    assert!(out.written.is_empty());
}

#[test]
fn add_with_no_compatible_file_fails() {
    let registry = vec![a_mod(5, "Other", "other", vec![file(50, "other", &["1.16.5"], &[])])];
    let out = run_add(&registry, &[], "5", "1.21.1", true);
    assert_eq!(out.result, Err("NoCompatibleModFiles(\"1.21.1\")".to_string()));
}

#[test]
fn declining_the_primary_mod_succeeds_without_writing() {
    let registry = vec![a_mod(5, "Other", "other", vec![file(50, "other", &["1.21.1"], &[])])];
    let mut flow = AddFlow::new("1.21.1".to_string(), "5".to_string(), false);
    assert!(matches!(flow.step(AddEvent::Start), AddAction::FetchMod(5)));
    assert!(matches!(flow.step(AddEvent::Fetched(registry[0].clone())), AddAction::Confirm(_)));
    assert!(matches!(flow.step(AddEvent::Answer(false)), AddAction::Done(Ok(()))));
}

#[test]
fn search_text_offers_results_to_choose() {
    let registry = scenario_registry();
    let mut flow = AddFlow::new("1.20.1".to_string(), "ori tech".to_string(), false);
    assert!(matches!(flow.step(AddEvent::Start), AddAction::SearchByText(ref q) if q == "ori tech"));
    match flow.step(AddEvent::SearchResults(registry.clone())) {
        AddAction::ChooseMod(options) => {
            assert_eq!(options.len(), 3);
            assert_eq!(options[1].0, 111);
            assert_eq!(options[1].1, "Owo Lib");
        }
        _ => panic!("expected a choice of mods"),
    }
    assert!(matches!(flow.step(AddEvent::ModChosen(2)), AddAction::FetchMod(222)));
}

#[test]
fn empty_search_fails() {
    let mut flow = AddFlow::new("1.20.1".to_string(), "nothing".to_string(), true);
    flow.step(AddEvent::Start);
    assert!(matches!(
        flow.step(AddEvent::SearchResults(vec![])),
        AddAction::Done(Err(minepack::errors::MinepackError::NoModsFound(ref q))) if q == "nothing"
    ));
}

#[test]
fn incompatible_requested_file_asks_for_fallback() {
    let registry = vec![a_mod(
        9,
        "Nine",
        "nine",
        vec![file(90, "nine-a", &["1.20.1"], &[]), file(91, "nine-b", &["1.19.2"], &[])],
    )];
    let mut flow = AddFlow::new(
        "1.20.1".to_string(),
        "https://www.curseforge.com/minecraft/mc-mods/nine/files/91".to_string(),
        false,
    );
    assert!(matches!(flow.step(AddEvent::Start), AddAction::SearchBySlug(ref s) if s == "nine"));
    assert!(matches!(flow.step(AddEvent::SearchResults(registry.clone())), AddAction::FetchMod(9)));
    assert!(matches!(flow.step(AddEvent::Fetched(registry[0].clone())), AddAction::AskFallback(91)));
    assert!(matches!(
        flow.step(AddEvent::Answer(false)),
        AddAction::Done(Err(minepack::errors::MinepackError::Cancelled))
    ));
}

#[test]
fn registry_failures_end_the_add() {
    let mut flow = AddFlow::new("1.20.1".to_string(), "ore".to_string(), true);
    flow.step(AddEvent::Start);
    assert!(matches!(
        flow.step(AddEvent::SearchFailed("status 500".to_string())),
        AddAction::Done(Err(minepack::errors::MinepackError::CurseforgeApiError(ref m))) if m == "status 500"
    ));
    let mut by_id = AddFlow::new("1.20.1".to_string(), "42".to_string(), true);
    assert!(matches!(by_id.step(AddEvent::Start), AddAction::FetchMod(42)));
    assert!(matches!(
        by_id.step(AddEvent::FetchFailed("timeout".to_string())),
        AddAction::Done(Err(minepack::errors::MinepackError::CurseforgeApiError(_)))
    ));
}

#[test]
fn failed_primary_write_ends_with_io_error() {
    let registry = vec![a_mod(5, "Other", "other", vec![file(50, "other", &["1.21.1"], &[])])];
    let mut flow = AddFlow::new("1.21.1".to_string(), "5".to_string(), true);
    flow.step(AddEvent::Start);
    assert!(matches!(flow.step(AddEvent::Fetched(registry[0].clone())), AddAction::Write(ref n, _) if n == "other.ex.json"));
    assert!(matches!(
        flow.step(AddEvent::Written(false)),
        AddAction::Done(Err(minepack::errors::MinepackError::IoError(_)))
    ));
}

#[test]
fn failed_dependency_write_is_reported_and_skipped() {
    let registry = scenario_registry();
    let primary = registry[0].latest_files[0].clone();
    let mut walk = DependencyWalk::new("1.20.1".to_string(), true, ReferenceStore::new(), 1030830, &primary);
    assert!(matches!(walk.step(WalkEvent::Continue), WalkAction::Fetch(111)));
    assert!(matches!(walk.step(WalkEvent::Fetched(registry[1].clone())), WalkAction::Write(ref n, _) if n == "owo-lib.ex.json"));
    assert!(matches!(walk.step(WalkEvent::Written(false)), WalkAction::WriteFailed(ref n) if n == "Owo Lib"));
    assert!(matches!(walk.step(WalkEvent::Continue), WalkAction::Fetch(222)));
    assert_eq!(walk.visited(), &vec![1030830]);
    assert_eq!(walk.store().len(), 0);
}

#[test]
fn fetched_mod_with_another_id_counts_as_failed() {
    let registry = scenario_registry();
    let primary = registry[0].latest_files[0].clone();
    let mut walk = DependencyWalk::new("1.20.1".to_string(), true, ReferenceStore::new(), 1030830, &primary);
    assert!(matches!(walk.step(WalkEvent::Continue), WalkAction::Fetch(111)));
    assert!(matches!(walk.step(WalkEvent::Fetched(registry[2].clone())), WalkAction::FetchFailed(111)));
    assert!(matches!(walk.step(WalkEvent::Continue), WalkAction::Fetch(222)));
    assert_eq!(walk.store().len(), 0);
}
