use codeowners_lsp::index::OwnershipIndex;
use codeowners_lsp::session::{owner_list, LoadedManifest, ReloadOutcome, ReloadPlan, SessionState};
use codeowners_lsp::settings::Settings;
use codeowners_lsp::uri::file_path;
use serde_json::Value;

fn manifest(path: &str, text: &str) -> LoadedManifest {
    LoadedManifest {
        path: path.to_string(),
        index: OwnershipIndex::new(codeowners::from_reader(text.as_bytes())),
    }
}

fn object(members: &[(&str, Value)]) -> Value {
    let mut map = serde_json::Map::new();
    for (key, value) in members {
        map.insert(key.to_string(), value.clone());
    }
    Value::Object(map)
}

fn text(value: &str) -> Value {
    Value::String(value.to_string())
}

fn session_in_repo(options: Option<&Value>) -> SessionState {
    let mut state = SessionState::new();
    state.initialize(Some("file:///repo"), options);
    state
}

#[test]
fn scenario_rule_matches_and_other_path_has_no_data() {
    let mut state = session_in_repo(None);
    assert_eq!(state.plan_reload(), ReloadPlan::Discover { root: "/repo".to_string() });
    let outcome = state.complete_reload(Some(manifest("/repo/CODEOWNERS", "src/* @team-a")));
    assert_eq!(outcome, ReloadOutcome::Loaded("/repo/CODEOWNERS".to_string()));
    assert_eq!(
        state.get_owners_for_file("file:///repo/src/lib.rs"),
        Some("@team-a".to_string())
    );
    assert_eq!(state.get_owners_for_file("file:///repo/docs/readme.md"), None);
}

#[test]
fn scenario_configured_but_missing_path_gives_no_data() {
    let options = object(&[("path", text("OWNERS.custom"))]);
    let mut state = session_in_repo(Some(&options));
    assert_eq!(
        state.plan_reload(),
        ReloadPlan::Probe { candidate: "/repo/OWNERS.custom".to_string() }
    );
    // The configured file is absent: the search brings nothing.
    assert_eq!(state.complete_reload(None), ReloadOutcome::NotFound);
    assert_eq!(state.loaded_path(), None);
    assert_eq!(state.get_owners_for_file("file:///repo/src/lib.rs"), None);
    // Even a manifest that discovery would have found does not count.
    let discovered = manifest("/repo/CODEOWNERS", "* @everyone");
    assert_eq!(state.complete_reload(Some(discovered)), ReloadOutcome::NotFound);
    assert_eq!(state.loaded_path(), None);
    assert_eq!(state.get_owners_for_file("file:///repo/src/lib.rs"), None);
    assert_eq!(state.get_owners_for_file("file:///repo/docs/readme.md"), None);
}

#[test]
fn scenario_watched_file_change_brings_new_rule() {
    let mut state = session_in_repo(None);
    state.complete_reload(Some(manifest("/repo/CODEOWNERS", "src/* @team-a")));
    assert_eq!(state.get_owners_for_file("file:///repo/docs/readme.md"), None);
    // The manifest was edited; the notification asks for a full reload.
    let plan = state.did_change_watched_files();
    assert_eq!(plan, ReloadPlan::Discover { root: "/repo".to_string() });
    let edited = manifest("/repo/CODEOWNERS", "src/* @team-a\ndocs/* @writers");
    assert_eq!(
        state.complete_reload(Some(edited)),
        ReloadOutcome::Loaded("/repo/CODEOWNERS".to_string())
    );
    assert_eq!(
        state.get_owners_for_file("file:///repo/docs/readme.md"),
        Some("@writers".to_string())
    );
    assert_eq!(
        state.get_owners_for_file("file:///repo/src/lib.rs"),
        Some("@team-a".to_string())
    );
}

#[test]
fn new_state_knows_nothing() {
    let state = SessionState::new();
    assert_eq!(state.workspace_root(), None);
    assert_eq!(state.manifest_path(), None);
    assert_eq!(state.loaded_path(), None);
    assert_eq!(state.plan_reload(), ReloadPlan::Skip);
    assert_eq!(state.get_owners_for_file("file:///repo/src/lib.rs"), None);
}

#[test]
fn initialize_takes_root_and_settings() {
    let options = object(&[("path", text(".github/CODEOWNERS"))]);
    let mut state = SessionState::new();
    let plan = state.initialize(Some("file:///repo"), Some(&options));
    assert_eq!(state.workspace_root(), Some("/repo".to_string()));
    assert_eq!(state.manifest_path(), Some(".github/CODEOWNERS".to_string()));
    assert_eq!(plan, ReloadPlan::Probe { candidate: "/repo/.github/CODEOWNERS".to_string() });
}

#[test]
fn initialize_without_root_uri_leaves_root_unset() {
    let mut state = SessionState::new();
    assert_eq!(state.initialize(None, None), ReloadPlan::Skip);
    assert_eq!(state.workspace_root(), None);
}

#[test]
fn initialize_with_uri_that_is_no_local_path_leaves_root_unset() {
    let mut state = SessionState::new();
    assert_eq!(state.initialize(Some("https://example.com/repo"), None), ReloadPlan::Skip);
    assert_eq!(state.workspace_root(), None);
    assert_eq!(state.initialize(Some("not a uri"), None), ReloadPlan::Skip);
    assert_eq!(state.workspace_root(), None);
}

#[test]
fn root_is_written_once() {
    let mut state = session_in_repo(None);
    state.initialize(Some("file:///elsewhere"), None);
    assert_eq!(state.workspace_root(), Some("/repo".to_string()));
}

#[test]
fn reload_without_root_touches_nothing() {
    let mut state = SessionState::new();
    let found = manifest("/repo/CODEOWNERS", "* @everyone");
    assert_eq!(state.complete_reload(Some(found)), ReloadOutcome::NotFound);
    assert_eq!(state.loaded_path(), None);
}

#[test]
fn configured_path_wins_over_discovery() {
    let options = object(&[("path", text("OWNERS.custom"))]);
    let mut state = session_in_repo(Some(&options));
    let plan = state.plan_reload();
    assert!(!matches!(plan, ReloadPlan::Discover { .. }));
    let found = manifest("/repo/OWNERS.custom", "src/* @custom");
    assert_eq!(
        state.complete_reload(Some(found)),
        ReloadOutcome::Loaded("/repo/OWNERS.custom".to_string())
    );
    assert_eq!(state.loaded_path(), Some("/repo/OWNERS.custom".to_string()));
    assert_eq!(
        state.get_owners_for_file("file:///repo/src/lib.rs"),
        Some("@custom".to_string())
    );
}

#[test]
fn absolute_configured_path_replaces_root() {
    let options = object(&[("path", text("/etc/OWNERS"))]);
    let state = session_in_repo(Some(&options));
    assert_eq!(state.plan_reload(), ReloadPlan::Probe { candidate: "/etc/OWNERS".to_string() });
}

#[test]
fn reload_that_finds_nothing_clears_index_and_path() {
    let mut state = session_in_repo(None);
    state.complete_reload(Some(manifest("/repo/CODEOWNERS", "* @everyone")));
    assert_eq!(state.loaded_path(), Some("/repo/CODEOWNERS".to_string()));
    assert_eq!(state.complete_reload(None), ReloadOutcome::NotFound);
    assert_eq!(state.loaded_path(), None);
    assert_eq!(state.get_owners_for_file("file:///repo/src/lib.rs"), None);
}

#[test]
fn reload_twice_answers_alike() {
    let files = [
        "file:///repo/src/lib.rs",
        "file:///repo/docs/readme.md",
        "file:///repo/Cargo.toml",
        "file:///elsewhere/src/lib.rs",
    ];
    let text = "*.toml @build\nsrc/* @team-a @team-b";
    let mut state = session_in_repo(None);
    let first = state.complete_reload(Some(manifest("/repo/CODEOWNERS", text)));
    let after_first: Vec<Option<String>> =
        files.iter().map(|file| state.get_owners_for_file(file)).collect();
    let second = state.complete_reload(Some(manifest("/repo/CODEOWNERS", text)));
    let after_second: Vec<Option<String>> =
        files.iter().map(|file| state.get_owners_for_file(file)).collect();
    assert_eq!(first, second);
    assert_eq!(after_first, after_second);
    assert_eq!(
        after_first,
        vec![Some("@team-a, @team-b".to_string()), None, Some("@build".to_string()), None]
    );
}

#[test]
fn repeated_lookups_answer_alike() {
    let mut state = session_in_repo(None);
    state.complete_reload(Some(manifest("/repo/CODEOWNERS", "src/* @team-a")));
    let first = state.get_owners_for_file("file:///repo/src/lib.rs");
    for _ in 0..5 {
        assert_eq!(state.get_owners_for_file("file:///repo/src/lib.rs"), first);
        assert_eq!(state.get_owners_for_file("file:///repo/docs/readme.md"), None);
    }
    assert_eq!(first, Some("@team-a".to_string()));
}

#[test]
fn file_outside_workspace_has_no_data() {
    let mut state = session_in_repo(None);
    state.complete_reload(Some(manifest("/repo/CODEOWNERS", "* @everyone")));
    assert_eq!(
        state.get_owners_for_file("file:///repo/src/lib.rs"),
        Some("@everyone".to_string())
    );
    assert_eq!(state.relative_path("file:///elsewhere/src/lib.rs"), None);
    assert_eq!(state.get_owners_for_file("file:///elsewhere/src/lib.rs"), None);
    assert_eq!(state.get_owners_for_file("file:///repository/src/lib.rs"), None);
    assert_eq!(state.get_owners_for_file("https://example.com/repo/src/lib.rs"), None);
    assert_eq!(state.get_owners_for_file("no uri at all"), None);
}

#[test]
fn relative_path_is_the_path_below_the_root() {
    let state = session_in_repo(None);
    assert_eq!(
        state.relative_path("file:///repo/src/main.rs"),
        Some("src/main.rs".to_string())
    );
    assert_eq!(
        state.relative_path("file:///repo/with%20space/a.rs"),
        Some("with space/a.rs".to_string())
    );
}

#[test]
fn rule_without_owners_is_no_data() {
    let mut state = session_in_repo(None);
    state.complete_reload(Some(manifest("/repo/CODEOWNERS", "* @everyone\ndocs/*")));
    assert_eq!(state.get_owners_for_file("file:///repo/docs/readme.md"), None);
    assert_eq!(
        state.get_owners_for_file("file:///repo/src/lib.rs"),
        Some("@everyone".to_string())
    );
}

#[test]
fn later_rule_takes_precedence() {
    let mut state = session_in_repo(None);
    state.complete_reload(Some(manifest("/repo/CODEOWNERS", "* @everyone\n*.rs @rust docs@example.com")));
    assert_eq!(
        state.get_owners_for_file("file:///repo/src/lib.rs"),
        Some("@rust, docs@example.com".to_string())
    );
    assert_eq!(
        state.get_owners_for_file("file:///repo/readme.md"),
        Some("@everyone".to_string())
    );
}

#[test]
fn index_lookup_gives_owners_in_order() {
    let index = OwnershipIndex::new(codeowners::from_reader("src/* @b @a @org/team".as_bytes()));
    assert_eq!(
        index.lookup("src/lib.rs"),
        Some(vec!["@b".to_string(), "@a".to_string(), "@org/team".to_string()])
    );
    assert_eq!(index.lookup("docs/readme.md"), None);
}

#[test]
fn owner_list_joins_with_comma_and_space() {
    assert_eq!(owner_list(&vec![]), None);
    assert_eq!(owner_list(&vec!["@a".to_string()]), Some("@a".to_string()));
    assert_eq!(
        owner_list(&vec!["@a".to_string(), "@b".to_string(), "c@d.e".to_string()]),
        Some("@a, @b, c@d.e".to_string())
    );
}

#[test]
fn configuration_change_replaces_settings() {
    let mut state = session_in_repo(None);
    let payload = object(&[("path", text("docs/CODEOWNERS"))]);
    let plan = state.did_change_configuration(Some(&payload));
    assert_eq!(state.manifest_path(), Some("docs/CODEOWNERS".to_string()));
    assert_eq!(plan, ReloadPlan::Probe { candidate: "/repo/docs/CODEOWNERS".to_string() });
    // A payload that says nothing about the path configures none.
    let plan = state.did_change_configuration(Some(&Value::Bool(true)));
    assert_eq!(state.manifest_path(), None);
    assert_eq!(plan, ReloadPlan::Discover { root: "/repo".to_string() });
}

#[test]
fn configuration_change_leaves_answers_until_reload() {
    let mut state = session_in_repo(None);
    state.complete_reload(Some(manifest("/repo/CODEOWNERS", "src/* @team-a")));
    let payload = object(&[("path", text("OWNERS.custom"))]);
    state.did_change_configuration(Some(&payload));
    assert_eq!(
        state.get_owners_for_file("file:///repo/src/lib.rs"),
        Some("@team-a".to_string())
    );
    assert_eq!(state.complete_reload(None), ReloadOutcome::NotFound);
    assert_eq!(state.get_owners_for_file("file:///repo/src/lib.rs"), None);
}

#[test]
fn decode_absent_payload_is_default() {
    assert_eq!(Settings::decode(None), Settings { path: None });
    assert_eq!(Settings::default(), Settings { path: None });
}

#[test]
fn decode_reads_path() {
    let payload = object(&[("path", text("OWNERS.custom"))]);
    assert_eq!(
        Settings::decode(Some(&payload)),
        Settings { path: Some("OWNERS.custom".to_string()) }
    );
}

#[test]
fn decode_ignores_unknown_fields() {
    let payload = object(&[
        ("verbose", Value::Bool(true)),
        ("path", text("a/b")),
        ("nested", object(&[("path", text("inner"))])),
    ]);
    assert_eq!(Settings::decode(Some(&payload)), Settings { path: Some("a/b".to_string()) });
    let without = object(&[("verbose", Value::Bool(true))]);
    assert_eq!(Settings::decode(Some(&without)), Settings { path: None });
}

#[test]
fn decode_degrades_to_default_on_malformed_payload() {
    let number = object(&[("path", Value::from(7))]);
    assert_eq!(Settings::decode(Some(&number)), Settings { path: None });
    let null = object(&[("path", Value::Null)]);
    assert_eq!(Settings::decode(Some(&null)), Settings { path: None });
    assert_eq!(Settings::decode(Some(&Value::Null)), Settings { path: None });
    assert_eq!(Settings::decode(Some(&text("path"))), Settings { path: None });
    let list = Value::Array(vec![text("OWNERS.custom")]);
    assert_eq!(Settings::decode(Some(&list)), Settings { path: None });
}

#[test]
fn file_path_of_uri() {
    assert_eq!(file_path("file:///repo/src/lib.rs"), Some("/repo/src/lib.rs".to_string()));
    assert_eq!(file_path("file:///repo/a%20b.rs"), Some("/repo/a b.rs".to_string()));
    assert_eq!(file_path("file://localhost/repo/x"), Some("/repo/x".to_string()));
    assert_eq!(file_path("file://otherhost/repo/x"), None);
    assert_eq!(file_path("mailto:someone@example.com"), None);
    assert_eq!(file_path("/repo/src/lib.rs"), None);
}
