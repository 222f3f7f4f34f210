use codeowners_lsp::dispatch::{
    capabilities, hints_for, hover_for, initialize_reply, notice_for, target_of,
    CommandReply, HoverReply, OwnerHint, Position, Range, TextDocumentSync,
};
use codeowners_lsp::index::OwnershipIndex;
use codeowners_lsp::session::{LoadedManifest, SessionState};
use serde_json::Value;

fn loaded_session(text: &str) -> SessionState {
    let mut state = SessionState::new();
    state.initialize(Some("file:///repo"), None);
    state.complete_reload(Some(LoadedManifest {
        path: "/repo/CODEOWNERS".to_string(),
        index: OwnershipIndex::new(codeowners::from_reader(text.as_bytes())),
    }));
    state
}

fn at(line: u32, character: u32) -> Position {
    Position { line, character }
}

fn whole_file() -> Range {
    Range { start: at(0, 0), end: at(u32::MAX, 0) }
}

fn uri_argument(uri: &str) -> Vec<Value> {
    vec![Value::String(uri.to_string())]
}

#[test]
fn hover_names_the_owners() {
    let state = loaded_session("src/* @team-a @team-b");
    assert_eq!(
        state.hover("file:///repo/src/lib.rs", at(3, 7)),
        Some(HoverReply { contents: "**CODEOWNERS:** @team-a, @team-b".to_string() })
    );
}

#[test]
fn hover_does_not_depend_on_the_position() {
    let state = loaded_session("src/* @team-a");
    let first = state.hover("file:///repo/src/lib.rs", at(0, 0));
    assert_eq!(first, state.hover("file:///repo/src/lib.rs", at(120, 4)));
    assert_eq!(first, state.hover("file:///repo/src/lib.rs", at(u32::MAX, u32::MAX)));
    let narrow = Range { start: at(5, 0), end: at(6, 0) };
    assert_eq!(
        state.inlay_hint("file:///repo/src/lib.rs", narrow),
        state.inlay_hint("file:///repo/src/lib.rs", whole_file())
    );
}

#[test]
fn hover_is_absent_without_owners() {
    let state = loaded_session("src/* @team-a");
    assert_eq!(state.hover("file:///repo/docs/readme.md", at(3, 7)), None);
    assert_eq!(state.hover("file:///elsewhere/src/lib.rs", at(3, 7)), None);
    assert_eq!(SessionState::new().hover("file:///repo/src/lib.rs", at(3, 7)), None);
}

#[test]
fn inlay_hint_is_one_marker_at_the_start() {
    let state = loaded_session("src/* @team-a");
    assert_eq!(
        state.inlay_hint("file:///repo/src/lib.rs", whole_file()),
        Some(vec![OwnerHint {
            position: Position { line: 0, character: 0 },
            label: "Owned by: @team-a".to_string(),
            tooltip: "File ownership from CODEOWNERS".to_string(),
            padding_left: false,
            padding_right: true,
        }])
    );
}

#[test]
fn inlay_hint_is_absent_without_owners() {
    let state = loaded_session("src/* @team-a");
    assert_eq!(state.inlay_hint("file:///repo/docs/readme.md", whole_file()), None);
    assert_eq!(state.inlay_hint("file:///elsewhere/src/lib.rs", whole_file()), None);
}

#[test]
fn hover_and_inlay_hint_agree() {
    let state = loaded_session("*.md @writers\nsrc/* @team-a @team-b\ndocs/*");
    let files = [
        "file:///repo/src/lib.rs",
        "file:///repo/readme.md",
        "file:///repo/docs/guide.txt",
        "file:///repo/Cargo.toml",
        "file:///elsewhere/readme.md",
        "nonsense",
    ];
    for file in files {
        let hover = state.hover(file, at(0, 0));
        let hints = state.inlay_hint(file, whole_file());
        assert_eq!(hover.is_some(), hints.as_ref().map_or(false, |list| !list.is_empty()));
        if let (Some(hover), Some(hints)) = (hover, hints) {
            assert_eq!(hints.len(), 1);
            let in_hover = hover.contents.strip_prefix("**CODEOWNERS:** ").unwrap();
            let in_hint = hints[0].label.strip_prefix("Owned by: ").unwrap();
            assert_eq!(in_hover, in_hint);
            assert_eq!(Some(in_hover.to_string()), state.get_owners_for_file(file));
        }
    }
    assert!(state.hover("file:///repo/src/lib.rs", at(3, 7)).is_some());
    assert!(state.hover("file:///repo/docs/guide.txt", at(3, 7)).is_none());
}

#[test]
fn scenario_command_for_file_without_rule_says_so() {
    let state = loaded_session("src/* @team-a");
    let reply = state.execute_command("showOwner", &uri_argument("file:///repo/docs/readme.md"));
    assert_eq!(
        reply,
        CommandReply::NoRule("No CODEOWNERS rule matches this file".to_string())
    );
    assert!(!matches!(reply, CommandReply::Owners(_)));
}

#[test]
fn command_shows_the_owners() {
    let state = loaded_session("src/* @team-a @team-b");
    assert_eq!(
        state.execute_command("showOwner", &uri_argument("file:///repo/src/lib.rs")),
        CommandReply::Owners("Owners: @team-a, @team-b".to_string())
    );
}

#[test]
fn command_for_file_outside_workspace_says_no_rule() {
    let state = loaded_session("* @everyone");
    assert_eq!(
        state.execute_command("showOwner", &uri_argument("file:///elsewhere/a.rs")),
        CommandReply::NoRule("No CODEOWNERS rule matches this file".to_string())
    );
}

#[test]
fn unknown_command_is_ignored() {
    let state = loaded_session("* @everyone");
    let arguments = uri_argument("file:///repo/src/lib.rs");
    assert_eq!(state.execute_command("showOwners", &arguments), CommandReply::Ignored);
    assert_eq!(state.execute_command("", &arguments), CommandReply::Ignored);
    assert_eq!(state.execute_command("SHOWOWNER", &arguments), CommandReply::Ignored);
}

#[test]
fn malformed_arguments_are_ignored() {
    let state = loaded_session("* @everyone");
    assert_eq!(state.execute_command("showOwner", &vec![]), CommandReply::Ignored);
    assert_eq!(state.execute_command("showOwner", &vec![Value::from(3)]), CommandReply::Ignored);
    assert_eq!(state.execute_command("showOwner", &vec![Value::Null]), CommandReply::Ignored);
    assert_eq!(
        state.execute_command("showOwner", &uri_argument("no uri at all")),
        CommandReply::Ignored
    );
}

#[test]
fn only_the_first_argument_counts() {
    let state = loaded_session("src/* @team-a");
    let arguments = vec![
        Value::String("file:///repo/src/lib.rs".to_string()),
        Value::String("file:///repo/docs/readme.md".to_string()),
    ];
    assert_eq!(
        state.execute_command("showOwner", &arguments),
        CommandReply::Owners("Owners: @team-a".to_string())
    );
}

#[test]
fn target_is_first_argument_when_it_is_a_uri() {
    assert_eq!(
        target_of(&uri_argument("file:///repo/a.rs")),
        Some("file:///repo/a.rs".to_string())
    );
    assert_eq!(target_of(&uri_argument("https://example.com/")), Some("https://example.com/".to_string()));
    assert_eq!(target_of(&uri_argument("relative/path")), None);
    assert_eq!(target_of(&vec![Value::Bool(false)]), None);
    assert_eq!(target_of(&vec![]), None);
}

#[test]
fn replies_for_given_owner_lines() {
    assert_eq!(
        hover_for(Some("@a, @b".to_string())),
        Some(HoverReply { contents: "**CODEOWNERS:** @a, @b".to_string() })
    );
    assert_eq!(hover_for(None), None);
    assert_eq!(hints_for(None), None);
    let hints = hints_for(Some("@a".to_string())).unwrap();
    assert_eq!(hints.len(), 1);
    assert_eq!(hints[0].label, "Owned by: @a");
    assert_eq!(hints[0].position, at(0, 0));
    assert_eq!((hints[0].padding_left, hints[0].padding_right), (false, true));
    assert_eq!(notice_for(Some("@a".to_string())), CommandReply::Owners("Owners: @a".to_string()));
    assert_eq!(
        notice_for(None),
        CommandReply::NoRule("No CODEOWNERS rule matches this file".to_string())
    );
}

#[test]
fn capabilities_offer_hover_hints_and_the_command() {
    let offer = capabilities();
    assert!(offer.hover_provider);
    assert!(offer.inlay_hint_provider);
    assert_eq!(offer.text_document_sync, TextDocumentSync::Off);
    assert_eq!(offer.commands, vec!["showOwner".to_string()]);
}

#[test]
fn initialize_reply_names_the_server() {
    let reply = initialize_reply("1.2.3");
    assert_eq!(reply.name, "codeowners-lsp");
    assert_eq!(reply.version, "1.2.3");
    assert_eq!(reply.capabilities, capabilities());
}
