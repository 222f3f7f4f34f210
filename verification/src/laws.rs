//! What holds of every session, stated over the values of the states and
//! proved from the definitions that the contracts use.

use vstd::prelude::*;
use serde_json::Value;
use crate::dispatch::{command_target, hint_heading, hover_heading, show_owner_command};
use crate::paths::joined_path;
use crate::session::{LoadedView, OutcomeView, PlanView, SessionView};

verus! {

/// A configured manifest path wins over discovery. With a root and a
/// configured path the reload asks for that one file and never for a search,
/// and a manifest found there is installed as it is.
pub proof fn law_configured_path_wins(state: SessionView, found: LoadedView)
    requires
        state.root is Some,
        state.manifest_path is Some,
        found.path == joined_path(state.root.unwrap(), state.manifest_path.unwrap()),
    ensures
        state.plan() == PlanView::Probe(found.path),
        !(state.plan() is Discover),
        state.reloaded(Some(found)).loaded == Some(found),
        state.outcome(Some(found)) == OutcomeView::Loaded(found.path),
{
}

/// A configured path that leads to no file never falls back to discovery.
/// Whatever else the search may bring, a manifest at another path included,
/// nothing is loaded afterwards and no file has owners.
pub proof fn law_missing_configured_path_gives_no_data(
    state: SessionView,
    found: Option<LoadedView>,
    uri: Seq<char>,
)
    requires
        state.root is Some,
        state.manifest_path is Some,
        found matches Some(manifest) ==> manifest.path != joined_path(
            state.root.unwrap(),
            state.manifest_path.unwrap(),
        ),
    ensures
        state.reloaded(found).loaded is None,
        state.outcome(found) == OutcomeView::NotFound,
        state.reloaded(found).owners(uri) is None,
        state.reloaded(found).hover(uri) is None,
        state.reloaded(found).inlay_hint(uri) is None,
{
}

/// Hover and annotations agree. A file has a hover exactly when it has an
/// annotation, there is then exactly one annotation, and what follows the
/// heading is the same line of owners in both.
pub proof fn law_hover_and_hints_agree(state: SessionView, uri: Seq<char>)
    ensures
        state.hover(uri) is Some <==> state.inlay_hint(uri) is Some,
        state.inlay_hint(uri) matches Some(hints) ==> hints.len() == 1,
        state.hover(uri) is Some ==> state.hover(uri).unwrap().skip(hover_heading().len() as int)
            == state.inlay_hint(uri).unwrap()[0].label.skip(hint_heading().len() as int),
        state.hover(uri) is Some ==> state.owners(uri) == Some(
            state.hover(uri).unwrap().skip(hover_heading().len() as int),
        ),
{
    if state.owners(uri) is Some {
        let line = state.owners(uri).unwrap();
        assert((hover_heading() + line).skip(hover_heading().len() as int) =~= line);
        assert((hint_heading() + line).skip(hint_heading().len() as int) =~= line);
    }
}

/// A file outside the workspace has no data, and that is no error. Where the
/// file that a URI names has no path below the root (there is no root, the URI
/// stands for no local path, or the path lies elsewhere), hover and
/// annotations are absent and the command does not show owners.
pub proof fn law_outside_workspace_no_data(
    state: SessionView,
    uri: Seq<char>,
    command: Seq<char>,
    arguments: Seq<Value>,
)
    requires
        state.relative_path(uri) is None,
    ensures
        state.owners(uri) is None,
        state.hover(uri) is None,
        state.inlay_hint(uri) is None,
        command_target(arguments) == Some(uri) ==> !(state.execute_command(
            command,
            arguments,
        ) is Owners),
{
}

/// Reloading is idempotent. A second reload for which the search brings the
/// same as for the first leaves the state as the first left it, ends as the
/// first ended, and so answers every lookup as before.
pub proof fn law_reload_idempotent(state: SessionView, found: Option<LoadedView>, uri: Seq<char>)
    ensures
        state.reloaded(found).reloaded(found) == state.reloaded(found),
        state.reloaded(found).plan() == state.plan(),
        state.reloaded(found).outcome(found) == state.outcome(found),
        state.reloaded(found).reloaded(found).owners(uri) == state.reloaded(found).owners(uri),
{
}

/// Two manifests answer alike when they lie at the same path and their indexes
/// give every path the same owners.
pub open spec fn answer_alike(first: Option<LoadedView>, second: Option<LoadedView>) -> bool {
    match (first, second) {
        (Some(a), Some(b)) => a.path == b.path && forall|path: Seq<char>|
            a.index.owners_of(path) == #[trigger] b.index.owners_of(path),
        (None, None) => true,
        _ => false,
    }
}

/// A reload of an unchanged manifest changes no answer. Where the second
/// search brings a manifest that answers like the one of the first (the same
/// file read and parsed anew), the second reload ends as the first ended and
/// every lookup, hover and annotation is as before.
pub proof fn law_reload_of_same_manifest_changes_no_answer(
    state: SessionView,
    first: Option<LoadedView>,
    second: Option<LoadedView>,
    uri: Seq<char>,
)
    requires
        answer_alike(first, second),
    ensures
        state.reloaded(first).outcome(second) == state.outcome(first),
        state.reloaded(first).reloaded(second).owners(uri) == state.reloaded(first).owners(uri),
        state.reloaded(first).reloaded(second).hover(uri) == state.reloaded(first).hover(uri),
        state.reloaded(first).reloaded(second).inlay_hint(uri) == state.reloaded(
            first,
        ).inlay_hint(uri),
{
}

/// Index and path move together. What is loaded after a reload is one
/// manifest as the search brought it, its index with its own path, or what was
/// loaded before where there is no root to search in. An index is never paired
/// with the path of another manifest, and neither is ever there alone.
pub proof fn law_index_and_path_move_together(state: SessionView, found: Option<LoadedView>)
    ensures
        state.reloaded(found).loaded matches Some(manifest) ==> found == Some(manifest)
            || (state.root is None && state.loaded == Some(manifest)),
        state.root is Some && state.reloaded(found).loaded is None ==> state.outcome(found)
            == OutcomeView::NotFound,
        state.root is Some ==> (state.reloaded(found).loaded matches Some(manifest)
            ==> state.outcome(found) == OutcomeView::Loaded(manifest.path)),
{
}

/// A reload writes the loaded manifest and nothing else, and keeps a state
/// consistent.
pub proof fn law_reload_keeps_root_and_settings(state: SessionView, found: Option<LoadedView>)
    ensures
        state.reloaded(found).root == state.root,
        state.reloaded(found).manifest_path == state.manifest_path,
        state.consistent() ==> state.reloaded(found).consistent(),
{
}

/// Without a workspace root a reload is a no-op that finds nothing.
pub proof fn law_reload_without_root(state: SessionView, found: Option<LoadedView>)
    requires
        state.root is None,
    ensures
        state.plan() == PlanView::Skip,
        state.reloaded(found) == state,
        state.outcome(found) == OutcomeView::NotFound,
{
}

/// The workspace root is written once: initialisation keeps a root that is set,
/// and new settings never touch it.
pub proof fn law_root_written_once(
    state: SessionView,
    root_uri: Option<Seq<char>>,
    options: Option<&Value>,
    payload: Option<&Value>,
)
    requires
        state.root is Some,
    ensures
        state.initialized(root_uri, options).root == state.root,
        state.configured(payload).root == state.root,
{
}

/// Lookups are deterministic. What a lookup answers is decided by the root,
/// the loaded manifest and the file: two states that agree in root and
/// manifest give every file the same owners, the same hover and the same
/// annotations. So lookups that no reload parts answer alike, and new settings
/// change no answer until the reload that follows them.
pub proof fn law_lookup_deterministic(
    first: SessionView,
    second: SessionView,
    payload: Option<&Value>,
    uri: Seq<char>,
)
    requires
        first.root == second.root,
        first.loaded == second.loaded,
    ensures
        first.owners(uri) == second.owners(uri),
        first.hover(uri) == second.hover(uri),
        first.inlay_hint(uri) == second.inlay_hint(uri),
        first.configured(payload).owners(uri) == first.owners(uri),
{
}

/// The command tells a file without owners from one with owners: for a file
/// that it understands it shows one of the two messages, and the message for
/// "no rule" exactly when the lookup has no data.
pub proof fn law_command_distinguishes(
    state: SessionView,
    arguments: Seq<Value>,
    uri: Seq<char>,
)
    requires
        command_target(arguments) == Some(uri),
    ensures
        state.execute_command(show_owner_command(), arguments) is NoRule
            <==> state.owners(uri) is None,
        state.execute_command(show_owner_command(), arguments) is Owners
            <==> state.owners(uri) is Some,
{
}

} // verus!
