//! The session state: the one record that every request reads and that only
//! initialisation, a change of settings and a reload write.
//!
//! A reload touches the file system, and nothing here does. So a reload comes
//! in two halves. [`SessionState::plan_reload`] says which file is wanted;
//! whoever holds the state looks for it, with no lock held, and hands what was
//! found to [`SessionState::complete_reload`], which installs it in one step.

use vstd::prelude::*;
use serde_json::Value;
use crate::index::OwnershipIndex;
use crate::paths::{join_path, joined_path, path_below, strip_base};
use crate::settings::{configured_path, Settings};
use crate::text::{join, joined, opt_str, opt_text, texts};
use crate::uri::{file_path, file_path_of};

verus! {

/// A manifest that was read and parsed: where it lies and what it says.
pub struct LoadedManifest {
    /// The absolute path that the manifest was read from.
    pub path: String,
    /// The index built from it.
    pub index: OwnershipIndex,
}

/// What a reload has to look for.
#[derive(Debug, PartialEq, Eq)]
pub enum ReloadPlan {
    /// No workspace root: there is nothing to search.
    Skip,
    /// A manifest path is configured: only this file counts.
    Probe { candidate: String },
    /// Nothing is configured: the manifest is to be discovered below the root.
    Discover { root: String },
}

/// How a reload ended.
#[derive(Debug, PartialEq, Eq)]
pub enum ReloadOutcome {
    /// A manifest was installed; its path.
    Loaded(String),
    /// No manifest is loaded now.
    NotFound,
}

/// The mathematical value of a [`LoadedManifest`].
pub struct LoadedView {
    pub path: Seq<char>,
    pub index: OwnershipIndex,
}

/// The mathematical value of a [`ReloadPlan`].
pub enum PlanView {
    Skip,
    Probe(Seq<char>),
    Discover(Seq<char>),
}

/// The mathematical value of a [`ReloadOutcome`].
pub enum OutcomeView {
    Loaded(Seq<char>),
    NotFound,
}

/// The mathematical value of a [`SessionState`].
pub struct SessionView {
    /// The workspace root, once it is known.
    pub root: Option<Seq<char>>,
    /// The configured manifest path, relative to the root.
    pub manifest_path: Option<Seq<char>>,
    /// The loaded manifest: index and path, present or absent together.
    pub loaded: Option<LoadedView>,
}

impl View for LoadedManifest {
    type V = LoadedView;

    open spec fn view(&self) -> LoadedView {
        LoadedView { path: self.path@, index: self.index }
    }
}

impl View for ReloadPlan {
    type V = PlanView;

    open spec fn view(&self) -> PlanView {
        match self {
            ReloadPlan::Skip => PlanView::Skip,
            ReloadPlan::Probe { candidate } => PlanView::Probe(candidate@),
            ReloadPlan::Discover { root } => PlanView::Discover(root@),
        }
    }
}

impl View for ReloadOutcome {
    type V = OutcomeView;

    open spec fn view(&self) -> OutcomeView {
        match self {
            ReloadOutcome::Loaded(path) => OutcomeView::Loaded(path@),
            ReloadOutcome::NotFound => OutcomeView::NotFound,
        }
    }
}

/// The value of a manifest that may be absent.
pub open spec fn opt_loaded(found: Option<LoadedManifest>) -> Option<LoadedView> {
    match found {
        Some(manifest) => Some(manifest@),
        None => None,
    }
}

/// The text between two owners in a list.
pub open spec fn owner_separator() -> Seq<char> {
    ", "@
}

/// How a list of owners is shown: the owners joined by a comma and a space.
/// An empty list is no data.
pub open spec fn listed(names: Seq<Seq<char>>) -> Option<Seq<char>> {
    if names.len() == 0 {
        None
    } else {
        Some(joined(names, owner_separator()))
    }
}

impl SessionView {
    /// The state at process start: nothing known, nothing loaded.
    pub open spec fn empty() -> SessionView {
        SessionView { root: None, manifest_path: None, loaded: None }
    }

    /// A manifest is loaded only in a workspace.
    pub open spec fn consistent(self) -> bool {
        self.root is None ==> self.loaded is None
    }

    /// The state after the initialisation handshake. The root is written once:
    /// a root that is set stays. The settings are those of the options.
    pub open spec fn initialized(
        self,
        root_uri: Option<Seq<char>>,
        options: Option<&Value>,
    ) -> SessionView {
        SessionView {
            root: match self.root {
                Some(root) => Some(root),
                None => match root_uri {
                    Some(uri) => file_path_of(uri),
                    None => None,
                },
            },
            manifest_path: configured_path(options),
            loaded: self.loaded,
        }
    }

    /// The state after new settings arrived.
    pub open spec fn configured(self, payload: Option<&Value>) -> SessionView {
        SessionView { manifest_path: configured_path(payload), ..self }
    }

    /// What a reload looks for. A configured path is resolved against the root
    /// and wins over discovery.
    pub open spec fn plan(self) -> PlanView {
        match self.root {
            None => PlanView::Skip,
            Some(root) => match self.manifest_path {
                Some(rest) => PlanView::Probe(joined_path(root, rest)),
                None => PlanView::Discover(root),
            },
        }
    }

    /// What a reload installs when `found` is what the search brought. For a
    /// configured path only a file at that very path counts. Without a root
    /// nothing is touched.
    pub open spec fn accepted(self, found: Option<LoadedView>) -> Option<LoadedView> {
        match self.plan() {
            PlanView::Skip => self.loaded,
            PlanView::Probe(candidate) => match found {
                Some(manifest) => if manifest.path == candidate {
                    found
                } else {
                    None
                },
                None => None,
            },
            PlanView::Discover(_) => found,
        }
    }

    /// The state after a reload for which the search brought `found`.
    pub open spec fn reloaded(self, found: Option<LoadedView>) -> SessionView {
        SessionView { loaded: self.accepted(found), ..self }
    }

    /// How that reload ends.
    pub open spec fn outcome(self, found: Option<LoadedView>) -> OutcomeView {
        match self.plan() {
            PlanView::Skip => OutcomeView::NotFound,
            _ => match self.accepted(found) {
                Some(manifest) => OutcomeView::Loaded(manifest.path),
                None => OutcomeView::NotFound,
            },
        }
    }

    /// The path of the file that `uri` names, relative to the workspace root:
    /// the URI must stand for a local path and that path must lie below the root.
    pub open spec fn relative_path(self, uri: Seq<char>) -> Option<Seq<char>> {
        match self.root {
            None => None,
            Some(root) => match file_path_of(uri) {
                None => None,
                Some(file) => path_below(file, root),
            },
        }
    }

    /// The owners of the file that `uri` names, as one line of text; `None`
    /// where there is no data: no root, no local path, a path outside the
    /// workspace, no manifest, no matching rule, or a rule without owners.
    pub open spec fn owners(self, uri: Seq<char>) -> Option<Seq<char>> {
        match self.relative_path(uri) {
            None => None,
            Some(path) => match self.loaded {
                None => None,
                Some(manifest) => match manifest.index.owners_of(path) {
                    None => None,
                    Some(names) => listed(names),
                },
            },
        }
    }
}

/// Shows a list of owners as one line; `None` for an empty list.
pub fn owner_list(names: &Vec<String>) -> (line: Option<String>)
    ensures
        opt_text(line) == listed(texts(names@)),
{
    if names.len() == 0 {
        None
    } else {
        Some(join(names, ", "))
    }
}

/// The session state.
pub struct SessionState {
    root: Option<String>,
    settings: Settings,
    loaded: Option<LoadedManifest>,
}

impl View for SessionState {
    type V = SessionView;

    closed spec fn view(&self) -> SessionView {
        SessionView {
            root: opt_text(self.root),
            manifest_path: self.settings.manifest_path(),
            loaded: opt_loaded(self.loaded),
        }
    }
}

impl SessionState {
    #[verifier::type_invariant]
    spec fn inv(&self) -> bool {
        self.root is None ==> self.loaded is None
    }

    /// The state at process start.
    pub fn new() -> (state: Self)
        ensures
            state@ == SessionView::empty(),
            state@.consistent(),
    {
        SessionState { root: None, settings: Settings { path: None }, loaded: None }
    }

    /// The workspace root, if it is known.
    pub fn workspace_root(&self) -> (root: Option<String>)
        ensures
            opt_text(root) == self@.root,
    {
        match &self.root {
            Some(root) => Some(root.clone()),
            None => None,
        }
    }

    /// The configured manifest path, if one is configured.
    pub fn manifest_path(&self) -> (path: Option<String>)
        ensures
            opt_text(path) == self@.manifest_path,
    {
        match &self.settings.path {
            Some(path) => Some(path.clone()),
            None => None,
        }
    }

    /// The path that the loaded manifest was read from, if one is loaded.
    pub fn loaded_path(&self) -> (path: Option<String>)
        ensures
            opt_text(path) == match self@.loaded {
                Some(manifest) => Some(manifest.path),
                None => None,
            },
    {
        match &self.loaded {
            Some(manifest) => Some(manifest.path.clone()),
            None => None,
        }
    }

    /// Takes in the initialisation handshake: the root, where `root_uri`
    /// stands for a local path and no root is set yet, and the settings that
    /// `options` hold. Returns what the first reload has to look for.
    pub fn initialize(&mut self, root_uri: Option<&str>, options: Option<&Value>) -> (plan:
        ReloadPlan)
        ensures
            final(self)@ == old(self)@.initialized(opt_str(root_uri), options),
            final(self)@.consistent(),
            plan@ == final(self)@.plan(),
    {
        proof {
            use_type_invariant(&*self);
        }
        if self.root.is_none() {
            if let Some(uri) = root_uri {
                if let Some(path) = file_path(uri) {
                    self.root = Some(path);
                }
            }
        }
        self.settings = Settings::decode(options);
        self.plan_reload()
    }

    /// The settings changed: takes in the new ones, whatever the old ones were.
    /// Returns what the reload that follows has to look for.
    pub fn did_change_configuration(&mut self, payload: Option<&Value>) -> (plan: ReloadPlan)
        ensures
            final(self)@ == old(self)@.configured(payload),
            final(self)@.consistent(),
            plan@ == final(self)@.plan(),
    {
        proof {
            use_type_invariant(&*self);
        }
        self.settings = Settings::decode(payload);
        self.plan_reload()
    }

    /// A watched file changed: whichever it was, a full reload follows. Returns
    /// what that reload has to look for.
    pub fn did_change_watched_files(&self) -> (plan: ReloadPlan)
        ensures
            plan@ == self@.plan(),
    {
        self.plan_reload()
    }

    /// What a reload has to look for in the present state.
    pub fn plan_reload(&self) -> (plan: ReloadPlan)
        ensures
            plan@ == self@.plan(),
            self@.consistent(),
    {
        proof {
            use_type_invariant(self);
        }
        match &self.root {
            None => ReloadPlan::Skip,
            Some(root) => match &self.settings.path {
                Some(rest) => ReloadPlan::Probe {
                    candidate: join_path(root.as_str(), rest.as_str()),
                },
                None => ReloadPlan::Discover { root: root.clone() },
            },
        }
    }

    /// Ends a reload: installs what the search brought, index and path in one
    /// step, or clears both where it brought nothing that counts.
    pub fn complete_reload(&mut self, found: Option<LoadedManifest>) -> (outcome: ReloadOutcome)
        ensures
            final(self)@ == old(self)@.reloaded(opt_loaded(found)),
            final(self)@.consistent(),
            outcome@ == old(self)@.outcome(opt_loaded(found)),
    {
        let plan = self.plan_reload();
        match plan {
            ReloadPlan::Skip => ReloadOutcome::NotFound,
            ReloadPlan::Probe { candidate } => match found {
                Some(manifest) => {
                    if manifest.path == candidate {
                        self.install(manifest)
                    } else {
                        self.loaded = None;
                        ReloadOutcome::NotFound
                    }
                },
                None => {
                    self.loaded = None;
                    ReloadOutcome::NotFound
                },
            },
            ReloadPlan::Discover { root } => match found {
                Some(manifest) => self.install(manifest),
                None => {
                    self.loaded = None;
                    ReloadOutcome::NotFound
                },
            },
        }
    }

    fn install(&mut self, manifest: LoadedManifest) -> (outcome: ReloadOutcome)
        requires
            old(self)@.root is Some,
        ensures
            final(self)@ == (SessionView { loaded: Some(manifest@), ..old(self)@ }),
            outcome@ == OutcomeView::Loaded(manifest.path@),
    {
        let path = manifest.path.clone();
        self.loaded = Some(manifest);
        ReloadOutcome::Loaded(path)
    }

    /// The path of the file that `uri` names, relative to the workspace root.
    pub fn relative_path(&self, uri: &str) -> (path: Option<String>)
        ensures
            opt_text(path) == self@.relative_path(uri@),
    {
        match &self.root {
            None => None,
            Some(root) => match file_path(uri) {
                None => None,
                Some(file) => strip_base(file.as_str(), root.as_str()),
            },
        }
    }

    /// The owners of the file that `uri` names, as one line of text.
    pub fn get_owners_for_file(&self, uri: &str) -> (owners: Option<String>)
        ensures
            opt_text(owners) == self@.owners(uri@),
    {
        match self.relative_path(uri) {
            None => None,
            Some(path) => match &self.loaded {
                None => None,
                Some(manifest) => match manifest.index.lookup(path.as_str()) {
                    None => None,
                    Some(names) => owner_list(&names),
                },
            },
        }
    }
}

} // verus!
