//! Settings, and how an untyped payload becomes settings. Decoding never
//! fails: whatever is not understood counts as not said.

use vstd::prelude::*;
use serde_json::Value;
use crate::json::{as_string, member, member_of, string_of};
use crate::text::opt_text;

verus! {

/// What the user can configure.
#[derive(Debug, PartialEq, Eq)]
pub struct Settings {
    /// Where the manifest lies, relative to the workspace root; absent where
    /// the manifest is to be discovered.
    pub path: Option<String>,
}

/// The name of the one option that is read from a payload.
pub open spec fn path_key() -> Seq<char> {
    "path"@
}

/// The manifest path that a payload configures: the member `path` of a JSON
/// object where that member is a string. A payload that is absent, no object,
/// without the member, or with a member that is no string configures none.
pub open spec fn configured_path(payload: Option<&Value>) -> Option<Seq<char>> {
    match payload {
        Some(value) => match member_of(*value, path_key()) {
            Some(inner) => string_of(inner),
            None => None,
        },
        None => None,
    }
}

impl Settings {
    /// The configured manifest path as text.
    pub open spec fn manifest_path(&self) -> Option<Seq<char>> {
        opt_text(self.path)
    }

    /// Reads settings from a payload. Members other than `path` are not looked at.
    pub fn decode(payload: Option<&Value>) -> (settings: Settings)
        ensures
            settings.manifest_path() == configured_path(payload),
    {
        match payload {
            Some(value) => match member(value, "path") {
                Some(inner) => Settings { path: as_string(inner) },
                None => Settings { path: None },
            },
            None => Settings { path: None },
        }
    }
}

impl Default for Settings {
    /// No manifest path: the manifest is discovered.
    fn default() -> (settings: Settings)
        ensures
            settings.manifest_path() is None,
    {
        Settings { path: None }
    }
}

} // verus!
