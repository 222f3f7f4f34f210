//! Ownership lookups for an editor: the session state of a language server
//! that answers "who owns this file?" from a CODEOWNERS manifest, the rules by
//! which that state is reloaded, and the payloads of the answers.

pub mod dispatch;
pub mod extension;
pub mod index;
pub mod json;
pub mod laws;
pub mod lifecycle;
pub mod paths;
pub mod session;
pub mod settings;
pub mod text;
pub mod uri;
