//! File identifiers: URIs as the editor sends them, and the local path that
//! one stands for.

use vstd::prelude::*;
use tower_lsp::lsp_types::Url;
use crate::text::opt_text;

verus! {

/// `url::Url`, as `tower_lsp::lsp_types` hands it on: a parsed URL. Its inside
/// is not read here.
#[verifier::external_type_specification]
#[verifier::external_body]
pub struct ExUrl(tower_lsp::lsp_types::Url);

/// What `Url::parse` makes of `text`: the URL, or `None` where the text is no
/// absolute URL.
pub uninterp spec fn parsed_uri(text: Seq<char>) -> Option<Url>;

/// What `Url::to_file_path` gives for `uri`, as text: the absolute local path
/// that the URL stands for, or `None` where it stands for none (a host that is
/// not this machine, a URL that cannot be a base) or where the path is not
/// valid UTF-8.
pub uninterp spec fn local_path(uri: Url) -> Option<Seq<char>>;

/// The local path that the URI written as `text` stands for, if it is a URI
/// and stands for one.
pub open spec fn file_path_of(text: Seq<char>) -> Option<Seq<char>> {
    match parsed_uri(text) {
        Some(uri) => local_path(uri),
        None => None,
    }
}

/// Calls `Url::parse`. Not proved: that the result is the one named by
/// [`parsed_uri`], a function of the text alone.
#[verifier::external_body]
pub(crate) fn parse_uri(text: &str) -> (uri: Option<Url>)
    ensures
        uri == parsed_uri(text@),
{
    Url::parse(text).ok()
}

/// Calls `Url::to_file_path` and writes the path out as text. Not proved: that
/// the result is the one named by [`local_path`], a function of the URL alone.
/// A path that is not valid UTF-8 has no text and counts as none.
#[verifier::external_body]
pub(crate) fn to_local_path(uri: &Url) -> (path: Option<String>)
    ensures
        opt_text(path) == local_path(*uri),
{
    uri.to_file_path().ok().and_then(|path| path.into_os_string().into_string().ok())
}

/// The local path that a URI stands for.
pub fn file_path(text: &str) -> (path: Option<String>)
    ensures
        opt_text(path) == file_path_of(text@),
{
    match parse_uri(text) {
        Some(uri) => to_local_path(&uri),
        None => None,
    }
}

} // verus!
