//! The loaded ownership index: the rules of one manifest, as the resolver holds
//! them, and the one question that is put to them.

use vstd::prelude::*;
use codeowners::Owners;
use crate::text::texts;

verus! {

/// `codeowners::Owners`, the parsed rules of one manifest. Its inside is not
/// read here: a value is built outside and only carried and asked.
#[verifier::external_type_specification]
#[verifier::external_body]
pub struct ExOwners(codeowners::Owners);

/// What `Owners::of` answers when `rules` is asked for `path`: the owners of
/// the rule that the resolver picks, each as the text it displays as, or `None`
/// where the resolver finds no rule for the path.
pub uninterp spec fn resolved(rules: Owners, path: Seq<char>) -> Option<Seq<Seq<char>>>;

/// Calls `Owners::of` and writes each owner out with its `Display`. Not proved:
/// that the answer is the one named by [`resolved`], which says only that it
/// depends on the rules and the path and on nothing else.
#[verifier::external_body]
fn resolve(rules: &Owners, path: &str) -> (found: Option<Vec<String>>)
    ensures
        found matches Some(names) ==> resolved(*rules, path@) == Some(texts(names@)),
        found is None ==> resolved(*rules, path@) is None,
{
    rules.of(path).map(|owners| owners.iter().map(|owner| owner.to_string()).collect())
}

/// An ownership index: frozen once built, asked any number of times.
pub struct OwnershipIndex {
    rules: Owners,
}

impl OwnershipIndex {
    /// The owners that the index gives for a path relative to the repository
    /// root, in the manifest's order; `None` where no rule applies.
    pub closed spec fn owners_of(&self, path: Seq<char>) -> Option<Seq<Seq<char>>> {
        resolved(self.rules, path)
    }

    /// Wraps the rules that the resolver parsed from a manifest.
    pub fn new(rules: Owners) -> (index: Self)
        ensures
            forall|path: Seq<char>| #[trigger] index.owners_of(path) == resolved(rules, path),
    {
        OwnershipIndex { rules }
    }

    /// Asks the index for the owners of `path`.
    pub fn lookup(&self, path: &str) -> (found: Option<Vec<String>>)
        ensures
            found matches Some(names) ==> self.owners_of(path@) == Some(texts(names@)),
            found is None ==> self.owners_of(path@) is None,
    {
        resolve(&self.rules, path)
    }
}

} // verus!
