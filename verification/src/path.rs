//! Paths given by the user, as they are once a leading `~` is expanded.

use crate::operator::tilde_expansion;
use vstd::prelude::*;

verus! {

/// A path after tilde expansion, together with the path it was expanded
/// from. Its fields are private and [`expand_tilde`] is the only function
/// that makes one, so the path it holds is what the expansion gave for its
/// source.
pub struct ExpandedPath {
    source: Ghost<Seq<char>>,
    path: String,
}

impl ExpandedPath {
    /// The path as it was given, before expansion.
    pub closed spec fn source(&self) -> Seq<char> {
        self.source@
    }

    /// The path after expansion.
    pub closed spec fn expanded(&self) -> Seq<char> {
        self.path@
    }

    /// The path after expansion.
    pub fn as_string(&self) -> (r: &String)
        ensures
            r@ == self.expanded(),
    {
        &self.path
    }
}

/// Expands a leading `~` to the home directory (`shellexpand::tilde`) and
/// keeps the given path as the source of the result. The home directory is
/// read from the environment, so all that is stated of the expanded path is
/// which outputs are possible for the input.
#[verifier::external_body]
pub(crate) fn expand_tilde(path: &String) -> (r: ExpandedPath)
    ensures
        r.source() == path@,
        tilde_expansion(path@, r.expanded()),
{
    ExpandedPath { source: Ghost(path@), path: shellexpand::tilde(path.as_str()).to_string() }
}

} // verus!
