//! The interface every node of the hierarchy answers: its own path and its
//! liveness flag frozen at construction.

use vstd::prelude::*;

verus! {

/// A directory node that knows its own path and whether that path existed
/// when the node was constructed.
pub trait Asset {
    /// The characters of the node's own path.
    spec fn spec_path(&self) -> Seq<char>;

    /// The liveness flag frozen when the node was constructed.
    spec fn spec_alive(&self) -> bool;

    /// Returns the node's own path, borrowed.
    fn get_path(&self) -> (p: &String)
        ensures
            p@ == self.spec_path(),
    ;

    /// Returns the liveness flag frozen at construction.
    fn is_alive(&self) -> (b: bool)
        ensures
            b == self.spec_alive(),
    ;
}

} // verus!
