//! A single directory node: a path plus a liveness flag, and the local
//! lookup gated by it.

use vstd::prelude::*;

use crate::asset::Asset;
use crate::error::{Error, ErrorKind, ErrorModel};
use crate::paths::{join, spec_join};
use crate::snapshot::FsSnapshot;

verus! {

/// One directory node.  `path` is owned and immutable after construction;
/// `alive` records whether `path` existed in the snapshot consulted at
/// construction time, and is never refreshed.
pub struct AssetBranch {
    pub path: String,
    pub alive: bool,
}

/// The message of a `NotAlive` error for a branch whose own path is `p`.
pub open spec fn not_alive_msg(p: Seq<char>) -> Seq<char> {
    "This branch is not alive: "@ + p
}

/// The message of a `NotFound` error for the joined candidate path `p`.
pub open spec fn not_found_msg(p: Seq<char>) -> Seq<char> {
    "This branch was not found: "@ + p
}

/// What a local lookup on branch `b` returns for `rel`, with `fs` the set of
/// paths existing at query time: `NotAlive` when the branch's own path did
/// not exist at construction, else `NotFound` when the joined candidate is
/// not in `fs`, else the joined candidate.
pub open spec fn spec_get(b: AssetBranch, rel: Seq<char>, fs: Set<Seq<char>>) -> Result<
    Seq<char>,
    ErrorModel,
> {
    let joined = spec_join(b.path@, rel);
    if !b.alive {
        Err(ErrorModel { kind: ErrorKind::NotAlive, msg: not_alive_msg(b.path@) })
    } else if !fs.contains(joined) {
        Err(ErrorModel { kind: ErrorKind::NotFound, msg: not_found_msg(joined) })
    } else {
        Ok(joined)
    }
}

/// The mathematical image of a lookup result: the path's characters on
/// success, the error's image on failure.
pub open spec fn result_model(r: Result<String, Error>) -> Result<Seq<char>, ErrorModel> {
    match r {
        Ok(p) => Ok(p@),
        Err(e) => Err(e@),
    }
}

/// A branch whose own path was missing at construction answers `NotAlive`
/// for every relative path and against every query-time snapshot — even one
/// in which the branch's path and the joined candidate both exist.  The
/// frozen flag, not the filesystem of query time, decides.
pub proof fn lemma_dead_branch_always_not_alive(b: AssetBranch, rel: Seq<char>, fs: Set<Seq<char>>)
    requires
        !b.alive,
    ensures
        spec_get(b, rel, fs) == Err::<Seq<char>, ErrorModel>(
            ErrorModel { kind: ErrorKind::NotAlive, msg: not_alive_msg(b.path@) },
        ),
{
}

impl AssetBranch {
    /// Constructs a branch at `path`, freezing as its liveness flag whether
    /// `path` exists in `fs`.
    pub fn new(path: String, fs: &FsSnapshot) -> (b: AssetBranch)
        ensures
            b.path@ == path@,
            b.alive == fs@.contains(path@),
    {
        let alive = fs.contains(&path);
        AssetBranch { path, alive }
    }

    /// The local lookup: joins `rel` onto this branch's path and returns the
    /// joined path exactly when the branch was alive at construction and the
    /// joined path exists in `fs`, the snapshot of query time.
    pub fn get(&self, rel: &str, fs: &FsSnapshot) -> (r: Result<String, Error>)
        ensures
            result_model(r) == spec_get(*self, rel@, fs@),
    {
        if !self.alive {
            let mut m = String::from_str("This branch is not alive: ");
            m.append(self.path.as_str());
            return Err(Error::new(ErrorKind::NotAlive, m.as_str()));
        }
        let joined = join(self.path.as_str(), rel);
        if !fs.contains(&joined) {
            let mut m = String::from_str("This branch was not found: ");
            m.append(joined.as_str());
            return Err(Error::new(ErrorKind::NotFound, m.as_str()));
        }
        Ok(joined)
    }
}

impl Asset for AssetBranch {
    open spec fn spec_path(&self) -> Seq<char> {
        self.path@
    }

    open spec fn spec_alive(&self) -> bool {
        self.alive
    }

    fn get_path(&self) -> (p: &String) {
        &self.path
    }

    fn is_alive(&self) -> (b: bool) {
        self.alive
    }
}

} // verus!
