//! A caller-supplied record of which paths exist.
//!
//! The library performs no filesystem access of its own.  A caller probes the
//! real directories (or any other source of truth) and records every path
//! that exists in a snapshot; the lookup functions decide everything from
//! snapshots alone.  One snapshot is consulted when a branch is constructed,
//! freezing its liveness flag, and a possibly different one at each query.

use vstd::prelude::*;

verus! {

/// A finite record of existing paths.  Its mathematical content is the set
/// of recorded paths, each as its sequence of characters.
pub struct FsSnapshot {
    entries: Vec<String>,
}

impl View for FsSnapshot {
    type V = Set<Seq<char>>;

    closed spec fn view(&self) -> Set<Seq<char>> {
        Set::new(
            |p: Seq<char>|
                exists|i: int| 0 <= i < self.entries@.len() && self.entries@[i]@ == p,
        )
    }
}

impl FsSnapshot {
    /// A snapshot in which no path exists.
    pub fn new() -> (s: FsSnapshot)
        ensures
            s@ == Set::<Seq<char>>::empty(),
    {
        let s = FsSnapshot { entries: Vec::new() };
        proof {
            assert(s@ =~= Set::<Seq<char>>::empty());
        }
        s
    }

    /// Records `path` as existing.
    pub fn insert(&mut self, path: String)
        ensures
            final(self)@ == old(self)@.insert(path@),
    {
        self.entries.push(path);
        proof {
            let oldes = old(self).entries@;
            let newes = self.entries@;
            assert forall|p: Seq<char>| self@.contains(p) implies old(
                self,
            )@.insert(path@).contains(p) by {
                let i = choose|i: int| 0 <= i < newes.len() && newes[i]@ == p;
                if i < oldes.len() {
                    assert(oldes[i]@ == p);
                } else {
                    assert(newes[i] == path);
                }
            }
            assert forall|p: Seq<char>| old(self)@.insert(path@).contains(p) implies self@.contains(
                p,
            ) by {
                if p == path@ {
                    assert(newes[oldes.len() as int]@ == p);
                } else {
                    let i = choose|i: int| 0 <= i < oldes.len() && oldes[i]@ == p;
                    assert(newes[i]@ == p);
                }
            }
            assert(self@ =~= old(self)@.insert(path@));
        }
    }

    /// Reports whether the snapshot records `path` as existing.
    pub fn contains(&self, path: &String) -> (r: bool)
        ensures
            r == self@.contains(path@),
    {
        let n: usize = self.entries.len();
        let mut i: usize = 0;
        while i < n
            invariant
                n == self.entries@.len(),
                0 <= i <= n,
                forall|j: int| 0 <= j < i ==> self.entries@[j]@ != path@,
            decreases n - i,
        {
            if self.entries[i] == *path {
                proof {
                    assert(self.entries@[i as int]@ == path@);
                }
                return true;
            }
            i += 1;
        }
        proof {
            if self@.contains(path@) {
                let k = choose|k: int|
                    0 <= k < self.entries@.len() && self.entries@[k]@ == path@;
                assert(self.entries@[k]@ != path@);
            }
        }
        false
    }
}

} // verus!
