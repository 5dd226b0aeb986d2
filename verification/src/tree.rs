//! A rooted tree of branches, with local (self-only) and global
//! (self plus all descendants, pre-order) lookup.

use vstd::prelude::*;

use crate::asset::Asset;
use crate::branch::{result_model, spec_get, AssetBranch};
use crate::error::{Error, ErrorKind};
use crate::paths::spec_join;
use crate::snapshot::FsSnapshot;

verus! {

/// A branch plus an ordered list of child structures.  Each child is owned
/// exclusively, so the nodes form a strict out-tree; by caller convention a
/// child's path lies under its parent's, but nothing enforces that.
pub struct AssetStructure {
    pub local: AssetBranch,
    pub children: Vec<AssetStructure>,
}

/// The zero or one matches branch `b` itself contributes to a global lookup
/// of `rel`: its joined candidate path exactly when its local lookup
/// succeeds.
pub open spec fn local_matches(b: AssetBranch, rel: Seq<char>, fs: Set<Seq<char>>) -> Seq<
    Seq<char>,
> {
    if spec_get(b, rel, fs) is Ok {
        seq![spec_join(b.path@, rel)]
    } else {
        Seq::empty()
    }
}

/// Every joined path at which `rel` resolves somewhere in `t`, in pre-order:
/// the node's own branch first, then each child's matches in child order,
/// each child's own match before those of that child's descendants.
pub open spec fn global_matches(t: AssetStructure, rel: Seq<char>, fs: Set<Seq<char>>) -> Seq<
    Seq<char>,
>
    decreases t,
{
    local_matches(t.local, rel, fs) + children_matches(t.children@, rel, fs)
}

/// The concatenation, in order, of the global matches of the trees of `cs`.
pub open spec fn children_matches(cs: Seq<AssetStructure>, rel: Seq<char>, fs: Set<Seq<char>>) -> Seq<
    Seq<char>,
>
    decreases cs,
{
    if cs.len() == 0 {
        Seq::empty()
    } else {
        global_matches(cs[0], rel, fs) + children_matches(cs.drop_first(), rel, fs)
    }
}

/// Appending one more tree to a forest appends exactly that tree's matches
/// after the forest's own.
pub proof fn lemma_children_matches_snoc(
    cs: Seq<AssetStructure>,
    t: AssetStructure,
    rel: Seq<char>,
    fs: Set<Seq<char>>,
)
    ensures
        children_matches(cs.push(t), rel, fs) == children_matches(cs, rel, fs) + global_matches(
            t,
            rel,
            fs,
        ),
    decreases cs.len(),
{
    if cs.len() == 0 {
        assert(cs.push(t)[0] == t);
        assert(cs.push(t).drop_first() =~= Seq::<AssetStructure>::empty());
        assert(children_matches(cs.push(t).drop_first(), rel, fs) == Seq::<Seq<char>>::empty());
        assert(children_matches(cs.push(t), rel, fs) =~= children_matches(cs, rel, fs)
            + global_matches(t, rel, fs));
    } else {
        assert(cs.push(t)[0] == cs[0]);
        assert(cs.push(t).drop_first() =~= cs.drop_first().push(t));
        lemma_children_matches_snoc(cs.drop_first(), t, rel, fs);
        assert(children_matches(cs.push(t), rel, fs) =~= children_matches(cs, rel, fs)
            + global_matches(t, rel, fs));
    }
}

/// With no children attached, a global lookup is exactly the local lookup:
/// it finds the lone local match when the local lookup succeeds, and nothing
/// when the local lookup fails.
pub proof fn lemma_global_without_children(t: AssetStructure, rel: Seq<char>, fs: Set<Seq<char>>)
    requires
        t.children@.len() == 0,
    ensures
        global_matches(t, rel, fs) == local_matches(t.local, rel, fs),
        spec_get(t.local, rel, fs) is Ok <==> global_matches(t, rel, fs) == seq![
            spec_join(t.local.path@, rel),
        ],
        spec_get(t.local, rel, fs) is Err <==> global_matches(t, rel, fs) == Seq::<
            Seq<char>,
        >::empty(),
{
    assert(children_matches(t.children@, rel, fs) == Seq::<Seq<char>>::empty());
    assert(global_matches(t, rel, fs) =~= local_matches(t.local, rel, fs));
    if spec_get(t.local, rel, fs) is Ok {
        assert(global_matches(t, rel, fs) =~= seq![spec_join(t.local.path@, rel)]);
        assert(global_matches(t, rel, fs).len() == 1);
    } else {
        assert(global_matches(t, rel, fs) =~= Seq::<Seq<char>>::empty());
        assert(global_matches(t, rel, fs).len() == 0);
    }
}

/// The order of a global lookup's result: the node's own match comes first,
/// and for every child, that child's matches (its own and its descendants',
/// recursively in the same order) precede those of all later siblings.
pub proof fn lemma_global_preorder(t: AssetStructure, rel: Seq<char>, fs: Set<Seq<char>>)
    ensures
        global_matches(t, rel, fs) == local_matches(t.local, rel, fs) + children_matches(
            t.children@,
            rel,
            fs,
        ),
        forall|i: int|
            0 <= i < t.children@.len() ==> #[trigger] children_matches(
                t.children@.take(i + 1),
                rel,
                fs,
            ) == children_matches(t.children@.take(i), rel, fs) + global_matches(
                t.children@[i],
                rel,
                fs,
            ),
{
    assert forall|i: int| 0 <= i < t.children@.len() implies #[trigger] children_matches(
        t.children@.take(i + 1),
        rel,
        fs,
    ) == children_matches(t.children@.take(i), rel, fs) + global_matches(
        t.children@[i],
        rel,
        fs,
    ) by {
        assert(t.children@.take(i + 1) =~= t.children@.take(i).push(t.children@[i]));
        lemma_children_matches_snoc(t.children@.take(i), t.children@[i], rel, fs);
    }
}

/// Repeated local lookups with the same arguments against unchanged
/// snapshots return identical results: the contract of `get_local` pins the
/// image of its result as a function of the node, the relative path and the
/// snapshot alone.
pub proof fn lemma_get_local_idempotent(
    t: AssetStructure,
    rel: Seq<char>,
    fs: Set<Seq<char>>,
    r1: Result<String, Error>,
    r2: Result<String, Error>,
)
    requires
        result_model(r1) == spec_get(t.local, rel, fs),
        result_model(r2) == spec_get(t.local, rel, fs),
    ensures
        result_model(r1) == result_model(r2),
{
}

/// Repeated global lookups with the same arguments against unchanged
/// snapshots return identical results: the contract of `get_global` pins the
/// image of its result as a function of the tree, the relative path and the
/// snapshot alone.
pub proof fn lemma_get_global_idempotent(
    t: AssetStructure,
    rel: Seq<char>,
    fs: Set<Seq<char>>,
    v1: Vec<String>,
    v2: Vec<String>,
)
    requires
        v1.deep_view() == global_matches(t, rel, fs),
        v2.deep_view() == global_matches(t, rel, fs),
    ensures
        v1.deep_view() == v2.deep_view(),
{
}

impl AssetStructure {
    /// Constructs a structure rooted at `path`: a freshly constructed branch
    /// there and no children.
    pub fn new(path: String, fs: &FsSnapshot) -> (t: AssetStructure)
        ensures
            t.local.path@ == path@,
            t.local.alive == fs@.contains(path@),
            t.children@.len() == 0,
    {
        AssetStructure { local: AssetBranch::new(path, fs), children: Vec::new() }
    }

    /// Attaches `child` as the last child of this node, leaving the node's
    /// own branch untouched.
    pub fn add_child(&mut self, child: AssetStructure)
        ensures
            final(self).local == old(self).local,
            final(self).children@ == old(self).children@.push(child),
    {
        self.children.push(child);
    }

    /// The local lookup: exactly what this node's own branch returns.
    pub fn get_local(&self, rel: &str, fs: &FsSnapshot) -> (r: Result<String, Error>)
        ensures
            result_model(r) == spec_get(self.local, rel@, fs@),
    {
        self.local.get(rel, fs)
    }

    /// The global lookup: the joined path of every node of the tree at which
    /// `rel` resolves, in pre-order.  The two error kinds a branch can
    /// report both mean "no match at this node", so the walk always
    /// completes and the result is always `Ok`.
    pub fn get_global(&self, rel: &str, fs: &FsSnapshot) -> (r: Result<Vec<String>, Error>)
        ensures
            r matches Ok(v) && v.deep_view() == global_matches(*self, rel@, fs@),
    {
        let mut found: Vec<String> = Vec::new();
        self.collect_global(rel, fs, &mut found);
        proof {
            assert(found.deep_view() =~= global_matches(*self, rel@, fs@));
        }
        Ok(found)
    }

    /// Walks the tree in pre-order and appends to `buffer` the joined path
    /// of every node at which `rel` resolves.  A node's `NotFound` or
    /// `NotAlive` answer means "no match at this node" and never aborts the
    /// walk; those are the only two kinds there are.
    fn collect_global(&self, rel: &str, fs: &FsSnapshot, buffer: &mut Vec<String>)
        ensures
            final(buffer).deep_view() == old(buffer).deep_view() + global_matches(
                *self,
                rel@,
                fs@,
            ),
        decreases *self,
    {
        match self.local.get(rel, fs) {
            Ok(p) => {
                buffer.push(p);
            },
            Err(e) => {
                match e.kind {
                    ErrorKind::NotFound => {},
                    ErrorKind::NotAlive => {},
                }
            },
        }
        proof {
            assert(buffer.deep_view() =~= old(buffer).deep_view() + local_matches(
                self.local,
                rel@,
                fs@,
            ));
        }
        let n: usize = self.children.len();
        let mut i: usize = 0;
        while i < n
            invariant
                n == self.children@.len(),
                0 <= i <= n,
                buffer.deep_view() == old(buffer).deep_view() + local_matches(
                    self.local,
                    rel@,
                    fs@,
                ) + children_matches(self.children@.take(i as int), rel@, fs@),
            decreases n - i,
        {
            let child = &self.children[i];
            child.collect_global(rel, fs, buffer);
            proof {
                assert(self.children@.take(i + 1) =~= self.children@.take(i as int).push(
                    self.children@[i as int],
                ));
                lemma_children_matches_snoc(
                    self.children@.take(i as int),
                    self.children@[i as int],
                    rel@,
                    fs@,
                );
                assert(buffer.deep_view() =~= old(buffer).deep_view() + local_matches(
                    self.local,
                    rel@,
                    fs@,
                ) + children_matches(self.children@.take(i + 1), rel@, fs@));
            }
            i += 1;
        }
        proof {
            assert(self.children@.take(n as int) =~= self.children@);
            assert(buffer.deep_view() =~= old(buffer).deep_view() + global_matches(
                *self,
                rel@,
                fs@,
            ));
        }
    }
}

impl Asset for AssetStructure {
    open spec fn spec_path(&self) -> Seq<char> {
        self.local.path@
    }

    open spec fn spec_alive(&self) -> bool {
        self.local.alive
    }

    fn get_path(&self) -> (p: &String) {
        self.local.get_path()
    }

    fn is_alive(&self) -> (b: bool) {
        self.local.is_alive()
    }
}

} // verus!
