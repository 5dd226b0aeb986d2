//! A two-tier filesystem-path lookup helper.
//!
//! A [`branch::AssetBranch`] wraps one directory path together with a liveness
//! flag frozen at construction time; a [`tree::AssetStructure`] is a branch
//! plus an ordered list of child structures, mirroring a chosen subset of a
//! real directory hierarchy.  A local lookup joins a relative path onto one
//! branch and asks whether the joined path exists; a global lookup collects,
//! in pre-order, the joined path of every node of the tree at which the same
//! lookup succeeds.
//!
//! The library itself performs no filesystem access.  Callers report which
//! paths exist through a [`snapshot::FsSnapshot`] value: one snapshot is
//! consulted when a branch is constructed (freezing its liveness flag) and a
//! possibly different one at each query (the per-query existence check), which
//! is exactly the two-tier freshness model the contracts state.

pub mod asset;
pub mod branch;
pub mod error;
pub mod paths;
pub mod snapshot;
pub mod tree;
