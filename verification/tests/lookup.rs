use asset_structure::asset::Asset;
use asset_structure::branch::AssetBranch;
use asset_structure::error::{Error, ErrorKind};
use asset_structure::paths::join;
use asset_structure::snapshot::FsSnapshot;
use asset_structure::tree::AssetStructure;

fn snap(paths: &[&str]) -> FsSnapshot {
    let mut fs = FsSnapshot::new();
    for p in paths {
        fs.insert(p.to_string());
    }
    fs
}

#[test]
fn local_child_found() {
    let fs = snap(&["d", "d/child"]);
    let t = AssetStructure::new("d".to_string(), &fs);
    assert!(t.is_alive());
    assert_eq!(t.get_local("child", &fs).unwrap(), "d/child");
    let g = t.get_global("child", &fs).unwrap();
    assert_eq!(g, vec!["d/child".to_string()]);
}

#[test]
fn grandchild_is_not_a_local_child() {
    let fs = snap(&["d", "d/child", "d/child/childchild"]);
    let t = AssetStructure::new("d".to_string(), &fs);
    let e = t.get_local("childchild", &fs).unwrap_err();
    assert_eq!(e.kind, ErrorKind::NotFound);
    // With no children attached, the global lookup checks only the root
    // branch, whose own join d/childchild does not exist either.
    let g = t.get_global("childchild", &fs).unwrap();
    assert!(g.is_empty());
}

#[test]
fn global_without_children_equals_local() {
    let fs = snap(&["d", "d/child"]);
    let t = AssetStructure::new("d".to_string(), &fs);
    for rel in ["child", "missing"] {
        let global = t.get_global(rel, &fs).unwrap();
        match t.get_local(rel, &fs) {
            Ok(p) => assert_eq!(global, vec![p]),
            Err(_) => assert!(global.is_empty()),
        }
    }
}

#[test]
fn dead_root_stays_dead() {
    // The root's path is missing when the tree is constructed; the liveness
    // flag is frozen false, so lookups fail NotAlive even though both the
    // root and the target exist at query time.
    let before = snap(&[]);
    let t = AssetStructure::new("d".to_string(), &before);
    assert!(!t.is_alive());
    let after = snap(&["d", "d/child"]);
    let e = t.get_local("child", &after).unwrap_err();
    assert_eq!(e.kind, ErrorKind::NotAlive);
    let g = t.get_global("child", &after).unwrap();
    assert!(g.is_empty());
}

#[test]
fn stale_alive_flag_is_not_refreshed() {
    // The root existed at construction, so the frozen flag stays true; a
    // later deletion shows up only in the per-query check, as NotFound.
    let before = snap(&["d", "d/child"]);
    let t = AssetStructure::new("d".to_string(), &before);
    assert!(t.is_alive());
    let after = snap(&[]);
    let e = t.get_local("child", &after).unwrap_err();
    assert_eq!(e.kind, ErrorKind::NotFound);
}

#[test]
fn global_is_preorder() {
    let fs = snap(&[
        "d",
        "d/a",
        "d/a/c",
        "d/b",
        "d/x",
        "d/a/x",
        "d/a/c/x",
        "d/b/x",
    ]);
    let mut a = AssetStructure::new("d/a".to_string(), &fs);
    let c = AssetStructure::new("d/a/c".to_string(), &fs);
    a.add_child(c);
    let b = AssetStructure::new("d/b".to_string(), &fs);
    let mut root = AssetStructure::new("d".to_string(), &fs);
    root.add_child(a);
    root.add_child(b);
    let g = root.get_global("x", &fs).unwrap();
    assert_eq!(
        g,
        vec![
            "d/x".to_string(),
            "d/a/x".to_string(),
            "d/a/c/x".to_string(),
            "d/b/x".to_string(),
        ]
    );
}

#[test]
fn repeated_lookups_agree() {
    let fs = snap(&["d", "d/child"]);
    let t = AssetStructure::new("d".to_string(), &fs);
    assert_eq!(
        t.get_local("child", &fs).unwrap(),
        t.get_local("child", &fs).unwrap()
    );
    assert_eq!(
        t.get_global("child", &fs).unwrap(),
        t.get_global("child", &fs).unwrap()
    );
    let e1 = t.get_local("missing", &fs).unwrap_err();
    let e2 = t.get_local("missing", &fs).unwrap_err();
    assert_eq!(e1.kind, e2.kind);
    assert_eq!(e1.msg, e2.msg);
}

#[test]
fn path_round_trips_through_construction() {
    let fs = snap(&["some/dir"]);
    let t = AssetStructure::new("some/dir".to_string(), &fs);
    assert_eq!(t.get_path(), "some/dir");
    let b = AssetBranch::new("other/dir".to_string(), &fs);
    assert_eq!(b.get_path(), "other/dir");
    assert!(!b.is_alive());
}

#[test]
fn branch_lookup_and_messages() {
    let fs = snap(&["d", "d/child"]);
    let b = AssetBranch::new("d".to_string(), &fs);
    assert_eq!(b.get("child", &fs).unwrap(), "d/child");
    let e = b.get("missing", &fs).unwrap_err();
    assert_eq!(e.kind, ErrorKind::NotFound);
    assert_eq!(e.msg, "This branch was not found: d/missing");
    let dead = AssetBranch::new("gone".to_string(), &fs);
    let e = dead.get("child", &fs).unwrap_err();
    assert_eq!(e.kind, ErrorKind::NotAlive);
    assert_eq!(e.msg, "This branch is not alive: gone");
}

#[test]
fn error_new_keeps_kind_and_message() {
    let e = Error::new(ErrorKind::NotFound, "nothing here");
    assert_eq!(e.kind, ErrorKind::NotFound);
    assert_eq!(e.msg, "nothing here");
}

#[test]
fn join_handles_edges() {
    assert_eq!(join("a", "b"), "a/b");
    assert_eq!(join("a/", "b"), "a/b");
    assert_eq!(join("", "b"), "b");
    assert_eq!(join("a", "/b"), "/b");
    assert_eq!(join("a", ""), "a/");
}

#[test]
fn snapshot_records_exactly_what_was_inserted() {
    let mut fs = FsSnapshot::new();
    assert!(!fs.contains(&"d".to_string()));
    fs.insert("d".to_string());
    assert!(fs.contains(&"d".to_string()));
    assert!(!fs.contains(&"d/child".to_string()));
}
