use vo_gix::{
    classify_worktree_change, status_item, status_out, EntryState, WorktreeChange, WorktreeItem,
};

fn modification(path: &str, status: EntryState) -> WorktreeItem {
    WorktreeItem::Modification { rela_path: path.as_bytes().to_vec(), status }
}

#[test]
fn change_classes() {
    assert_eq!(classify_worktree_change(WorktreeChange::Removed), ("WT_DELETED", false, false, true));
    assert_eq!(classify_worktree_change(WorktreeChange::Type), ("WT_MODIFIED", false, true, false));
    assert_eq!(
        classify_worktree_change(WorktreeChange::Modification),
        ("WT_MODIFIED", false, true, false)
    );
    assert_eq!(
        classify_worktree_change(WorktreeChange::SubmoduleModification),
        ("WT_MODIFIED", false, true, false)
    );
}

#[test]
fn status_lines() {
    let items = vec![
        modification("a.txt", EntryState::Change(WorktreeChange::Modification)),
        modification("stale.txt", EntryState::NeedsUpdate),
        modification("gone.txt", EntryState::Change(WorktreeChange::Removed)),
        modification("both.txt", EntryState::Conflict),
        modification("intent.txt", EntryState::IntentToAdd),
        WorktreeItem::DirectoryContents { rela_path: b"new/".to_vec() },
        WorktreeItem::Rewrite { source_path: b"old.rs".to_vec(), dest_path: b"new.rs".to_vec() },
    ];
    let out = status_out(&items);
    assert_eq!(out.items.len(), 6);
    let a = &out.items[0];
    assert_eq!((a.path.as_str(), a.status.as_str()), ("a.txt", "WT_MODIFIED"));
    assert!(!a.worktree_new && a.worktree_modified && !a.worktree_deleted && !a.conflicted);
    let g = &out.items[1];
    assert_eq!((g.path.as_str(), g.status.as_str()), ("gone.txt", "WT_DELETED"));
    assert!(g.worktree_deleted && !g.worktree_modified);
    let c = &out.items[2];
    assert_eq!(c.status, "CONFLICTED");
    assert!(c.conflicted && !c.worktree_new && !c.worktree_modified && !c.worktree_deleted);
    let i = &out.items[3];
    assert_eq!((i.path.as_str(), i.status.as_str()), ("intent.txt", "WT_NEW"));
    assert!(i.worktree_new);
    let d = &out.items[4];
    assert_eq!((d.path.as_str(), d.status.as_str()), ("new/", "WT_NEW"));
    assert!(d.worktree_new && !d.worktree_modified);
    let r = &out.items[5];
    assert_eq!((r.path.as_str(), r.status.as_str()), ("old.rs -> new.rs", "RENAMED"));
    assert!(r.worktree_new && r.worktree_modified && !r.worktree_deleted && !r.conflicted);
    for l in &out.items {
        assert!(!l.index_new && !l.index_modified && !l.index_deleted);
    }
}

#[test]
fn stale_entry_is_left_out() {
    assert!(status_item(&modification("x", EntryState::NeedsUpdate)).is_none());
    assert!(status_out(&vec![modification("x", EntryState::NeedsUpdate)]).items.is_empty());
    assert!(status_out(&Vec::new()).items.is_empty());
}

#[test]
fn paths_converted_lossily() {
    let item = WorktreeItem::DirectoryContents { rela_path: vec![b'd', 0xc3, b'/'] };
    assert_eq!(status_item(&item).unwrap().path, "d\u{fffd}/");
    let item = WorktreeItem::Rewrite {
        source_path: "\u{e9}t\u{e9}".as_bytes().to_vec(),
        dest_path: vec![0xff],
    };
    assert_eq!(status_item(&item).unwrap().path, "\u{e9}t\u{e9} -> \u{fffd}");
}
