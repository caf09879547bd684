use vstd::prelude::*;

use crate::lossy::{lossy_text, text_of_bytes};

verus! {

broadcast use vstd::string::group_string_axioms;

/// How a tracked file in the working tree differs from its index entry.
#[derive(Clone, Copy, Debug, PartialEq, Eq, Structural)]
pub enum WorktreeChange {
    /// The file is gone from the working tree.
    Removed,
    /// The kind of file changed (say, a symlink became a regular file).
    Type,
    /// The content or the executable bit changed.
    Modification,
    /// A checked-out submodule is modified.
    SubmoduleModification,
}

/// The state of an index entry as compared with the working tree.
#[derive(Clone, Copy, Debug, PartialEq, Eq, Structural)]
pub enum EntryState {
    /// The entry is in conflict.
    Conflict,
    /// Nothing changed; only the entry's cached stat is stale.
    NeedsUpdate,
    /// The entry was added with `--intent-to-add`.
    IntentToAdd,
    /// The working tree file changed.
    Change(WorktreeChange),
}

/// One item of the index-to-working-tree comparison, with its paths as
/// raw bytes, relative to the working tree.
#[derive(Clone, Debug, PartialEq, Eq)]
pub enum WorktreeItem {
    /// A tracked file, and how it compares with its index entry.
    Modification { rela_path: Vec<u8>, status: EntryState },
    /// An untracked file or directory found by the directory walk.
    DirectoryContents { rela_path: Vec<u8> },
    /// A tracked file that reappears, renamed, as an untracked one.
    Rewrite { source_path: Vec<u8>, dest_path: Vec<u8> },
}

/// One line of the status report.
#[derive(Clone, Debug, PartialEq, Eq)]
pub struct StatusItemOut {
    pub path: String,
    pub status: String,
    pub index_new: bool,
    pub index_modified: bool,
    pub index_deleted: bool,
    pub worktree_new: bool,
    pub worktree_modified: bool,
    pub worktree_deleted: bool,
    pub conflicted: bool,
}

/// The status report.
#[derive(Clone, Debug, PartialEq, Eq)]
pub struct StatusOut {
    pub items: Vec<StatusItemOut>,
}

/// [`StatusItemOut`] with its texts taken by their views.
pub struct StatusItemModel {
    pub path: Seq<char>,
    pub status: Seq<char>,
    pub index_new: bool,
    pub index_modified: bool,
    pub index_deleted: bool,
    pub worktree_new: bool,
    pub worktree_modified: bool,
    pub worktree_deleted: bool,
    pub conflicted: bool,
}

impl View for StatusItemOut {
    type V = StatusItemModel;

    open spec fn view(&self) -> StatusItemModel {
        StatusItemModel {
            path: self.path@,
            status: self.status@,
            index_new: self.index_new,
            index_modified: self.index_modified,
            index_deleted: self.index_deleted,
            worktree_new: self.worktree_new,
            worktree_modified: self.worktree_modified,
            worktree_deleted: self.worktree_deleted,
            conflicted: self.conflicted,
        }
    }
}

/// The label of a working-tree change and its flags: new, modified, deleted.
pub open spec fn change_class(change: WorktreeChange) -> (Seq<char>, bool, bool, bool) {
    match change {
        WorktreeChange::Removed => ("WT_DELETED"@, false, false, true),
        _ => ("WT_MODIFIED"@, false, true, false),
    }
}

/// A report line that sets only working-tree flags and the conflict flag.
pub open spec fn worktree_line(
    path: Seq<char>,
    label: Seq<char>,
    new: bool,
    modified: bool,
    deleted: bool,
    conflicted: bool,
) -> StatusItemModel {
    StatusItemModel {
        path,
        status: label,
        index_new: false,
        index_modified: false,
        index_deleted: false,
        worktree_new: new,
        worktree_modified: modified,
        worktree_deleted: deleted,
        conflicted,
    }
}

/// The report line of one item, or `None` for an item that is left out
/// (an entry whose only change is a stale stat). Paths are converted to
/// text; a rename is shown as `source -> destination`.
pub open spec fn item_report(item: WorktreeItem) -> Option<StatusItemModel> {
    match item {
        WorktreeItem::Modification { rela_path, status } => match status {
            EntryState::Conflict => Some(
                worktree_line(lossy_text(rela_path@), "CONFLICTED"@, false, false, false, true),
            ),
            EntryState::NeedsUpdate => None,
            EntryState::IntentToAdd => Some(
                worktree_line(lossy_text(rela_path@), "WT_NEW"@, true, false, false, false),
            ),
            EntryState::Change(c) => {
                let (label, new, modified, deleted) = change_class(c);
                Some(worktree_line(lossy_text(rela_path@), label, new, modified, deleted, false))
            },
        },
        WorktreeItem::DirectoryContents { rela_path } => Some(
            worktree_line(lossy_text(rela_path@), "WT_NEW"@, true, false, false, false),
        ),
        WorktreeItem::Rewrite { source_path, dest_path } => Some(
            worktree_line(
                lossy_text(source_path@) + " -> "@ + lossy_text(dest_path@),
                "RENAMED"@,
                true,
                true,
                false,
                false,
            ),
        ),
    }
}

/// The report lines of a sequence of items, in order, skipping those left
/// out.
pub open spec fn status_report(items: Seq<WorktreeItem>) -> Seq<StatusItemModel>
    decreases items.len(),
{
    if items.len() == 0 {
        Seq::empty()
    } else {
        let rest = status_report(items.drop_last());
        match item_report(items.last()) {
            Some(line) => rest.push(line),
            None => rest,
        }
    }
}

/// Classifies a working-tree change: its label, and whether it makes the
/// file new, modified or deleted.
pub fn classify_worktree_change(change: WorktreeChange) -> (r: (&'static str, bool, bool, bool))
    ensures
        (r.0@, r.1, r.2, r.3) == change_class(change),
{
    match change {
        WorktreeChange::Removed => ("WT_DELETED", false, false, true),
        WorktreeChange::Type => ("WT_MODIFIED", false, true, false),
        WorktreeChange::Modification => ("WT_MODIFIED", false, true, false),
        WorktreeChange::SubmoduleModification => ("WT_MODIFIED", false, true, false),
    }
}

fn line(
    path: String,
    label: &str,
    new: bool,
    modified: bool,
    deleted: bool,
    conflicted: bool,
) -> (out: StatusItemOut)
    ensures
        out@ == worktree_line(path@, label@, new, modified, deleted, conflicted),
{
    StatusItemOut {
        path,
        status: String::from_str(label),
        index_new: false,
        index_modified: false,
        index_deleted: false,
        worktree_new: new,
        worktree_modified: modified,
        worktree_deleted: deleted,
        conflicted,
    }
}

/// The report line of one item, or `None` where it is left out.
pub fn status_item(item: &WorktreeItem) -> (r: Option<StatusItemOut>)
    ensures
        match r {
            Some(out) => item_report(*item) == Some(out@),
            None => item_report(*item) is None,
        },
{
    match item {
        WorktreeItem::Modification { rela_path, status } => match status {
            EntryState::Conflict => Some(
                line(text_of_bytes(rela_path.as_slice()), "CONFLICTED", false, false, false, true),
            ),
            EntryState::NeedsUpdate => None,
            EntryState::IntentToAdd => Some(
                line(text_of_bytes(rela_path.as_slice()), "WT_NEW", true, false, false, false),
            ),
            EntryState::Change(change) => {
                let (label, new, modified, deleted) = classify_worktree_change(*change);
                Some(line(text_of_bytes(rela_path.as_slice()), label, new, modified, deleted, false))
            },
        },
        WorktreeItem::DirectoryContents { rela_path } => Some(
            line(text_of_bytes(rela_path.as_slice()), "WT_NEW", true, false, false, false),
        ),
        WorktreeItem::Rewrite { source_path, dest_path } => {
            let mut path = text_of_bytes(source_path.as_slice());
            path.append(" -> ");
            path.append(text_of_bytes(dest_path.as_slice()).as_str());
            Some(line(path, "RENAMED", true, true, false, false))
        },
    }
}

/// Builds the status report from the items of the comparison, in the order
/// read.
pub fn status_out(items: &Vec<WorktreeItem>) -> (out: StatusOut)
    ensures
        out.items@.map_values(|o: StatusItemOut| o@) == status_report(items@),
{
    let mut lines: Vec<StatusItemOut> = Vec::new();
    let mut i: usize = 0;
    while i < items.len()
        invariant
            i <= items.len(),
            lines@.map_values(|o: StatusItemOut| o@) == status_report(items@.take(i as int)),
        decreases items.len() - i,
    {
        proof {
            assert(items@.take(i + 1).drop_last() =~= items@.take(i as int));
        }
        match status_item(&items[i]) {
            Some(l) => {
                lines.push(l);
            },
            None => {},
        }
        i = i + 1;
        proof {
            assert(lines@.map_values(|o: StatusItemOut| o@) =~= status_report(items@.take(i as int)));
        }
    }
    proof {
        assert(items@.take(items@.len() as int) =~= items@);
    }
    StatusOut { items: lines }
}

/// An entry whose only change is a stale stat adds no line to the report.
pub proof fn law_stale_entry_left_out(items: Seq<WorktreeItem>, rela_path: Vec<u8>)
    ensures
        status_report(
            items.push(WorktreeItem::Modification { rela_path, status: EntryState::NeedsUpdate }),
        ) == status_report(items),
{
    let longer = items.push(
        WorktreeItem::Modification { rela_path, status: EntryState::NeedsUpdate },
    );
    assert(longer.drop_last() =~= items);
}

/// Every item other than a stale entry adds exactly one line, at the end.
pub proof fn law_reported_item_adds_line(items: Seq<WorktreeItem>, item: WorktreeItem)
    requires
        !(item matches WorktreeItem::Modification { status: EntryState::NeedsUpdate, .. }),
    ensures
        status_report(items.push(item)) == status_report(items).push(item_report(item)->Some_0),
{
    assert(items.push(item).drop_last() =~= items);
}

/// The report has at most one line per item, and no line sets an index flag:
/// the report speaks of the working tree only; a conflicted line is labelled
/// as such.
pub proof fn law_status_lines(items: Seq<WorktreeItem>)
    ensures
        status_report(items).len() <= items.len(),
        forall|i: int|
            0 <= i < status_report(items).len() ==> {
                let l = #[trigger] status_report(items)[i];
                &&& !l.index_new && !l.index_modified && !l.index_deleted
                &&& l.conflicted ==> l.status == "CONFLICTED"@
            },
    decreases items.len(),
{
    if items.len() > 0 {
        law_status_lines(items.drop_last());
    }
}

/// What each item of the comparison reports, flag by flag: only an entry
/// whose only change is a stale stat is left out; no line sets an index
/// flag; a line is flagged deleted exactly for a tracked file removed from
/// the working tree, conflicted exactly for a conflicted entry, new exactly
/// for an untracked file, an intent-to-add entry or a rename, and modified
/// exactly for a rename or a tracked file changed in any way but removal.
pub proof fn law_status_item_flags(item: WorktreeItem)
    ensures
        item_report(item) is None <==> (item matches WorktreeItem::Modification {
            status: EntryState::NeedsUpdate,
            ..
        }),
        item_report(item) matches Some(l) ==> {
            &&& !l.index_new && !l.index_modified && !l.index_deleted
            &&& l.worktree_deleted <==> (item matches WorktreeItem::Modification {
                status: EntryState::Change(WorktreeChange::Removed),
                ..
            })
            &&& l.conflicted <==> (item matches WorktreeItem::Modification {
                status: EntryState::Conflict,
                ..
            })
            &&& l.worktree_new <==> (item is DirectoryContents || item is Rewrite || (
            item matches WorktreeItem::Modification { status: EntryState::IntentToAdd, .. }))
            &&& l.worktree_modified <==> (item is Rewrite || (item matches WorktreeItem::Modification {
                status: EntryState::Change(c),
                ..
            } && c != WorktreeChange::Removed))
        },
{
}

/// The label and path of each reported line: a tracked file's path as
/// text, labelled CONFLICTED, WT_NEW (intent to add), WT_DELETED (removed)
/// or WT_MODIFIED (any other change); an untracked file's path labelled
/// WT_NEW; a rename shown as `source -> destination`, labelled RENAMED.
pub proof fn law_status_item_labels(item: WorktreeItem)
    ensures
        match item {
            WorktreeItem::Modification { rela_path, status } => match status {
                EntryState::NeedsUpdate => item_report(item) is None,
                EntryState::Conflict => item_report(item) matches Some(l) && l.path == lossy_text(
                    rela_path@,
                ) && l.status == "CONFLICTED"@,
                EntryState::IntentToAdd => item_report(item) matches Some(l) && l.path
                    == lossy_text(rela_path@) && l.status == "WT_NEW"@,
                EntryState::Change(WorktreeChange::Removed) => item_report(item) matches Some(l)
                    && l.path == lossy_text(rela_path@) && l.status == "WT_DELETED"@,
                EntryState::Change(_) => item_report(item) matches Some(l) && l.path == lossy_text(
                    rela_path@,
                ) && l.status == "WT_MODIFIED"@,
            },
            WorktreeItem::DirectoryContents { rela_path } => item_report(item) matches Some(l)
                && l.path == lossy_text(rela_path@) && l.status == "WT_NEW"@,
            WorktreeItem::Rewrite { source_path, dest_path } => item_report(item) matches Some(l)
                && l.path == lossy_text(source_path@) + " -> "@ + lossy_text(dest_path@)
                && l.status == "RENAMED"@,
        },
{
}

/// An untracked file is reported as new, and as nothing else.
pub proof fn law_untracked_file_is_new(rela_path: Vec<u8>)
    ensures
        item_report(WorktreeItem::DirectoryContents { rela_path }) == Some(
            StatusItemModel {
                path: lossy_text(rela_path@),
                status: "WT_NEW"@,
                index_new: false,
                index_modified: false,
                index_deleted: false,
                worktree_new: true,
                worktree_modified: false,
                worktree_deleted: false,
                conflicted: false,
            },
        ),
{
}

} // verus!
