use vstd::prelude::*;
use vstd::std_specs::iter::IteratorSpec;

use crate::error::{ErrorModel, GixError};
use crate::lossy::{lossy_text, text_of_bytes};

verus! {

broadcast use vstd::string::group_string_axioms;

/// The position of the first line feed in `s` at or after `from`, or the
/// length of `s` where there is none.
pub open spec fn line_break_index(s: Seq<char>, from: int) -> int
    decreases s.len() - from,
{
    if from < 0 || from >= s.len() {
        s.len() as int
    } else if s[from] == '\n' {
        from
    } else {
        line_break_index(s, from + 1)
    }
}

/// The first line of a text, as `str::lines` yields it: everything before
/// the first line feed, less a carriage return right before that line feed;
/// the whole text where it has no line feed; empty for an empty text.
pub open spec fn first_line(s: Seq<char>) -> Seq<char> {
    let k = line_break_index(s, 0);
    if k < s.len() && k > 0 && s[k - 1] == '\r' {
        s.take(k - 1)
    } else {
        s.take(k)
    }
}

/// Where the search for a line feed from `from` ends: at the first line
/// feed at or after `from`, or at the end.
pub proof fn lemma_line_break_index(s: Seq<char>, from: int)
    requires
        0 <= from <= s.len(),
    ensures
        from <= line_break_index(s, from) <= s.len(),
        forall|j: int| from <= j < line_break_index(s, from) ==> s[j] != '\n',
        line_break_index(s, from) < s.len() ==> s[line_break_index(s, from)] == '\n',
    decreases s.len() - from,
{
    if from < s.len() && s[from] != '\n' {
        lemma_line_break_index(s, from + 1);
    }
}

/// The summary of a message is a prefix of it, holds no line feed, and is
/// the whole message where the message holds none.
pub proof fn law_summary_is_first_line(s: Seq<char>)
    ensures
        first_line(s).len() <= s.len(),
        first_line(s) == s.take(first_line(s).len() as int),
        forall|i: int| 0 <= i < first_line(s).len() ==> first_line(s)[i] != '\n',
        (forall|i: int| 0 <= i < s.len() ==> s[i] != '\n') ==> first_line(s) == s,
{
    lemma_line_break_index(s, 0);
    let k = line_break_index(s, 0);
    if forall|i: int| 0 <= i < s.len() ==> s[i] != '\n' {
        if k < s.len() {
            assert(s[k] == '\n');
        }
        assert(s.take(k) =~= s);
    }
}

/// How the first line of a text is cut: for a text `s` free of line feeds,
/// `s` is its own first line, and `s` followed by a line feed and anything
/// has `s` as its first line, less one carriage return at its end.
pub proof fn law_first_line_cut(s: Seq<char>, rest: Seq<char>)
    requires
        forall|i: int| 0 <= i < s.len() ==> s[i] != '\n',
    ensures
        first_line(s) == s,
        first_line(s + seq!['\n'] + rest) == (if s.len() > 0 && s.last() == '\r' {
            s.drop_last()
        } else {
            s
        }),
{
    law_summary_is_first_line(s);
    let t = s + seq!['\n'] + rest;
    lemma_line_break_index(t, 0);
    let k = line_break_index(t, 0);
    assert(t[s.len() as int] == '\n');
    if k < s.len() {
        assert(t[k] == s[k]);
    }
    assert(k == s.len());
    assert(t.take(k) =~= s);
    if s.len() > 0 {
        assert(t.take(k - 1) =~= s.drop_last());
    }
}

/// The summary of a commit message: its first line, or an empty text for an
/// empty message.
pub fn summary_line(message: &str) -> (line: String)
    ensures
        line@ == first_line(message@),
{
    let n = message.unicode_len();
    let mut chars = message.chars();
    let mut i: usize = 0;
    let mut prev_cr = false;
    let mut found = false;
    loop
        invariant_except_break
            !found,
            n == message@.len(),
            chars.obeys_prophetic_iter_laws(),
            chars.remaining() == message@.skip(i as int),
            i <= message@.len(),
            line_break_index(message@, 0) == line_break_index(message@, i as int),
            prev_cr == (i > 0 && message@[i - 1] == '\r'),
        ensures
            found ==> i < message@.len() && message@[i as int] == '\n',
            !found ==> i == message@.len(),
            line_break_index(message@, 0) == i,
            prev_cr == (i > 0 && message@[i - 1] == '\r'),
        decreases message@.len() - i,
    {
        match chars.next() {
            Some(c) => {
                if c == '\n' {
                    found = true;
                    break;
                }
                prev_cr = c == '\r';
                i = i + 1;
            },
            None => {
                break;
            },
        }
    }
    let end = if found && prev_cr {
        i - 1
    } else {
        i
    };
    String::from_str(message.substring_char(0, end))
}


/// What the repository gives of one commit: the message as raw bytes, the
/// rest already converted to text.
#[derive(Clone, Debug, PartialEq, Eq)]
pub struct CommitRecord {
    /// The commit's object id in hex.
    pub id: String,
    /// The raw message bytes.
    pub message: Vec<u8>,
    pub author_name: String,
    pub author_email: String,
    /// The author time, in seconds since the Unix epoch.
    pub time_unix: i64,
}

/// One commit as the caller receives it.
#[derive(Clone, Debug, PartialEq, Eq)]
pub struct CommitOut {
    pub id: String,
    pub summary: String,
    pub author_name: String,
    pub author_email: String,
    pub time_unix: i64,
}

/// [`CommitOut`] with its texts taken by their views.
pub struct CommitModel {
    pub id: Seq<char>,
    pub summary: Seq<char>,
    pub author_name: Seq<char>,
    pub author_email: Seq<char>,
    pub time_unix: i64,
}

impl View for CommitOut {
    type V = CommitModel;

    open spec fn view(&self) -> CommitModel {
        CommitModel {
            id: self.id@,
            summary: self.summary@,
            author_name: self.author_name@,
            author_email: self.author_email@,
            time_unix: self.time_unix,
        }
    }
}

/// The report of a commit: its fields as read, with the message converted
/// to text and cut down to its first line.
pub open spec fn commit_report(rec: CommitRecord) -> CommitModel {
    CommitModel {
        id: rec.id@,
        summary: first_line(lossy_text(rec.message@)),
        author_name: rec.author_name@,
        author_email: rec.author_email@,
        time_unix: rec.time_unix,
    }
}

/// A commit's report keeps its id, author and time exactly as read, and
/// its summary is the first line of its message.
pub proof fn law_commit_report_keeps_fields(rec: CommitRecord)
    ensures
        commit_report(rec).id == rec.id@,
        commit_report(rec).author_name == rec.author_name@,
        commit_report(rec).author_email == rec.author_email@,
        commit_report(rec).time_unix == rec.time_unix,
        commit_report(rec).summary == first_line(lossy_text(rec.message@)),
{
}

/// Builds the report of one commit.
pub fn commit_out(rec: &CommitRecord) -> (out: CommitOut)
    ensures
        out@ == commit_report(*rec),
        out.id@ == rec.id@,
        out.summary@ == first_line(lossy_text(rec.message@)),
        out.author_name@ == rec.author_name@,
        out.author_email@ == rec.author_email@,
        out.time_unix == rec.time_unix,
{
    CommitOut {
        id: rec.id.clone(),
        summary: summary_line(text_of_bytes(rec.message.as_slice()).as_str()),
        author_name: rec.author_name.clone(),
        author_email: rec.author_email.clone(),
        time_unix: rec.time_unix,
    }
}

/// The commits of a log, newest first.
#[derive(Clone, Debug, PartialEq, Eq)]
pub struct CommitsOut {
    pub commits: Vec<CommitOut>,
}

/// How many commits a log with the requested limit `raw_max` walks: at
/// least one. A negative limit, or one that does not fit in `usize`, is
/// refused.
pub fn log_limit(raw_max: i64) -> (r: Result<usize, GixError>)
    ensures
        match r {
            Ok(n) => 0 <= raw_max <= usize::MAX && n == (if raw_max < 1 { 1 } else { raw_max }),
            Err(e) => (raw_max < 0 || raw_max > usize::MAX) && e@ == ErrorModel::MaxOutOfRange(
                raw_max,
            ),
        },
{
    if raw_max < 0 || raw_max as u64 > usize::MAX as u64 {
        return Err(GixError::MaxOutOfRange(raw_max));
    }
    let n = raw_max as usize;
    if n < 1 {
        Ok(1)
    } else {
        Ok(n)
    }
}

/// Checks the arguments of a log call in the order the call checks them:
/// the limit first, then whether the handle fits in 32 bits (looking the
/// handle up comes after both). Gives the table key and the number of
/// commits to walk.
pub fn log_args(raw_id: u64, raw_max: i64) -> (r: Result<(u32, usize), GixError>)
    ensures
        match r {
            Ok((id, n)) => {
                &&& 0 <= raw_max <= usize::MAX
                &&& raw_id <= u32::MAX
                &&& id == raw_id
                &&& n == (if raw_max < 1 { 1 } else { raw_max })
            },
            Err(e) => if raw_max < 0 || raw_max > usize::MAX {
                e@ == ErrorModel::MaxOutOfRange(raw_max)
            } else {
                raw_id > u32::MAX && e@ == ErrorModel::IdOutOfRange(raw_id)
            },
        },
{
    let n = log_limit(raw_max)?;
    if raw_id <= u32::MAX as u64 {
        Ok((raw_id as u32, n))
    } else {
        Err(GixError::IdOutOfRange(raw_id))
    }
}

/// Builds the report of a log from the commits walked, oldest last, keeping
/// at most `limit` of them.
pub fn log_out(records: &Vec<CommitRecord>, limit: usize) -> (out: CommitsOut)
    ensures
        out.commits.len() == (if records.len() < limit { records.len() } else { limit }),
        forall|i: int|
            0 <= i < out.commits.len() ==> #[trigger] out.commits[i]@ == commit_report(
                records[i],
            ),
        forall|i: int|
            0 <= i < out.commits.len() ==> (#[trigger] out.commits[i]).id@ == records[i].id@,
{
    let count = if records.len() < limit {
        records.len()
    } else {
        limit
    };
    let mut commits: Vec<CommitOut> = Vec::new();
    let mut i: usize = 0;
    while i < count
        invariant
            count <= records.len(),
            i <= count,
            commits.len() == i,
            forall|j: int| 0 <= j < i ==> #[trigger] commits[j]@ == commit_report(records[j]),
            forall|j: int| 0 <= j < i ==> (#[trigger] commits[j]).id@ == records[j].id@,
        decreases count - i,
    {
        commits.push(commit_out(&records[i]));
        i = i + 1;
    }
    CommitsOut { commits }
}

/// Where the working tree lies, for a repository that has one.
#[derive(Clone, Debug, PartialEq, Eq)]
pub struct WorkdirOut {
    pub path: String,
    pub exists: bool,
}

/// Builds the working-tree report: the path where there is a working tree,
/// an empty path and `exists == false` for a bare repository.
pub fn workdir_out(path: Option<String>) -> (out: WorkdirOut)
    ensures
        match path {
            Some(p) => out.path@ == p@ && out.exists,
            None => out.path@ == Seq::<char>::empty() && !out.exists,
        },
{
    match path {
        Some(p) => WorkdirOut { path: p, exists: true },
        None => WorkdirOut { path: String::new(), exists: false },
    }
}

/// The location of the repository's git directory.
#[derive(Clone, Debug, PartialEq, Eq)]
pub struct PathOut {
    pub path: String,
}

/// The object id that HEAD points at, in hex.
#[derive(Clone, Debug, PartialEq, Eq)]
pub struct OidOut {
    pub oid: String,
}

/// A branch name.
#[derive(Clone, Debug, PartialEq, Eq)]
pub struct NameOut {
    pub name: String,
}

/// Builds the current-branch report from the short name of the branch that
/// HEAD points at; a detached HEAD, which points at no branch, is an error.
pub fn current_branch_out(head: Option<String>) -> (r: Result<NameOut, GixError>)
    ensures
        match head {
            Some(h) => r matches Ok(out) && out.name@ == h@,
            None => r matches Err(e) && e@ == ErrorModel::HeadDetached,
        },
{
    match head {
        Some(name) => Ok(NameOut { name }),
        None => Err(GixError::HeadDetached),
    }
}

/// A local branch, and whether HEAD points at it.
#[derive(Clone, Debug, PartialEq, Eq)]
pub struct BranchOut {
    pub name: String,
    pub is_head: bool,
}

/// The local branches.
#[derive(Clone, Debug, PartialEq, Eq)]
pub struct BranchesOut {
    pub branches: Vec<BranchOut>,
}

/// Whether a branch is the one that HEAD points at.
pub open spec fn is_head_branch(head: Option<String>, name: Seq<char>) -> bool {
    match head {
        Some(h) => h@ == name,
        None => false,
    }
}

/// Builds the branch report from the short names of the local branches, in
/// the order read, marking the one whose name is HEAD's.
pub fn branches_out(names: &Vec<String>, head: &Option<String>) -> (out: BranchesOut)
    ensures
        out.branches.len() == names.len(),
        forall|i: int|
            0 <= i < names.len() ==> {
                &&& (#[trigger] out.branches[i]).name@ == names[i]@
                &&& out.branches[i].is_head == is_head_branch(*head, names[i]@)
                &&& out.branches[i].is_head <==> (head matches Some(h) && h@ == names[i]@)
            },
        forall|i: int, j: int|
            0 <= i < j < names.len() && names[i]@ != names[j]@ ==> !(
            #[trigger] out.branches[i].is_head && #[trigger] out.branches[j].is_head),
{
    let mut branches: Vec<BranchOut> = Vec::new();
    let mut i: usize = 0;
    while i < names.len()
        invariant
            i <= names.len(),
            branches.len() == i,
            forall|j: int|
                0 <= j < i ==> {
                    &&& (#[trigger] branches[j]).name@ == names[j]@
                    &&& branches[j].is_head == is_head_branch(*head, names[j]@)
                },
        decreases names.len() - i,
    {
        let name = names[i].clone();
        let is_head = match head {
            Some(h) => *h == name,
            None => false,
        };
        branches.push(BranchOut { name, is_head });
        i = i + 1;
    }
    proof {
        assert forall|i: int, j: int|
            0 <= i < j < names.len() && names[i]@ != names[j]@ implies !(
            #[trigger] branches[i].is_head && #[trigger] branches[j].is_head) by {
            law_at_most_one_head(*head, names[i]@, names[j]@);
        }
    }
    BranchesOut { branches }
}

/// A branch is HEAD's exactly when its name is HEAD's short name, as text.
pub proof fn law_head_branch_is_name_equality(head: Option<String>, name: Seq<char>)
    ensures
        is_head_branch(head, name) <==> (head matches Some(h) && h@ == name),
        head is None ==> !is_head_branch(head, name),
{
}

/// Two branches with different names are never both HEAD's.
pub proof fn law_at_most_one_head(head: Option<String>, a: Seq<char>, b: Seq<char>)
    requires
        a != b,
    ensures
        !(is_head_branch(head, a) && is_head_branch(head, b)),
{
}

} // verus!
