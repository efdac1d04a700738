//! Copying one directory tree over another, as a list of file operations.
//! The caller lists the source tree and carries the operations out.

use crate::fspath::{join, joined};
use vstd::prelude::*;
use vstd::string::*;

verus! {

/// One entry of a directory tree, by its path relative to the root of the
/// tree.
#[derive(Debug)]
pub struct TreeEntry {
    pub path: String,
    pub is_dir: bool,
}

pub struct TreeEntryView {
    pub path: Seq<char>,
    pub is_dir: bool,
}

impl DeepView for TreeEntry {
    type V = TreeEntryView;

    open spec fn deep_view(&self) -> TreeEntryView {
        TreeEntryView { path: self.path@, is_dir: self.is_dir }
    }
}

/// One operation on the file system.
#[derive(Debug)]
pub enum FileOp {
    /// The directory is created, with the directories above it, unless it is
    /// there already.
    CreateDir { path: String },
    /// The file `from` is copied to `to`, replacing a file that is there.
    CopyFile { from: String, to: String },
}

pub enum FileOpView {
    CreateDir { path: Seq<char> },
    CopyFile { from: Seq<char>, to: Seq<char> },
}

impl DeepView for FileOp {
    type V = FileOpView;

    open spec fn deep_view(&self) -> FileOpView {
        match self {
            FileOp::CreateDir { path } => FileOpView::CreateDir { path: path@ },
            FileOp::CopyFile { from, to } => FileOpView::CopyFile { from: from@, to: to@ },
        }
    }
}

impl FileOpView {
    /// The path that the operation creates or writes.
    pub open spec fn target(self) -> Seq<char> {
        match self {
            FileOpView::CreateDir { path } => path,
            FileOpView::CopyFile { to, .. } => to,
        }
    }
}

/// What the entry of a source tree becomes below `to`.
pub open spec fn merge_op(from: Seq<char>, to: Seq<char>, entry: TreeEntryView) -> FileOpView {
    if entry.is_dir {
        FileOpView::CreateDir { path: joined(to, entry.path) }
    } else {
        FileOpView::CopyFile { from: joined(from, entry.path), to: joined(to, entry.path) }
    }
}

/// The operations that merge the tree below `from`, which holds `entries`,
/// into the tree below `to`: `to` itself is created, then one operation
/// follows for each entry, in the order of the entries.
pub open spec fn merge_ops(from: Seq<char>, to: Seq<char>, entries: Seq<TreeEntryView>) -> Seq<
    FileOpView,
> {
    seq![FileOpView::CreateDir { path: to }] + Seq::new(
        entries.len(),
        |i: int| merge_op(from, to, entries[i]),
    )
}

/// A merge is additive: it creates or writes nothing but `to` and the places
/// below `to` of the entries of the source tree. What exists only below `to`
/// is named by no operation, and so is left as it is.
pub proof fn lemma_merge_touches_only_entries(
    from: Seq<char>,
    to: Seq<char>,
    entries: Seq<TreeEntryView>,
    k: int,
)
    requires
        0 <= k < merge_ops(from, to, entries).len(),
    ensures
        merge_ops(from, to, entries)[k].target() == to || exists|i: int|
            0 <= i < entries.len() && merge_ops(from, to, entries)[k].target() == joined(
                to,
                (#[trigger] entries[i]).path,
            ),
{
    if k > 0 {
        assert(merge_ops(from, to, entries)[k] == merge_op(from, to, entries[k - 1]));
    }
}

/// A merge overwrites: each file of the source tree is copied to its place
/// below `to`.
pub proof fn lemma_merge_copies_every_file(
    from: Seq<char>,
    to: Seq<char>,
    entries: Seq<TreeEntryView>,
    i: int,
)
    requires
        0 <= i < entries.len(),
        !entries[i].is_dir,
    ensures
        merge_ops(from, to, entries)[i + 1] == (FileOpView::CopyFile {
            from: joined(from, entries[i].path),
            to: joined(to, entries[i].path),
        }),
{
}

/// The operations that merge the tree below `from`, which holds `entries`,
/// into the tree below `to`.
pub fn merge_tree(from: &str, to: &str, entries: &Vec<TreeEntry>) -> (r: Vec<FileOp>)
    ensures
        r.deep_view() == merge_ops(from@, to@, entries.deep_view()),
{
    let ghost all = entries.deep_view();
    let mut ops: Vec<FileOp> = Vec::new();
    ops.push(FileOp::CreateDir { path: String::from_str(to) });
    let mut i: usize = 0;
    assert(ops.deep_view() =~= merge_ops(from@, to@, all.take(0)));
    while i < entries.len()
        invariant
            i <= entries.len(),
            all == entries.deep_view(),
            ops.deep_view() == merge_ops(from@, to@, all.take(i as int)),
        decreases entries.len() - i,
    {
        let entry = &entries[i];
        let target = join(to, entry.path.as_str());
        let ghost so_far = ops.deep_view();
        if entry.is_dir {
            ops.push(FileOp::CreateDir { path: target });
        } else {
            ops.push(FileOp::CopyFile { from: join(from, entry.path.as_str()), to: target });
        }
        proof {
            assert(all.take(i + 1)[i as int] == entry.deep_view());
            assert(ops.deep_view() =~= so_far.push(merge_op(from@, to@, entry.deep_view())));
            assert(ops.deep_view() =~= merge_ops(from@, to@, all.take(i + 1)));
        }
        i += 1;
    }
    assert(all.take(i as int) =~= all);
    ops
}

} // verus!
