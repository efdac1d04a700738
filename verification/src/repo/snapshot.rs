//! Unpacking a downloaded snapshot of the plugin repository into the local
//! checkout.

use crate::fspath::{join, joined, prefix_stripped, strip_prefix};
use crate::repo::{LocalRepo, RepoError, RepoErrorView};
use vstd::prelude::*;
use vstd::string::*;

verus! {

/// The directory that every entry of a snapshot archive lies in.
pub const SNAPSHOT_PREFIX: &'static str = "plugins-master";

/// The error of the archive crate. Nothing is known of a value of it.
#[verifier::external_type_specification]
#[verifier::external_body]
pub struct ExArchiveError(archive::ArchiveError);

/// One entry of a snapshot archive, by its path inside the archive.
#[derive(Debug)]
pub enum SnapshotEntry {
    /// A regular file with its contents.
    File { path: String, data: Vec<u8> },
    /// A directory.
    Directory { path: String },
    /// A symbolic link, with the target as the archive records it.
    Symlink { path: String, target: String },
    /// A hard link to another entry of the archive.
    HardLink { path: String, target: String },
}

/// An entry as contracts speak of it.
pub enum SnapshotEntryView {
    File { path: Seq<char>, data: Seq<u8> },
    Directory { path: Seq<char> },
    Symlink { path: Seq<char>, target: Seq<char> },
    HardLink { path: Seq<char>, target: Seq<char> },
}

impl DeepView for SnapshotEntry {
    type V = SnapshotEntryView;

    open spec fn deep_view(&self) -> SnapshotEntryView {
        match self {
            SnapshotEntry::File { path, data } => SnapshotEntryView::File {
                path: path@,
                data: data@,
            },
            SnapshotEntry::Directory { path } => SnapshotEntryView::Directory { path: path@ },
            SnapshotEntry::Symlink { path, target } => SnapshotEntryView::Symlink {
                path: path@,
                target: target@,
            },
            SnapshotEntry::HardLink { path, target } => SnapshotEntryView::HardLink {
                path: path@,
                target: target@,
            },
        }
    }
}

impl SnapshotEntryView {
    /// The path of the entry inside the archive.
    pub open spec fn path(self) -> Seq<char> {
        match self {
            SnapshotEntryView::File { path, .. } => path,
            SnapshotEntryView::Directory { path } => path,
            SnapshotEntryView::Symlink { path, .. } => path,
            SnapshotEntryView::HardLink { path, .. } => path,
        }
    }
}

impl SnapshotEntry {
    /// The path of the entry inside the archive.
    pub fn path(&self) -> (r: &str)
        ensures
            r@ == self.deep_view().path(),
    {
        match self {
            SnapshotEntry::File { path, .. } => path.as_str(),
            SnapshotEntry::Directory { path } => path.as_str(),
            SnapshotEntry::Symlink { path, .. } => path.as_str(),
            SnapshotEntry::HardLink { path, .. } => path.as_str(),
        }
    }
}

/// Calls `archive::ArchiveExtractor::extract` on a ZIP archive held in
/// memory, with the extractor's default limits, and hands its entries out
/// one for one and in their order: each variant of `archive::ArchiveEntry`
/// becomes the library's variant of the same name, with the same fields.
///
/// Nothing is claimed of the result: whether an archive can be unpacked
/// also depends on the memory that is to be had.
#[verifier::external_body]
pub(crate) fn extract_zip(body: &[u8]) -> (r: Result<
    Vec<SnapshotEntry>,
    archive::ArchiveError,
>) {
    let entries = archive::ArchiveExtractor::new().extract(body, archive::ArchiveFormat::Zip)?;
    Ok(
        entries.into_iter().map(|entry| match entry {
            archive::ArchiveEntry::File { path, data } => SnapshotEntry::File { path, data },
            archive::ArchiveEntry::Directory { path } => SnapshotEntry::Directory { path },
            archive::ArchiveEntry::Symlink { path, target } => SnapshotEntry::Symlink { path, target },
            archive::ArchiveEntry::HardLink { path, target } => SnapshotEntry::HardLink { path, target },
        }).collect(),
    )
}

/// The entries of a ZIP archive held in memory, in the order of the archive.
/// Fails with `BadArchive` where the archive cannot be unpacked; what the
/// archive holds is for the extraction to say, and `entries_of` says what
/// becomes of each of its outcomes.
pub fn unpack(body: &Vec<u8>) -> (r: Result<Vec<SnapshotEntry>, RepoError>)
    ensures
        r matches Err(e) ==> e.deep_view() == RepoErrorView::BadArchive,
{
    entries_of(extract_zip(body.as_slice()))
}

/// What the outcome of an extraction gives: its entries as they are, in
/// their order, or `BadArchive` where the extraction failed, whatever its
/// error was.
pub fn entries_of(outcome: Result<Vec<SnapshotEntry>, archive::ArchiveError>) -> (r: Result<
    Vec<SnapshotEntry>,
    RepoError,
>)
    ensures
        match outcome {
            Ok(entries) => r == Ok::<Vec<SnapshotEntry>, RepoError>(entries),
            Err(_) => r matches Err(e) && e.deep_view() == RepoErrorView::BadArchive,
        },
{
    match outcome {
        Ok(entries) => Ok(entries),
        Err(_) => Err(RepoError::BadArchive),
    }
}

/// One step of bringing a snapshot into the checkout, carried out by the
/// caller in the order given.
#[derive(Debug)]
pub enum CheckoutStep {
    /// The directory is removed with all it holds, where it exists.
    RemoveDir { path: String },
    /// The directory is created, with the directories above it.
    CreateDir { path: String },
    /// The file is written, replacing one that is there.
    WriteFile { path: String, data: Vec<u8> },
}

pub enum CheckoutStepView {
    RemoveDir { path: Seq<char> },
    CreateDir { path: Seq<char> },
    WriteFile { path: Seq<char>, data: Seq<u8> },
}

impl DeepView for CheckoutStep {
    type V = CheckoutStepView;

    open spec fn deep_view(&self) -> CheckoutStepView {
        match self {
            CheckoutStep::RemoveDir { path } => CheckoutStepView::RemoveDir { path: path@ },
            CheckoutStep::CreateDir { path } => CheckoutStepView::CreateDir { path: path@ },
            CheckoutStep::WriteFile { path, data } => CheckoutStepView::WriteFile {
                path: path@,
                data: data@,
            },
        }
    }
}

/// The steps of a checkout, and the error that ends it, if there is one: the
/// steps before it are carried out all the same.
#[derive(Debug)]
pub struct CheckoutPlan {
    pub steps: Vec<CheckoutStep>,
    pub failure: Option<RepoError>,
}

pub struct CheckoutPlanView {
    pub steps: Seq<CheckoutStepView>,
    pub failure: Option<RepoErrorView>,
}

impl DeepView for CheckoutPlan {
    type V = CheckoutPlanView;

    open spec fn deep_view(&self) -> CheckoutPlanView {
        CheckoutPlanView { steps: self.steps.deep_view(), failure: self.failure.deep_view() }
    }
}

/// What one entry contributes, given what is left of its path once the
/// snapshot's directory is taken off: a directory is created, a file is
/// written, a link is passed over. An entry outside the snapshot's directory
/// is an error that names the entry's path.
pub open spec fn entry_outcome(
    out_root: Seq<char>,
    entry: SnapshotEntryView,
    stripped: Option<Seq<char>>,
) -> Result<Seq<CheckoutStepView>, RepoErrorView> {
    match stripped {
        None => Err(RepoErrorView::OutsideSnapshot(entry.path())),
        Some(rest) => Ok(
            match entry {
                SnapshotEntryView::Directory { .. } => seq![
                    CheckoutStepView::CreateDir { path: joined(out_root, rest) },
                ],
                SnapshotEntryView::File { data, .. } => seq![
                    CheckoutStepView::WriteFile { path: joined(out_root, rest), data },
                ],
                _ => Seq::empty(),
            },
        ),
    }
}

/// The steps for the entries of a snapshot, in their order, up to the first
/// entry that lies outside the snapshot's directory.
pub open spec fn entry_steps(out_root: Seq<char>, entries: Seq<SnapshotEntryView>) -> CheckoutPlanView
    decreases entries.len(),
{
    if entries.len() == 0 {
        CheckoutPlanView { steps: Seq::empty(), failure: None }
    } else {
        let before = entry_steps(out_root, entries.drop_last());
        if before.failure is Some {
            before
        } else {
            match entry_outcome(
                out_root,
                entries.last(),
                prefix_stripped(entries.last().path(), SNAPSHOT_PREFIX@),
            ) {
                Ok(steps) => CheckoutPlanView { steps: before.steps + steps, failure: None },
                Err(e) => CheckoutPlanView { steps: before.steps, failure: Some(e) },
            }
        }
    }
}

/// Emptying the checkout directory: it is removed and created anew.
pub open spec fn reset_steps(out_root: Seq<char>) -> Seq<CheckoutStepView> {
    seq![
        CheckoutStepView::RemoveDir { path: out_root },
        CheckoutStepView::CreateDir { path: out_root },
    ]
}

/// The checkout of a snapshot with the entries `entries`: the checkout
/// directory is emptied, then the entries are brought in.
pub open spec fn snapshot_plan(out_root: Seq<char>, entries: Seq<SnapshotEntryView>) -> CheckoutPlanView {
    let tail = entry_steps(out_root, entries);
    CheckoutPlanView { steps: reset_steps(out_root) + tail.steps, failure: tail.failure }
}

/// Once the entries end in an error, the entries that follow add nothing.
pub proof fn lemma_entries_stop(out_root: Seq<char>, entries: Seq<SnapshotEntryView>, n: int)
    requires
        0 <= n <= entries.len(),
        n == entries.len() || entry_steps(out_root, entries.take(n)).failure is Some,
    ensures
        entry_steps(out_root, entries) == entry_steps(out_root, entries.take(n)),
    decreases entries.len() - n,
{
    if n == entries.len() {
        assert(entries.take(n) =~= entries);
    } else {
        assert(entries.take(n + 1).drop_last() =~= entries.take(n));
        lemma_entries_stop(out_root, entries, n + 1);
    }
}

/// What one entry contributes, given what is left of its path once the
/// snapshot's directory is taken off.
pub fn checkout_entry(out_root: &str, entry: &SnapshotEntry, stripped: Option<String>) -> (r:
    Result<Option<CheckoutStep>, RepoError>)
    ensures
        match (r, entry_outcome(out_root@, entry.deep_view(), stripped.deep_view())) {
            (Ok(Some(step)), Ok(steps)) => steps == seq![step.deep_view()],
            (Ok(None), Ok(steps)) => steps == Seq::<CheckoutStepView>::empty(),
            (Err(e), Err(expected)) => e.deep_view() == expected,
            _ => false,
        },
{
    let rest = match stripped {
        Some(rest) => rest,
        None => {
            return Err(RepoError::OutsideSnapshot(String::from_str(entry.path())));
        },
    };
    match entry {
        SnapshotEntry::Directory { .. } => Ok(
            Some(CheckoutStep::CreateDir { path: join(out_root, rest.as_str()) }),
        ),
        SnapshotEntry::File { data, .. } => Ok(
            Some(CheckoutStep::WriteFile { path: join(out_root, rest.as_str()), data: data.clone() }),
        ),
        _ => Ok(None),
    }
}

impl LocalRepo {
    /// The directory that holds the checkout.
    pub fn checkout_dir(&self) -> (r: String)
        ensures
            r@ == joined(self.spec_root(), "repo"@),
    {
        join(self.root_dir(), "repo")
    }

    /// The checkout of a snapshot with the entries `entries`: the checkout
    /// directory is emptied, then one directory is created or one file
    /// written for each entry, at the entry's path without the snapshot's
    /// directory. An entry outside that directory ends the checkout.
    pub fn checkout_entries(&self, entries: &Vec<SnapshotEntry>) -> (r: CheckoutPlan)
        ensures
            r.deep_view() == snapshot_plan(joined(self.spec_root(), "repo"@), entries.deep_view()),
    {
        let out_root = self.checkout_dir();
        let ghost all = entries.deep_view();
        let mut steps: Vec<CheckoutStep> = Vec::new();
        steps.push(CheckoutStep::RemoveDir { path: out_root.clone() });
        steps.push(CheckoutStep::CreateDir { path: out_root.clone() });
        let mut failure: Option<RepoError> = None;
        let mut i: usize = 0;
        assert(all.take(0) =~= Seq::<SnapshotEntryView>::empty());
        assert(steps.deep_view() =~= reset_steps(out_root@) + Seq::<CheckoutStepView>::empty());
        while i < entries.len() && failure.is_none()
            invariant
                i <= entries.len(),
                all == entries.deep_view(),
                out_root@ == joined(self.spec_root(), "repo"@),
                steps.deep_view() == reset_steps(out_root@) + entry_steps(
                    out_root@,
                    all.take(i as int),
                ).steps,
                failure.deep_view() == entry_steps(out_root@, all.take(i as int)).failure,
            decreases entries.len() - i,
        {
            proof {
                assert(all.take(i + 1).drop_last() =~= all.take(i as int));
                assert(all.take(i + 1).last() == entries@[i as int].deep_view());
            }
            let entry = &entries[i];
            let stripped = strip_prefix(entry.path(), SNAPSHOT_PREFIX);
            let ghost so_far = steps.deep_view();
            match checkout_entry(out_root.as_str(), entry, stripped) {
                Ok(Some(step)) => {
                    let ghost added = step.deep_view();
                    steps.push(step);
                    assert(steps.deep_view() =~= so_far.push(added));
                    assert(steps.deep_view() =~= reset_steps(out_root@) + (entry_steps(
                        out_root@,
                        all.take(i as int),
                    ).steps + seq![added]));
                },
                Ok(None) => {
                    assert(steps.deep_view() =~= reset_steps(out_root@) + (entry_steps(
                        out_root@,
                        all.take(i as int),
                    ).steps + Seq::<CheckoutStepView>::empty()));
                },
                Err(e) => {
                    failure = Some(e);
                },
            }
            i += 1;
        }
        proof {
            lemma_entries_stop(out_root@, all, i as int);
        }
        CheckoutPlan { steps, failure }
    }

    /// The checkout of the downloaded snapshot archive `body`. The checkout
    /// directory is emptied first in any case. An archive that cannot be
    /// unpacked ends the checkout there, with `BadArchive`; otherwise the
    /// entries of the archive are brought in as `checkout_entries` says.
    pub fn checkout_repo(&self, body: &Vec<u8>) -> (r: CheckoutPlan)
        ensures
            ({
                let out_root = joined(self.spec_root(), "repo"@);
                ||| r.deep_view() == (CheckoutPlanView {
                    steps: reset_steps(out_root),
                    failure: Some(RepoErrorView::BadArchive),
                })
                ||| exists|entries: Seq<SnapshotEntryView>|
                    r.deep_view() == snapshot_plan(out_root, entries)
            }),
    {
        match unpack(body) {
            Ok(entries) => self.checkout_entries(&entries),
            Err(_) => {
                let out_root = self.checkout_dir();
                let mut steps: Vec<CheckoutStep> = Vec::new();
                steps.push(CheckoutStep::RemoveDir { path: out_root.clone() });
                steps.push(CheckoutStep::CreateDir { path: out_root });
                assert(steps.deep_view() =~= reset_steps(joined(self.spec_root(), "repo"@)));
                CheckoutPlan { steps, failure: Some(RepoError::BadArchive) }
            },
        }
    }
}

} // verus!
