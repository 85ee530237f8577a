//! What the library asks of the host, and what the host answers.

use crate::text::spec_texts;
use vstd::prelude::*;

verus! {

/// What the host shows the user about the installation.
#[derive(Clone, Copy, Debug, PartialEq, Eq, Structural)]
pub enum InstallStatus {
    /// The library is about to look for the pinned release.
    CheckingForUpdate,
    /// The library is about to fetch the release, if it has to.
    Downloading,
    /// Nothing is in progress any more.
    Idle,
}

/// How the host unpacks what it downloads.
#[derive(Clone, Copy, Debug, PartialEq, Eq, Structural)]
pub enum ArchiveKind {
    Gzip,
    GzipTar,
    Zip,
    Uncompressed,
}

/// One thing for the host to do. Paths are relative to the working directory.
#[derive(Debug, PartialEq, Eq)]
pub enum Action {
    /// Find out whether anything exists at `path`; answer with [`Reply::Present`].
    ProbeFile { path: String },
    /// Show `status` to the user.
    Notify { status: InstallStatus },
    /// List the names of the working directory's entries; answer with
    /// [`Reply::Entries`], or with [`Reply::Failed`] if it cannot be read.
    ListWorkingDir,
    /// Remove each of the directories `names` with all it holds. Failures are
    /// of no interest.
    RemoveDirs { names: Vec<String> },
    /// Download `url` and unpack it as `kind` into `dest_dir`; answer with
    /// [`Reply::Failed`] if that fails.
    FetchArchive { url: String, dest_dir: String, kind: ArchiveKind },
    /// Mark the file at `path` executable; answer with [`Reply::Failed`] if
    /// that fails.
    MakeExecutable { path: String },
}

/// The mathematical value of an [`Action`].
pub enum ActionView {
    ProbeFile { path: Seq<char> },
    Notify { status: InstallStatus },
    ListWorkingDir,
    RemoveDirs { names: Seq<Seq<char>> },
    FetchArchive { url: Seq<char>, dest_dir: Seq<char>, kind: ArchiveKind },
    MakeExecutable { path: Seq<char> },
}

impl View for Action {
    type V = ActionView;

    open spec fn view(&self) -> ActionView {
        match self {
            Action::ProbeFile { path } => ActionView::ProbeFile { path: path@ },
            Action::Notify { status } => ActionView::Notify { status: *status },
            Action::ListWorkingDir => ActionView::ListWorkingDir,
            Action::RemoveDirs { names } => ActionView::RemoveDirs { names: spec_texts(names@) },
            Action::FetchArchive { url, dest_dir, kind } => ActionView::FetchArchive {
                url: url@,
                dest_dir: dest_dir@,
                kind: *kind,
            },
            Action::MakeExecutable { path } => ActionView::MakeExecutable { path: path@ },
        }
    }
}

/// The host's answer to an [`Action`].
///
/// An answer of another shape than the action asks for is read as the
/// action's plain outcome: nothing present, nothing listed, nothing failed.
#[derive(Debug, PartialEq, Eq)]
pub enum Reply {
    /// The action was carried out, or attempted where failures are of no interest.
    Done,
    /// Whether the probed path exists.
    Present(bool),
    /// The names of the working directory's entries.
    Entries(Vec<String>),
    /// The action failed; the text is the host's report.
    Failed(String),
}

/// The mathematical value of a [`Reply`].
pub enum ReplyView {
    Done,
    Present(bool),
    Entries(Seq<Seq<char>>),
    Failed(Seq<char>),
}

impl View for Reply {
    type V = ReplyView;

    open spec fn view(&self) -> ReplyView {
        match self {
            Reply::Done => ReplyView::Done,
            Reply::Present(present) => ReplyView::Present(*present),
            Reply::Entries(names) => ReplyView::Entries(spec_texts(names@)),
            Reply::Failed(message) => ReplyView::Failed(message@),
        }
    }
}

/// Whether `reply` says that the probed path exists.
pub open spec fn spec_confirms_presence(reply: ReplyView) -> bool {
    reply == ReplyView::Present(true)
}

/// Tests whether `reply` says that the probed path exists.
pub fn confirms_presence(reply: &Reply) -> (yes: bool)
    ensures
        yes == spec_confirms_presence(reply@),
{
    match reply {
        Reply::Present(present) => *present,
        _ => false,
    }
}

} // verus!
