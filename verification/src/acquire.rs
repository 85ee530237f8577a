//! The acquisition of the server binary, one host action at a time.
//!
//! [`QuickMarkExtension::begin`] starts an acquisition and names the first
//! action for the host; [`QuickMarkExtension::resume`] takes the host's reply
//! and names the next one, until the acquisition finishes with the path of
//! the binary or with an error.

use crate::cleanup::{needs_download, spec_needs_download, spec_stale_entries, stale_version_dirs};
use crate::error::{AcquireError, AcquireErrorView};
use crate::layout::{
    download_url, expected_binary_path, spec_download_url, spec_expected_binary_path,
    spec_version_dir, version_dir,
};
use crate::platform::{asset_name, spec_asset_name, Platform};
use crate::protocol::{
    confirms_presence, spec_confirms_presence, Action, ActionView, ArchiveKind, InstallStatus,
    Reply, ReplyView,
};
use vstd::prelude::*;
use vstd::string::*;

verus! {

/// Which reply an acquisition is waiting for.
#[derive(Clone, Copy, Debug, PartialEq, Eq, Structural)]
pub enum Phase {
    /// Whether the cached path still exists.
    ProbingCache,
    /// That the user was told that the pinned release is looked for.
    AnnouncingCheck,
    /// That the user was told that a download may follow.
    AnnouncingDownload,
    /// Whether the binary is on disk already.
    ProbingBinary,
    /// The entries of the working directory.
    Listing,
    /// That the directories of other versions were dealt with.
    Cleaning,
    /// How the download went.
    Fetching,
    /// How marking the binary executable went.
    MarkingExecutable,
    /// Whether the binary is on disk after unpacking.
    Verifying,
    /// That the user was told that nothing is in progress.
    AnnouncingIdle,
}

/// An acquisition in progress: what is being installed, for which platform,
/// and which reply is awaited.
#[derive(Debug, PartialEq, Eq)]
pub struct Acquisition {
    version: String,
    platform: Platform,
    phase: Phase,
}

/// The mathematical value of an [`Acquisition`].
pub struct AcquisitionView {
    pub version: Seq<char>,
    pub platform: Platform,
    pub phase: Phase,
}

impl View for Acquisition {
    type V = AcquisitionView;

    closed spec fn view(&self) -> AcquisitionView {
        AcquisitionView { version: self.version@, platform: self.platform, phase: self.phase }
    }
}

/// How far an acquisition has come.
#[derive(Debug, PartialEq, Eq)]
pub enum Progress {
    /// The host is to perform the action and to resume the acquisition with
    /// its reply.
    Pending(Acquisition, Action),
    /// The acquisition is over: the path of the binary, or why there is none.
    Finished(Result<String, AcquireError>),
}

/// The mathematical value of an acquisition's result.
pub open spec fn spec_outcome(outcome: Result<String, AcquireError>) -> Result<
    Seq<char>,
    AcquireErrorView,
> {
    match outcome {
        Ok(path) => Ok(path@),
        Err(error) => Err(error@),
    }
}

/// The mathematical value of a [`Progress`].
pub enum ProgressView {
    Pending(AcquisitionView, ActionView),
    Finished(Result<Seq<char>, AcquireErrorView>),
}

impl View for Progress {
    type V = ProgressView;

    open spec fn view(&self) -> ProgressView {
        match self {
            Progress::Pending(acquisition, action) => ProgressView::Pending(
                acquisition@,
                action@,
            ),
            Progress::Finished(outcome) => ProgressView::Finished(spec_outcome(*outcome)),
        }
    }
}

/// The cached path after a step, and how far the acquisition has come.
pub struct StepView {
    pub cache: Option<Seq<char>>,
    pub progress: ProgressView,
}

impl AcquisitionView {
    /// Where the binary is expected.
    pub open spec fn binary_path(self) -> Seq<char> {
        spec_expected_binary_path(self.version, self.platform.os)
    }

    /// The same acquisition, waiting in `phase`.
    pub open spec fn at(self, phase: Phase) -> AcquisitionView {
        AcquisitionView { phase, ..self }
    }

    /// The acquisition waits in `phase` for the reply to `action`.
    pub open spec fn ask(self, phase: Phase, action: ActionView) -> ProgressView {
        ProgressView::Pending(self.at(phase), action)
    }

    /// Tell the user that the pinned release is looked for.
    pub open spec fn announce_check(self) -> ProgressView {
        self.ask(
            Phase::AnnouncingCheck,
            ActionView::Notify { status: InstallStatus::CheckingForUpdate },
        )
    }

    /// Tell the user that nothing is in progress any more.
    pub open spec fn announce_idle(self) -> ProgressView {
        self.ask(Phase::AnnouncingIdle, ActionView::Notify { status: InstallStatus::Idle })
    }

    /// Give up: no archive is published for the platform.
    pub open spec fn unsupported(self) -> ProgressView {
        ProgressView::Finished(
            Err(AcquireErrorView::UnsupportedPlatform { platform: self.platform }),
        )
    }

    /// Download the platform's archive of the version into the version directory.
    pub open spec fn fetch(self) -> ProgressView {
        match spec_asset_name(self.platform) {
            Some(asset) => self.ask(
                Phase::Fetching,
                ActionView::FetchArchive {
                    url: spec_download_url(self.version, asset),
                    dest_dir: spec_version_dir(self.version),
                    kind: ArchiveKind::GzipTar,
                },
            ),
            None => self.unsupported(),
        }
    }
}

/// The first step of an acquisition of `version` for `platform`, with `cache`
/// the path that the last successful acquisition left.
///
/// A cached path is of use only if it is the path expected now; it is then
/// probed. Any other is dropped, and the user is told that the pinned release
/// is looked for.
pub open spec fn spec_begin(
    cache: Option<Seq<char>>,
    version: Seq<char>,
    platform: Platform,
) -> StepView {
    let acquisition = AcquisitionView { version, platform, phase: Phase::ProbingCache };
    if cache == Some(acquisition.binary_path()) {
        StepView {
            cache,
            progress: acquisition.ask(
                Phase::ProbingCache,
                ActionView::ProbeFile { path: acquisition.binary_path() },
            ),
        }
    } else {
        StepView { cache: None, progress: acquisition.announce_check() }
    }
}

/// The step that `reply` brings about in `acquisition`.
pub open spec fn spec_resume(
    cache: Option<Seq<char>>,
    acquisition: AcquisitionView,
    reply: ReplyView,
) -> StepView {
    match acquisition.phase {
        Phase::ProbingCache => if spec_confirms_presence(reply) && cache == Some(
            acquisition.binary_path(),
        ) {
            StepView { cache, progress: ProgressView::Finished(Ok(acquisition.binary_path())) }
        } else {
            StepView { cache: None, progress: acquisition.announce_check() }
        },
        Phase::AnnouncingCheck => StepView {
            cache,
            progress: if spec_asset_name(acquisition.platform) is Some {
                acquisition.ask(
                    Phase::AnnouncingDownload,
                    ActionView::Notify { status: InstallStatus::Downloading },
                )
            } else {
                acquisition.unsupported()
            },
        },
        Phase::AnnouncingDownload => StepView {
            cache,
            progress: acquisition.ask(
                Phase::ProbingBinary,
                ActionView::ProbeFile { path: acquisition.binary_path() },
            ),
        },
        Phase::ProbingBinary => StepView {
            cache,
            progress: if spec_needs_download(
                spec_confirms_presence(reply),
                acquisition.binary_path(),
                spec_version_dir(acquisition.version),
            ) {
                acquisition.ask(Phase::Listing, ActionView::ListWorkingDir)
            } else {
                acquisition.announce_idle()
            },
        },
        Phase::Listing => StepView {
            cache,
            progress: match reply {
                ReplyView::Entries(names) => acquisition.ask(
                    Phase::Cleaning,
                    ActionView::RemoveDirs {
                        names: spec_stale_entries(names, spec_version_dir(acquisition.version)),
                    },
                ),
                _ => acquisition.fetch(),
            },
        },
        Phase::Cleaning => StepView { cache, progress: acquisition.fetch() },
        Phase::Fetching => StepView {
            cache,
            progress: match reply {
                ReplyView::Failed(message) => ProgressView::Finished(
                    Err(AcquireErrorView::DownloadFailure { message }),
                ),
                _ => acquisition.ask(
                    Phase::MarkingExecutable,
                    ActionView::MakeExecutable { path: acquisition.binary_path() },
                ),
            },
        },
        Phase::MarkingExecutable => StepView {
            cache,
            progress: match reply {
                ReplyView::Failed(message) => ProgressView::Finished(
                    Err(AcquireErrorView::PermissionFailure { message }),
                ),
                _ => acquisition.ask(
                    Phase::Verifying,
                    ActionView::ProbeFile { path: acquisition.binary_path() },
                ),
            },
        },
        Phase::Verifying => StepView {
            cache,
            progress: if spec_confirms_presence(reply) {
                acquisition.announce_idle()
            } else {
                ProgressView::Finished(
                    Err(
                        AcquireErrorView::InstallVerificationFailure {
                            version: acquisition.version,
                        },
                    ),
                )
            },
        },
        Phase::AnnouncingIdle => StepView {
            cache: Some(acquisition.binary_path()),
            progress: ProgressView::Finished(Ok(acquisition.binary_path())),
        },
    }
}

impl Acquisition {
    /// The version being installed.
    pub fn version(&self) -> (version: &String)
        ensures
            version@ == self@.version,
    {
        &self.version
    }

    /// The platform for which it is installed.
    pub fn platform(&self) -> (platform: Platform)
        ensures
            platform == self@.platform,
    {
        self.platform
    }

    /// The reply that is awaited.
    pub fn phase(&self) -> (phase: Phase)
        ensures
            phase == self@.phase,
    {
        self.phase
    }

    fn ask(self, phase: Phase, action: Action) -> (progress: Progress)
        ensures
            progress@ == self@.ask(phase, action@),
    {
        Progress::Pending(
            Acquisition { version: self.version, platform: self.platform, phase },
            action,
        )
    }

    fn probe_binary(self, phase: Phase) -> (progress: Progress)
        ensures
            progress@ == self@.ask(phase, ActionView::ProbeFile { path: self@.binary_path() }),
    {
        let path = expected_binary_path(self.version.as_str(), self.platform.os);
        self.ask(phase, Action::ProbeFile { path })
    }

    fn announce_check(self) -> (progress: Progress)
        ensures
            progress@ == self@.announce_check(),
    {
        self.ask(
            Phase::AnnouncingCheck,
            Action::Notify { status: InstallStatus::CheckingForUpdate },
        )
    }

    fn announce_idle(self) -> (progress: Progress)
        ensures
            progress@ == self@.announce_idle(),
    {
        self.ask(Phase::AnnouncingIdle, Action::Notify { status: InstallStatus::Idle })
    }

    fn unsupported(self) -> (progress: Progress)
        ensures
            progress@ == self@.unsupported(),
    {
        Progress::Finished(Err(AcquireError::UnsupportedPlatform { platform: self.platform }))
    }

    fn fetch(self) -> (progress: Progress)
        ensures
            progress@ == self@.fetch(),
    {
        match asset_name(self.platform) {
            Some(asset) => {
                let url = download_url(self.version.as_str(), asset);
                let dest_dir = version_dir(self.version.as_str());
                self.ask(
                    Phase::Fetching,
                    Action::FetchArchive { url, dest_dir, kind: ArchiveKind::GzipTar },
                )
            },
            None => self.unsupported(),
        }
    }
}

/// The extension's state between calls: the path that the last successful
/// acquisition returned, if any.
#[derive(Debug)]
pub struct QuickMarkExtension {
    cached_server_path: Option<String>,
}

impl View for QuickMarkExtension {
    type V = Option<Seq<char>>;

    closed spec fn view(&self) -> Option<Seq<char>> {
        match self.cached_server_path {
            Some(path) => Some(path@),
            None => None,
        }
    }
}

impl QuickMarkExtension {
    /// An extension that has not acquired anything yet.
    pub fn new() -> (extension: QuickMarkExtension)
        ensures
            extension@ is None,
    {
        QuickMarkExtension { cached_server_path: None }
    }

    /// The cached path, if there is one.
    pub fn cached_server_path(&self) -> (cached: Option<String>)
        ensures
            match cached {
                Some(path) => self@ == Some(path@),
                None => self@ is None,
            },
    {
        match &self.cached_server_path {
            Some(path) => Some(path.clone()),
            None => None,
        }
    }

    fn holds(&self, path: &String) -> (yes: bool)
        ensures
            yes == (self@ == Some(path@)),
    {
        match &self.cached_server_path {
            Some(cached) => *cached == *path,
            None => false,
        }
    }

    /// Starts to acquire the binary of `version` for `platform`.
    pub fn begin(&mut self, version: String, platform: Platform) -> (progress: Progress)
        ensures
            final(self)@ == spec_begin(old(self)@, version@, platform).cache,
            progress@ == spec_begin(old(self)@, version@, platform).progress,
    {
        let expected = expected_binary_path(version.as_str(), platform.os);
        let acquisition = Acquisition { version, platform, phase: Phase::ProbingCache };
        if self.holds(&expected) {
            acquisition.ask(Phase::ProbingCache, Action::ProbeFile { path: expected })
        } else {
            self.cached_server_path = None;
            acquisition.announce_check()
        }
    }

    /// Takes the host's `reply` to the action that `pending` waits for, and
    /// says how the acquisition goes on.
    pub fn resume(&mut self, pending: Acquisition, reply: Reply) -> (progress: Progress)
        ensures
            final(self)@ == spec_resume(old(self)@, pending@, reply@).cache,
            progress@ == spec_resume(old(self)@, pending@, reply@).progress,
    {
        match pending.phase {
            Phase::ProbingCache => {
                let expected = expected_binary_path(pending.version.as_str(), pending.platform.os);
                if confirms_presence(&reply) && self.holds(&expected) {
                    Progress::Finished(Ok(expected))
                } else {
                    self.cached_server_path = None;
                    pending.announce_check()
                }
            },
            Phase::AnnouncingCheck => {
                if asset_name(pending.platform).is_some() {
                    pending.ask(
                        Phase::AnnouncingDownload,
                        Action::Notify { status: InstallStatus::Downloading },
                    )
                } else {
                    pending.unsupported()
                }
            },
            Phase::AnnouncingDownload => pending.probe_binary(Phase::ProbingBinary),
            Phase::ProbingBinary => {
                let expected = expected_binary_path(pending.version.as_str(), pending.platform.os);
                let dir = version_dir(pending.version.as_str());
                if needs_download(confirms_presence(&reply), expected.as_str(), dir.as_str()) {
                    pending.ask(Phase::Listing, Action::ListWorkingDir)
                } else {
                    pending.announce_idle()
                }
            },
            Phase::Listing => match reply {
                Reply::Entries(entries) => {
                    let dir = version_dir(pending.version.as_str());
                    let names = stale_version_dirs(&entries, dir.as_str());
                    pending.ask(Phase::Cleaning, Action::RemoveDirs { names })
                },
                _ => pending.fetch(),
            },
            Phase::Cleaning => pending.fetch(),
            Phase::Fetching => match reply {
                Reply::Failed(message) => Progress::Finished(
                    Err(AcquireError::DownloadFailure { message }),
                ),
                _ => {
                    let path = expected_binary_path(
                        pending.version.as_str(),
                        pending.platform.os,
                    );
                    pending.ask(Phase::MarkingExecutable, Action::MakeExecutable { path })
                },
            },
            Phase::MarkingExecutable => match reply {
                Reply::Failed(message) => Progress::Finished(
                    Err(AcquireError::PermissionFailure { message }),
                ),
                _ => pending.probe_binary(Phase::Verifying),
            },
            Phase::Verifying => {
                if confirms_presence(&reply) {
                    pending.announce_idle()
                } else {
                    Progress::Finished(
                        Err(AcquireError::InstallVerificationFailure { version: pending.version }),
                    )
                }
            },
            Phase::AnnouncingIdle => {
                let expected = expected_binary_path(pending.version.as_str(), pending.platform.os);
                self.cached_server_path = Some(expected.clone());
                Progress::Finished(Ok(expected))
            },
        }
    }
}

} // verus!
