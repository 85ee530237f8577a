//! Whole acquisitions: what the host is asked to do, reply after reply.

use crate::acquire::{spec_begin, spec_resume, AcquisitionView, Phase, ProgressView, StepView};
use crate::layout::{spec_download_url, spec_expected_binary_path, spec_version_dir};
use crate::platform::{spec_asset_name, Platform};
use crate::protocol::{
    spec_confirms_presence, ActionView, ArchiveKind, InstallStatus, ReplyView,
};
use vstd::prelude::*;

verus! {

/// Where a conversation with the host stands: the cached path, how far the
/// acquisition has come, and the actions that the host has performed so far.
pub struct TraceView {
    pub cache: Option<Seq<char>>,
    pub progress: ProgressView,
    pub performed: Seq<ActionView>,
}

/// The conversation that starts with `start` and in which the host answers
/// with `replies`, one for each action it performs. Replies that come after
/// the acquisition has finished change nothing.
pub open spec fn spec_run(start: StepView, replies: Seq<ReplyView>) -> TraceView
    decreases replies.len(),
{
    if replies.len() == 0 {
        TraceView { cache: start.cache, progress: start.progress, performed: Seq::empty() }
    } else {
        let before = spec_run(start, replies.drop_last());
        match before.progress {
            ProgressView::Pending(acquisition, action) => {
                let step = spec_resume(before.cache, acquisition, replies.last());
                TraceView {
                    cache: step.cache,
                    progress: step.progress,
                    performed: before.performed.push(action),
                }
            },
            ProgressView::Finished(_) => before,
        }
    }
}

/// A whole acquisition of `version` for `platform`, begun with `cache`.
pub open spec fn spec_acquire(
    cache: Option<Seq<char>>,
    version: Seq<char>,
    platform: Platform,
    replies: Seq<ReplyView>,
) -> TraceView {
    spec_run(spec_begin(cache, version, platform), replies)
}

/// The request to probe the file at `path`.
pub open spec fn probe(path: Seq<char>) -> ActionView {
    ActionView::ProbeFile { path }
}

/// The request to show `status`.
pub open spec fn notify(status: InstallStatus) -> ActionView {
    ActionView::Notify { status }
}

/// How far along a phase is: each step of an acquisition leads to a later one.
pub open spec fn spec_rank(phase: Phase) -> nat {
    match phase {
        Phase::ProbingCache => 0,
        Phase::AnnouncingCheck => 1,
        Phase::AnnouncingDownload => 2,
        Phase::ProbingBinary => 3,
        Phase::Listing => 4,
        Phase::Cleaning => 5,
        Phase::Fetching => 6,
        Phase::MarkingExecutable => 7,
        Phase::Verifying => 8,
        Phase::AnnouncingIdle => 9,
    }
}

/// Whether `action`, if it is a download, is the download of the archive
/// published for `platform` in the release of `version`, unpacked as a
/// gzipped tar archive into the version directory.
pub open spec fn spec_downloads_pinned_release(
    action: ActionView,
    version: Seq<char>,
    platform: Platform,
) -> bool {
    action is FetchArchive ==> {
        &&& spec_asset_name(platform) matches Some(asset)
        &&& action == ActionView::FetchArchive {
            url: spec_download_url(version, asset),
            dest_dir: spec_version_dir(version),
            kind: ArchiveKind::GzipTar,
        }
    }
}

/// Whether `action` is what `acquisition` waits for in its phase.
pub open spec fn spec_awaits(acquisition: AcquisitionView, action: ActionView) -> bool {
    match acquisition.phase {
        Phase::ProbingCache | Phase::ProbingBinary | Phase::Verifying => action == probe(
            acquisition.binary_path(),
        ),
        Phase::AnnouncingCheck => action == notify(InstallStatus::CheckingForUpdate),
        Phase::AnnouncingDownload => action == notify(InstallStatus::Downloading),
        Phase::AnnouncingIdle => action == notify(InstallStatus::Idle),
        Phase::Listing => action == ActionView::ListWorkingDir,
        Phase::Cleaning => action is RemoveDirs,
        Phase::Fetching => action is FetchArchive && spec_downloads_pinned_release(
            action,
            acquisition.version,
            acquisition.platform,
        ),
        Phase::MarkingExecutable => action == (ActionView::MakeExecutable {
            path: acquisition.binary_path(),
        }),
    }
}

/// What holds between the cached path and the progress of an acquisition
/// of `version` for `platform`: a cached path is kept only while it is
/// probed, and is back once the acquisition has succeeded, not if it failed.
/// While the acquisition goes on, it is one of that version for that
/// platform, and waits for the action that belongs to its phase.
pub open spec fn spec_consistent(
    cache: Option<Seq<char>>,
    progress: ProgressView,
    version: Seq<char>,
    platform: Platform,
) -> bool {
    let path = spec_expected_binary_path(version, platform.os);
    match progress {
        ProgressView::Pending(acquisition, action) => {
            &&& acquisition.version == version
            &&& acquisition.platform == platform
            &&& spec_awaits(acquisition, action)
            &&& if acquisition.phase == Phase::ProbingCache {
                cache == Some(path)
            } else {
                cache is None
            }
        },
        ProgressView::Finished(Ok(found)) => found == path && cache == Some(path),
        ProgressView::Finished(Err(_)) => cache is None,
    }
}

/// Whether the action at `at` is the last probe among `performed`, asked
/// for `path` and was answered with `Present(true)`, each action being
/// answered by the reply at its own position.
pub open spec fn spec_confirmed_at(
    performed: Seq<ActionView>,
    replies: Seq<ReplyView>,
    path: Seq<char>,
    at: int,
) -> bool {
    &&& 0 <= at < performed.len()
    &&& at < replies.len()
    &&& performed[at] == probe(path)
    &&& spec_confirms_presence(replies[at])
    &&& forall|later: int|
        at < later < performed.len() ==> !(#[trigger] performed[later] is ProbeFile)
}

/// Whether the last probe among `performed` asked for `path` and was
/// answered with `Present(true)`.
pub open spec fn spec_last_probe_confirmed(
    performed: Seq<ActionView>,
    replies: Seq<ReplyView>,
    path: Seq<char>,
) -> bool {
    exists|at: int| spec_confirmed_at(performed, replies, path, at)
}

/// What holds of every conversation that begins an acquisition of `version`
/// for `platform` and goes on with `replies`.
pub open spec fn spec_invariant(
    trace: TraceView,
    version: Seq<char>,
    platform: Platform,
    replies: Seq<ReplyView>,
) -> bool {
    let path = spec_expected_binary_path(version, platform.os);
    let performed = trace.performed;
    &&& spec_consistent(trace.cache, trace.progress, version, platform)
    &&& performed.len() <= replies.len()
    &&& forall|i: int|
        0 <= i < performed.len() ==> spec_downloads_pinned_release(
            #[trigger] performed[i],
            version,
            platform,
        )
    &&& forall|i: int, j: int|
        #![trigger performed[i], performed[j]]
        0 <= i < j < performed.len() ==> !(performed[i] is FetchArchive
            && performed[j] is FetchArchive)
    &&& match trace.progress {
        ProgressView::Pending(acquisition, _) => {
            &&& performed.len() == replies.len()
            &&& spec_rank(acquisition.phase) >= replies.len()
            &&& spec_rank(acquisition.phase) <= spec_rank(Phase::Fetching) ==> forall|i: int|
                0 <= i < performed.len() ==> !(#[trigger] performed[i] is FetchArchive)
            &&& acquisition.phase == Phase::AnnouncingIdle ==> spec_last_probe_confirmed(
                performed,
                replies,
                path,
            )
        },
        ProgressView::Finished(Ok(_)) => spec_last_probe_confirmed(performed, replies, path),
        ProgressView::Finished(Err(_)) => true,
    }
}

/// One more reply extends a conversation by one step.
pub proof fn lemma_run_push(start: StepView, replies: Seq<ReplyView>, reply: ReplyView)
    ensures
        spec_run(start, replies.push(reply)) == match spec_run(start, replies).progress {
            ProgressView::Pending(acquisition, action) => {
                let step = spec_resume(spec_run(start, replies).cache, acquisition, reply);
                TraceView {
                    cache: step.cache,
                    progress: step.progress,
                    performed: spec_run(start, replies).performed.push(action),
                }
            },
            ProgressView::Finished(_) => spec_run(start, replies),
        },
{
    assert(replies.push(reply).drop_last() =~= replies);
}

/// A conversation whose first reply is `reply` is one step, and then the
/// conversation with the remaining replies.
pub proof fn lemma_run_first(start: StepView, reply: ReplyView, rest: Seq<ReplyView>)
    ensures
        match start.progress {
            ProgressView::Pending(acquisition, action) => {
                let after = spec_run(spec_resume(start.cache, acquisition, reply), rest);
                let whole = spec_run(start, seq![reply] + rest);
                &&& whole.cache == after.cache
                &&& whole.progress == after.progress
                &&& whole.performed == seq![action] + after.performed
            },
            ProgressView::Finished(_) => spec_run(start, seq![reply] + rest) == spec_run(
                start,
                Seq::empty(),
            ),
        },
    decreases rest.len(),
{
    if rest.len() == 0 {
        lemma_run_push(start, Seq::empty(), reply);
    } else {
        assert((seq![reply] + rest).drop_last() =~= seq![reply] + rest.drop_last());
        lemma_run_first(start, reply, rest.drop_last());
    }
}

/// Every acquisition keeps to the invariant, whatever the host replies.
pub proof fn lemma_acquire_invariant(
    cache: Option<Seq<char>>,
    version: Seq<char>,
    platform: Platform,
    replies: Seq<ReplyView>,
)
    ensures
        spec_invariant(spec_acquire(cache, version, platform, replies), version, platform, replies),
    decreases replies.len(),
{
    if replies.len() > 0 {
        let path = spec_expected_binary_path(version, platform.os);
        let earlier = replies.drop_last();
        let before = spec_acquire(cache, version, platform, earlier);
        let after = spec_acquire(cache, version, platform, replies);
        lemma_acquire_invariant(cache, version, platform, earlier);
        if spec_last_probe_confirmed(before.performed, earlier, path) {
            // A probe that was confirmed stays the last one unless another follows.
            let at = choose|at: int| spec_confirmed_at(before.performed, earlier, path, at);
            if !(before.progress matches ProgressView::Pending(_, action) && action
                is ProbeFile) {
                assert(spec_confirmed_at(after.performed, replies, path, at));
            }
        }
        if let ProgressView::Pending(_, action) = before.progress {
            if action == probe(path) && spec_confirms_presence(replies.last()) {
                assert(spec_confirmed_at(after.performed, replies, path, earlier.len() as int));
            }
        }
    }
}

} // verus!
