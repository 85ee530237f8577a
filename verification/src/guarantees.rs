//! What holds of every acquisition, whatever the host replies.

use crate::acquire::{spec_begin, AcquisitionView, Phase, ProgressView, StepView};
use crate::cleanup::{
    lemma_needs_download, lemma_other_version_dir_is_stale, lemma_stale_entries,
    spec_stale_entries,
};
use crate::error::AcquireErrorView;
use crate::layout::{
    lemma_expected_binary_path_injective, spec_expected_binary_path, spec_version_dir,
};
use crate::platform::{supported, Platform};
use crate::protocol::{spec_confirms_presence, ActionView, InstallStatus, ReplyView};
use crate::trace::{
    lemma_acquire_invariant, lemma_run_first, lemma_run_push, notify, probe, spec_acquire,
    spec_consistent, spec_downloads_pinned_release, spec_last_probe_confirmed, spec_run,
};
use vstd::prelude::*;

verus! {

/// An acquisition ends in one of two ways: with the expected path, which is
/// then the cached one, or with an error and nothing cached. Until then it
/// stays with its version and platform, and asks for what its phase awaits.
pub proof fn lemma_acquire_consistent(
    cache: Option<Seq<char>>,
    version: Seq<char>,
    platform: Platform,
    replies: Seq<ReplyView>,
)
    ensures
        spec_consistent(
            spec_acquire(cache, version, platform, replies).cache,
            spec_acquire(cache, version, platform, replies).progress,
            version,
            platform,
        ),
{
    lemma_acquire_invariant(cache, version, platform, replies);
}

/// The host performs one action for each reply it gives, and after ten
/// replies every acquisition has finished.
pub proof fn lemma_acquisition_finishes(
    cache: Option<Seq<char>>,
    version: Seq<char>,
    platform: Platform,
    replies: Seq<ReplyView>,
)
    ensures
        spec_acquire(cache, version, platform, replies).performed.len() <= replies.len(),
        spec_acquire(cache, version, platform, replies).performed.len() <= 10,
        spec_acquire(cache, version, platform, replies).progress is Pending ==> spec_acquire(
            cache,
            version,
            platform,
            replies,
        ).performed.len() == replies.len(),
        replies.len() >= 10 ==> spec_acquire(cache, version, platform, replies).progress
            is Finished,
    decreases replies.len(),
{
    lemma_acquire_invariant(cache, version, platform, replies);
    if replies.len() > 0 {
        lemma_acquisition_finishes(cache, version, platform, replies.drop_last());
        lemma_acquire_invariant(cache, version, platform, replies.drop_last());
    }
}

/// Whatever the host replies, the only download that an acquisition asks for
/// is that of the pinned release for the platform, from the address that is
/// built from the version and the asset's name alone.
pub proof fn lemma_downloads_pinned_release_only(
    cache: Option<Seq<char>>,
    version: Seq<char>,
    platform: Platform,
    replies: Seq<ReplyView>,
)
    ensures
        ({
            let end = spec_acquire(cache, version, platform, replies);
            &&& forall|i: int|
                0 <= i < end.performed.len() ==> spec_downloads_pinned_release(
                    #[trigger] end.performed[i],
                    version,
                    platform,
                )
            &&& end.progress matches ProgressView::Pending(_, action)
                ==> spec_downloads_pinned_release(action, version, platform)
        }),
{
    lemma_acquire_invariant(cache, version, platform, replies);
}

/// No acquisition downloads twice.
pub proof fn lemma_at_most_one_download(
    cache: Option<Seq<char>>,
    version: Seq<char>,
    platform: Platform,
    replies: Seq<ReplyView>,
    first: int,
    second: int,
)
    requires
        0 <= first < spec_acquire(cache, version, platform, replies).performed.len(),
        0 <= second < spec_acquire(cache, version, platform, replies).performed.len(),
        spec_acquire(cache, version, platform, replies).performed[first] is FetchArchive,
        spec_acquire(cache, version, platform, replies).performed[second] is FetchArchive,
    ensures
        first == second,
{
    lemma_acquire_invariant(cache, version, platform, replies);
}

/// An acquisition succeeds only on the host's word that the binary exists:
/// the last probe before the success asked for the returned path and was
/// answered with `Present(true)`.
pub proof fn lemma_success_follows_confirmation(
    cache: Option<Seq<char>>,
    version: Seq<char>,
    platform: Platform,
    replies: Seq<ReplyView>,
    path: Seq<char>,
)
    requires
        spec_acquire(cache, version, platform, replies).progress == ProgressView::Finished(
            Ok(path),
        ),
    ensures
        path == spec_expected_binary_path(version, platform.os),
        spec_last_probe_confirmed(
            spec_acquire(cache, version, platform, replies).performed,
            replies,
            path,
        ),
{
    lemma_acquire_invariant(cache, version, platform, replies);
}

/// A cached path that is expected and still on disk is returned at once:
/// the host is asked to probe it, and for nothing else.
pub proof fn lemma_cache_hit(version: Seq<char>, platform: Platform)
    ensures
        ({
            let path = spec_expected_binary_path(version, platform.os);
            let end = spec_acquire(Some(path), version, platform, seq![ReplyView::Present(true)]);
            &&& end.performed == seq![probe(path)]
            &&& end.progress == ProgressView::Finished(Ok(path))
            &&& end.cache == Some(path)
        }),
{
    let path = spec_expected_binary_path(version, platform.os);
    let start = spec_begin(Some(path), version, platform);
    lemma_run_push(start, Seq::empty(), ReplyView::Present(true));
}

/// An acquisition directly after a successful one of the same version, with
/// the binary still on disk, asks the host to probe the path and for nothing
/// else: no notification, no download.
pub proof fn lemma_second_acquisition_hits_cache(
    cache: Option<Seq<char>>,
    version: Seq<char>,
    platform: Platform,
    replies: Seq<ReplyView>,
    path: Seq<char>,
)
    requires
        spec_acquire(cache, version, platform, replies).progress == ProgressView::Finished(
            Ok(path),
        ),
    ensures
        ({
            let first = spec_acquire(cache, version, platform, replies);
            let second = spec_acquire(
                first.cache,
                version,
                platform,
                seq![ReplyView::Present(true)],
            );
            &&& second.performed == seq![probe(path)]
            &&& second.progress == ProgressView::Finished(Ok(path))
            &&& second.cache == Some(path)
        }),
{
    lemma_acquire_invariant(cache, version, platform, replies);
    lemma_cache_hit(version, platform);
}

/// The request that starts the download of `version` for `platform`.
pub open spec fn spec_fetch_request(version: Seq<char>, platform: Platform) -> ProgressView {
    AcquisitionView { version, platform, phase: Phase::Fetching }.fetch()
}

/// What the host answers between the first notification and the download:
/// to the two notifications, to the probe of the binary, to the listing and,
/// where there was a listing, to the removal of stale directories.
pub open spec fn spec_download_replies(
    checking: ReplyView,
    downloading: ReplyView,
    found: ReplyView,
    listing: ReplyView,
    removed: ReplyView,
) -> Seq<ReplyView> {
    if listing is Entries {
        seq![checking, downloading, found, listing, removed]
    } else {
        seq![checking, downloading, found, listing]
    }
}

/// What the host is asked to do between the cache check and the download of
/// `version`, given its answer to the listing.
pub open spec fn spec_download_actions(
    version: Seq<char>,
    platform: Platform,
    listing: ReplyView,
) -> Seq<ActionView> {
    let path = spec_expected_binary_path(version, platform.os);
    let front = seq![
        notify(InstallStatus::CheckingForUpdate),
        notify(InstallStatus::Downloading),
        probe(path),
        ActionView::ListWorkingDir,
    ];
    match listing {
        ReplyView::Entries(names) => front.push(
            ActionView::RemoveDirs { names: spec_stale_entries(names, spec_version_dir(version)) },
        ),
        _ => front,
    }
}

/// Once the user is being told that the pinned release is looked for, a
/// supported platform and a binary that is missing or misplaced lead to the
/// download, by way of the second notification, the probe, the listing and
/// the cleanup.
pub proof fn lemma_miss_leads_to_download(
    cache: Option<Seq<char>>,
    acquisition: AcquisitionView,
    checking: ReplyView,
    downloading: ReplyView,
    found: ReplyView,
    listing: ReplyView,
    removed: ReplyView,
)
    requires
        supported(acquisition.platform),
        !spec_confirms_presence(found) || acquisition.version.contains('/'),
    ensures
        ({
            let start = StepView { cache, progress: acquisition.announce_check() };
            let replies = spec_download_replies(checking, downloading, found, listing, removed);
            let end = spec_run(start, replies);
            &&& end.cache == cache
            &&& end.progress == spec_fetch_request(acquisition.version, acquisition.platform)
            &&& end.performed == spec_download_actions(
                acquisition.version,
                acquisition.platform,
                listing,
            )
        }),
{
    let start = StepView { cache, progress: acquisition.announce_check() };
    let none = Seq::<ReplyView>::empty();
    lemma_needs_download(
        spec_confirms_presence(found),
        acquisition.version,
        acquisition.platform.os,
    );
    lemma_run_push(start, none, checking);
    lemma_run_push(start, none.push(checking), downloading);
    lemma_run_push(start, none.push(checking).push(downloading), found);
    lemma_run_push(start, none.push(checking).push(downloading).push(found), listing);
    let listed = none.push(checking).push(downloading).push(found).push(listing);
    if listing is Entries {
        lemma_run_push(start, listed, removed);
        assert(spec_download_replies(checking, downloading, found, listing, removed)
            =~= listed.push(removed));
    } else {
        assert(spec_download_replies(checking, downloading, found, listing, removed) =~= listed);
    }
}

/// Where the cached binary has been deleted, the acquisition starts over:
/// after the probe of the cached path nothing is cached, the user is
/// notified, and the release is downloaded again.
pub proof fn lemma_deleted_binary_is_downloaded_again(
    version: Seq<char>,
    platform: Platform,
    gone: ReplyView,
    checking: ReplyView,
    downloading: ReplyView,
    still_gone: ReplyView,
    listing: ReplyView,
    removed: ReplyView,
)
    requires
        supported(platform),
        !spec_confirms_presence(gone),
        !spec_confirms_presence(still_gone),
    ensures
        ({
            let path = spec_expected_binary_path(version, platform.os);
            let replies = seq![gone] + spec_download_replies(
                checking,
                downloading,
                still_gone,
                listing,
                removed,
            );
            let end = spec_acquire(Some(path), version, platform, replies);
            &&& end.cache is None
            &&& end.progress == spec_fetch_request(version, platform)
            &&& end.performed == seq![probe(path)] + spec_download_actions(
                version,
                platform,
                listing,
            )
        }),
{
    let path = spec_expected_binary_path(version, platform.os);
    let start = spec_begin(Some(path), version, platform);
    let acquisition = AcquisitionView { version, platform, phase: Phase::ProbingCache };
    let rest = spec_download_replies(checking, downloading, still_gone, listing, removed);
    lemma_run_first(start, gone, rest);
    lemma_miss_leads_to_download(
        None,
        acquisition,
        checking,
        downloading,
        still_gone,
        listing,
        removed,
    );
}

/// Where the pinned version has changed since the last acquisition, the
/// cached path is dropped without a probe, every listed directory of another
/// version, the old one among them, is handed to the host for removal, and
/// the new release is downloaded into its own directory.
pub proof fn lemma_version_change_replaces_old(
    old_version: Seq<char>,
    new_version: Seq<char>,
    platform: Platform,
    checking: ReplyView,
    downloading: ReplyView,
    found: ReplyView,
    names: Seq<Seq<char>>,
    removed: ReplyView,
)
    requires
        old_version != new_version,
        supported(platform),
        !spec_confirms_presence(found) || new_version.contains('/'),
    ensures
        ({
            let cached = spec_expected_binary_path(old_version, platform.os);
            let listing = ReplyView::Entries(names);
            let replies = spec_download_replies(checking, downloading, found, listing, removed);
            let end = spec_acquire(Some(cached), new_version, platform, replies);
            let stale = spec_stale_entries(names, spec_version_dir(new_version));
            &&& end.cache is None
            &&& end.progress == spec_fetch_request(new_version, platform)
            &&& end.performed == spec_download_actions(new_version, platform, listing)
            &&& end.performed.last() == ActionView::RemoveDirs { names: stale }
            &&& names.contains(spec_version_dir(old_version)) ==> stale.contains(
                spec_version_dir(old_version),
            )
            &&& !stale.contains(spec_version_dir(new_version))
        }),
{
    let listing = ReplyView::Entries(names);
    let acquisition = AcquisitionView {
        version: new_version,
        platform,
        phase: Phase::ProbingCache,
    };
    lemma_expected_binary_path_injective(old_version, new_version, platform.os);
    lemma_miss_leads_to_download(None, acquisition, checking, downloading, found, listing, removed);
    lemma_other_version_dir_is_stale(old_version, new_version);
    lemma_stale_entries(names, spec_version_dir(new_version), spec_version_dir(old_version));
    lemma_stale_entries(names, spec_version_dir(new_version), spec_version_dir(new_version));
}

/// Without a cached path that is up to date, an acquisition for a platform
/// for which nothing is published shows the first status and then fails: the
/// host is asked for nothing else, and nothing is cached.
pub proof fn lemma_unsupported_platform_fails(
    cache: Option<Seq<char>>,
    version: Seq<char>,
    platform: Platform,
    checking: ReplyView,
)
    requires
        !supported(platform),
        cache != Some(spec_expected_binary_path(version, platform.os)),
    ensures
        ({
            let end = spec_acquire(cache, version, platform, seq![checking]);
            &&& end.performed == seq![notify(InstallStatus::CheckingForUpdate)]
            &&& end.progress == ProgressView::Finished(
                Err(AcquireErrorView::UnsupportedPlatform { platform }),
            )
            &&& end.cache is None
        }),
{
    lemma_run_push(spec_begin(cache, version, platform), Seq::empty(), checking);
}

/// With a cached path that is up to date but no longer on disk, an
/// acquisition for a platform for which nothing is published probes the
/// path, shows the first status and then fails: the host is asked for
/// nothing else, and nothing is cached.
pub proof fn lemma_unsupported_platform_fails_after_probe(
    version: Seq<char>,
    platform: Platform,
    gone: ReplyView,
    checking: ReplyView,
)
    requires
        !supported(platform),
        !spec_confirms_presence(gone),
    ensures
        ({
            let path = spec_expected_binary_path(version, platform.os);
            let end = spec_acquire(Some(path), version, platform, seq![gone, checking]);
            &&& end.performed == seq![probe(path), notify(InstallStatus::CheckingForUpdate)]
            &&& end.progress == ProgressView::Finished(
                Err(AcquireErrorView::UnsupportedPlatform { platform }),
            )
            &&& end.cache is None
        }),
{
    let path = spec_expected_binary_path(version, platform.os);
    let start = spec_begin(Some(path), version, platform);
    lemma_run_push(start, Seq::empty(), gone);
    lemma_run_push(start, Seq::empty().push(gone), checking);
    assert(seq![gone, checking] =~= Seq::empty().push(gone).push(checking));
}

} // verus!
