use quickmark_zed::acquire::{Phase, Progress, QuickMarkExtension};
use quickmark_zed::command::Command;
use quickmark_zed::error::AcquireError;
use quickmark_zed::platform::{Architecture, Os, Platform};
use quickmark_zed::protocol::{Action, ArchiveKind, InstallStatus, Reply};

const LINUX: Platform = Platform { os: Os::Linux, arch: Architecture::X8664 };
const WINDOWS_ARM: Platform = Platform { os: Os::Windows, arch: Architecture::Aarch64 };

const PATH_1_1_0: &str = "quickmark-server-1.1.0/quickmark-server";
const URL_1_1_0_LINUX: &str = "https://github.com/ekropotin/quickmark/releases/download/quickmark-server@1.1.0/quickmark-server-x86_64-unknown-linux-gnu.tar.gz";

/// Feeds `replies` to an acquisition, one for each action it asks for, and
/// hands back the actions that were answered and where the acquisition stands.
fn converse(
    extension: &mut QuickMarkExtension,
    version: &str,
    platform: Platform,
    replies: Vec<Reply>,
) -> (Vec<Action>, Progress) {
    let mut performed = Vec::new();
    let mut progress = extension.begin(version.to_string(), platform);
    for reply in replies {
        progress = match progress {
            Progress::Pending(acquisition, action) => {
                performed.push(action);
                extension.resume(acquisition, reply)
            }
            finished => finished,
        };
    }
    (performed, progress)
}

fn probe(path: &str) -> Action {
    Action::ProbeFile { path: path.to_string() }
}

fn notify(status: InstallStatus) -> Action {
    Action::Notify { status }
}

fn remove(names: &[&str]) -> Action {
    Action::RemoveDirs { names: names.iter().map(|name| name.to_string()).collect() }
}

fn fetch(url: &str, dest_dir: &str) -> Action {
    Action::FetchArchive {
        url: url.to_string(),
        dest_dir: dest_dir.to_string(),
        kind: ArchiveKind::GzipTar,
    }
}

fn make_executable(path: &str) -> Action {
    Action::MakeExecutable { path: path.to_string() }
}

fn entries(names: &[&str]) -> Reply {
    Reply::Entries(names.iter().map(|name| name.to_string()).collect())
}

fn pending_action(progress: &Progress) -> &Action {
    match progress {
        Progress::Pending(_, action) => action,
        Progress::Finished(outcome) => panic!("finished with {:?}", outcome),
    }
}

fn pending_phase(progress: &Progress) -> Phase {
    match progress {
        Progress::Pending(acquisition, _) => acquisition.phase(),
        Progress::Finished(outcome) => panic!("finished with {:?}", outcome),
    }
}

/// The replies of a host on which everything works and nothing is installed yet.
fn fresh_install_replies(listing: &[&str]) -> Vec<Reply> {
    vec![
        Reply::Done,
        Reply::Done,
        Reply::Present(false),
        entries(listing),
        Reply::Done,
        Reply::Done,
        Reply::Done,
        Reply::Present(true),
        Reply::Done,
    ]
}

#[test]
fn new_extension_has_no_cached_path() {
    assert_eq!(QuickMarkExtension::new().cached_server_path(), None);
}

#[test]
fn fresh_install_asks_for_every_step_in_order() {
    let mut extension = QuickMarkExtension::new();
    let (performed, progress) = converse(
        &mut extension,
        "1.1.0",
        LINUX,
        fresh_install_replies(&["quickmark-server-1.0.0", "logs", "quickmark-server-1.1.0"]),
    );
    assert_eq!(
        performed,
        vec![
            notify(InstallStatus::CheckingForUpdate),
            notify(InstallStatus::Downloading),
            probe(PATH_1_1_0),
            Action::ListWorkingDir,
            remove(&["quickmark-server-1.0.0"]),
            fetch(URL_1_1_0_LINUX, "quickmark-server-1.1.0"),
            make_executable(PATH_1_1_0),
            probe(PATH_1_1_0),
            notify(InstallStatus::Idle),
        ]
    );
    assert_eq!(progress, Progress::Finished(Ok(PATH_1_1_0.to_string())));
    assert_eq!(extension.cached_server_path(), Some(PATH_1_1_0.to_string()));
}

#[test]
fn begin_without_cache_announces_the_check() {
    let mut extension = QuickMarkExtension::new();
    let progress = extension.begin("1.1.0".to_string(), LINUX);
    assert_eq!(pending_action(&progress), &notify(InstallStatus::CheckingForUpdate));
    assert_eq!(pending_phase(&progress), Phase::AnnouncingCheck);
    match progress {
        Progress::Pending(acquisition, _) => {
            assert_eq!(acquisition.version(), "1.1.0");
            assert_eq!(acquisition.platform(), LINUX);
        }
        Progress::Finished(_) => unreachable!(),
    }
}

#[test]
fn second_acquisition_only_probes_the_cached_path() {
    let mut extension = QuickMarkExtension::new();
    converse(&mut extension, "1.1.0", LINUX, fresh_install_replies(&[]));
    let (performed, progress) =
        converse(&mut extension, "1.1.0", LINUX, vec![Reply::Present(true)]);
    assert_eq!(performed, vec![probe(PATH_1_1_0)]);
    assert_eq!(progress, Progress::Finished(Ok(PATH_1_1_0.to_string())));
    assert_eq!(extension.cached_server_path(), Some(PATH_1_1_0.to_string()));
}

#[test]
fn deleted_binary_is_downloaded_again() {
    let mut extension = QuickMarkExtension::new();
    converse(&mut extension, "1.1.0", LINUX, fresh_install_replies(&[]));
    let mut replies = vec![Reply::Present(false)];
    replies.extend(fresh_install_replies(&["quickmark-server-1.1.0"]));
    let (performed, progress) = converse(&mut extension, "1.1.0", LINUX, replies);
    assert_eq!(
        performed,
        vec![
            probe(PATH_1_1_0),
            notify(InstallStatus::CheckingForUpdate),
            notify(InstallStatus::Downloading),
            probe(PATH_1_1_0),
            Action::ListWorkingDir,
            remove(&[]),
            fetch(URL_1_1_0_LINUX, "quickmark-server-1.1.0"),
            make_executable(PATH_1_1_0),
            probe(PATH_1_1_0),
            notify(InstallStatus::Idle),
        ]
    );
    assert_eq!(progress, Progress::Finished(Ok(PATH_1_1_0.to_string())));
}

#[test]
fn cache_is_cleared_as_soon_as_the_probe_fails() {
    let mut extension = QuickMarkExtension::new();
    converse(&mut extension, "1.1.0", LINUX, fresh_install_replies(&[]));
    let (_, progress) = converse(&mut extension, "1.1.0", LINUX, vec![Reply::Present(false)]);
    assert_eq!(pending_action(&progress), &notify(InstallStatus::CheckingForUpdate));
    assert_eq!(extension.cached_server_path(), None);
}

#[test]
fn version_change_drops_cache_and_removes_old_dir() {
    let mut extension = QuickMarkExtension::new();
    converse(&mut extension, "1.1.0", LINUX, fresh_install_replies(&[]));
    let progress = extension.begin("1.2.0".to_string(), LINUX);
    assert_eq!(pending_action(&progress), &notify(InstallStatus::CheckingForUpdate));
    assert_eq!(extension.cached_server_path(), None);

    let mut extension = QuickMarkExtension::new();
    converse(&mut extension, "1.1.0", LINUX, fresh_install_replies(&[]));
    let (performed, progress) = converse(
        &mut extension,
        "1.2.0",
        LINUX,
        fresh_install_replies(&["quickmark-server-1.1.0", "quickmark-server-1.2.0"]),
    );
    assert_eq!(
        performed,
        vec![
            notify(InstallStatus::CheckingForUpdate),
            notify(InstallStatus::Downloading),
            probe("quickmark-server-1.2.0/quickmark-server"),
            Action::ListWorkingDir,
            remove(&["quickmark-server-1.1.0"]),
            fetch(
                "https://github.com/ekropotin/quickmark/releases/download/quickmark-server@1.2.0/quickmark-server-x86_64-unknown-linux-gnu.tar.gz",
                "quickmark-server-1.2.0",
            ),
            make_executable("quickmark-server-1.2.0/quickmark-server"),
            probe("quickmark-server-1.2.0/quickmark-server"),
            notify(InstallStatus::Idle),
        ]
    );
    assert_eq!(
        progress,
        Progress::Finished(Ok("quickmark-server-1.2.0/quickmark-server".to_string()))
    );
    assert_eq!(
        extension.cached_server_path(),
        Some("quickmark-server-1.2.0/quickmark-server".to_string())
    );
}

#[test]
fn binary_already_on_disk_is_not_downloaded() {
    let mut extension = QuickMarkExtension::new();
    let (performed, progress) = converse(
        &mut extension,
        "1.1.0",
        LINUX,
        vec![Reply::Done, Reply::Done, Reply::Present(true), Reply::Done],
    );
    assert_eq!(
        performed,
        vec![
            notify(InstallStatus::CheckingForUpdate),
            notify(InstallStatus::Downloading),
            probe(PATH_1_1_0),
            notify(InstallStatus::Idle),
        ]
    );
    assert_eq!(progress, Progress::Finished(Ok(PATH_1_1_0.to_string())));
    assert_eq!(extension.cached_server_path(), Some(PATH_1_1_0.to_string()));
}

#[test]
fn version_with_a_slash_is_downloaded_even_if_present() {
    let mut extension = QuickMarkExtension::new();
    let (performed, progress) = converse(
        &mut extension,
        "nightly/7",
        LINUX,
        vec![Reply::Done, Reply::Done, Reply::Present(true)],
    );
    assert_eq!(performed.last(), Some(&probe("quickmark-server-nightly/7/quickmark-server")));
    assert_eq!(pending_action(&progress), &Action::ListWorkingDir);
}

#[test]
fn unsupported_platform_fails_after_announcing_the_check() {
    let mut extension = QuickMarkExtension::new();
    let (performed, progress) = converse(&mut extension, "1.1.0", WINDOWS_ARM, vec![Reply::Done]);
    assert_eq!(performed, vec![notify(InstallStatus::CheckingForUpdate)]);
    assert_eq!(
        progress,
        Progress::Finished(Err(AcquireError::UnsupportedPlatform { platform: WINDOWS_ARM }))
    );
    assert_eq!(extension.cached_server_path(), None);
}

#[test]
fn windows_binary_has_exe_suffix_throughout() {
    let windows = Platform { os: Os::Windows, arch: Architecture::X8664 };
    let mut extension = QuickMarkExtension::new();
    let (performed, progress) =
        converse(&mut extension, "1.1.0", windows, fresh_install_replies(&[]));
    assert_eq!(performed[2], probe("quickmark-server-1.1.0/quickmark-server.exe"));
    assert_eq!(
        performed[5],
        fetch(
            "https://github.com/ekropotin/quickmark/releases/download/quickmark-server@1.1.0/quickmark-server-x86_64-pc-windows-msvc.tar.gz",
            "quickmark-server-1.1.0",
        )
    );
    assert_eq!(performed[6], make_executable("quickmark-server-1.1.0/quickmark-server.exe"));
    assert_eq!(
        progress,
        Progress::Finished(Ok("quickmark-server-1.1.0/quickmark-server.exe".to_string()))
    );
}

#[test]
fn unreadable_working_dir_skips_the_cleanup() {
    let mut extension = QuickMarkExtension::new();
    let (performed, progress) = converse(
        &mut extension,
        "1.1.0",
        LINUX,
        vec![
            Reply::Done,
            Reply::Done,
            Reply::Present(false),
            Reply::Failed("permission denied".to_string()),
        ],
    );
    assert_eq!(performed.last(), Some(&Action::ListWorkingDir));
    assert_eq!(pending_action(&progress), &fetch(URL_1_1_0_LINUX, "quickmark-server-1.1.0"));
    assert_eq!(pending_phase(&progress), Phase::Fetching);
}

#[test]
fn failed_removal_does_not_stop_the_download() {
    let mut extension = QuickMarkExtension::new();
    let (performed, progress) = converse(
        &mut extension,
        "1.1.0",
        LINUX,
        vec![
            Reply::Done,
            Reply::Done,
            Reply::Present(false),
            entries(&["quickmark-server-0.1.0"]),
            Reply::Failed("directory not empty".to_string()),
        ],
    );
    assert_eq!(performed.last(), Some(&remove(&["quickmark-server-0.1.0"])));
    assert_eq!(pending_action(&progress), &fetch(URL_1_1_0_LINUX, "quickmark-server-1.1.0"));
}

#[test]
fn download_failure_carries_the_hosts_report() {
    let mut extension = QuickMarkExtension::new();
    let (performed, progress) = converse(
        &mut extension,
        "1.1.0",
        LINUX,
        vec![
            Reply::Done,
            Reply::Done,
            Reply::Present(false),
            entries(&[]),
            Reply::Done,
            Reply::Failed("404 Not Found".to_string()),
        ],
    );
    assert_eq!(performed.len(), 6);
    assert_eq!(
        progress,
        Progress::Finished(Err(AcquireError::DownloadFailure {
            message: "404 Not Found".to_string()
        }))
    );
    assert_eq!(extension.cached_server_path(), None);
}

#[test]
fn permission_failure_carries_the_hosts_report() {
    let mut extension = QuickMarkExtension::new();
    let (performed, progress) = converse(
        &mut extension,
        "1.1.0",
        LINUX,
        vec![
            Reply::Done,
            Reply::Done,
            Reply::Present(false),
            entries(&[]),
            Reply::Done,
            Reply::Done,
            Reply::Failed("read-only file system".to_string()),
        ],
    );
    assert_eq!(performed.last(), Some(&make_executable(PATH_1_1_0)));
    assert_eq!(
        progress,
        Progress::Finished(Err(AcquireError::PermissionFailure {
            message: "read-only file system".to_string()
        }))
    );
    assert_eq!(extension.cached_server_path(), None);
}

#[test]
fn archive_without_the_binary_fails_verification() {
    let mut extension = QuickMarkExtension::new();
    let (performed, progress) = converse(
        &mut extension,
        "1.1.0",
        LINUX,
        vec![
            Reply::Done,
            Reply::Done,
            Reply::Present(false),
            entries(&[]),
            Reply::Done,
            Reply::Done,
            Reply::Done,
            Reply::Present(false),
        ],
    );
    assert_eq!(performed.last(), Some(&probe(PATH_1_1_0)));
    let error = match progress {
        Progress::Finished(Err(error)) => error,
        other => panic!("expected a failure, got {:?}", other),
    };
    assert_eq!(error, AcquireError::InstallVerificationFailure { version: "1.1.0".to_string() });
    assert!(error.message().contains("1.1.0"));
    assert_eq!(extension.cached_server_path(), None);
}

#[test]
fn failure_after_a_stale_cache_leaves_nothing_cached() {
    let mut extension = QuickMarkExtension::new();
    converse(&mut extension, "1.1.0", LINUX, fresh_install_replies(&[]));
    let (_, progress) = converse(
        &mut extension,
        "1.1.0",
        LINUX,
        vec![
            Reply::Present(false),
            Reply::Done,
            Reply::Done,
            Reply::Present(false),
            entries(&[]),
            Reply::Done,
            Reply::Failed("offline".to_string()),
        ],
    );
    assert_eq!(
        progress,
        Progress::Finished(Err(AcquireError::DownloadFailure { message: "offline".to_string() }))
    );
    assert_eq!(extension.cached_server_path(), None);
}

#[test]
fn replies_of_another_shape_count_as_the_plain_outcome() {
    let mut extension = QuickMarkExtension::new();
    let (performed, progress) = converse(
        &mut extension,
        "1.1.0",
        LINUX,
        vec![
            Reply::Present(true),
            entries(&["x"]),
            Reply::Done,
            Reply::Done,
            Reply::Present(false),
            Reply::Present(false),
            Reply::Done,
        ],
    );
    assert_eq!(
        performed,
        vec![
            notify(InstallStatus::CheckingForUpdate),
            notify(InstallStatus::Downloading),
            probe(PATH_1_1_0),
            Action::ListWorkingDir,
            fetch(URL_1_1_0_LINUX, "quickmark-server-1.1.0"),
            make_executable(PATH_1_1_0),
            probe(PATH_1_1_0),
        ]
    );
    assert_eq!(
        progress,
        Progress::Finished(Err(AcquireError::InstallVerificationFailure {
            version: "1.1.0".to_string()
        }))
    );
}

#[test]
fn replies_after_the_end_change_nothing() {
    let mut extension = QuickMarkExtension::new();
    let mut replies = fresh_install_replies(&[]);
    replies.push(Reply::Failed("late".to_string()));
    replies.push(Reply::Present(false));
    let (performed, progress) = converse(&mut extension, "1.1.0", LINUX, replies);
    assert_eq!(performed.len(), 9);
    assert_eq!(progress, Progress::Finished(Ok(PATH_1_1_0.to_string())));
}

#[test]
fn command_starts_the_binary_without_arguments() {
    let launch = QuickMarkExtension::language_server_command(Ok(PATH_1_1_0.to_string()));
    assert_eq!(
        launch,
        Ok(Command { command: PATH_1_1_0.to_string(), args: vec![], env: vec![] })
    );
}

#[test]
fn command_of_a_failure_is_its_message() {
    let launch = QuickMarkExtension::language_server_command(Err(
        AcquireError::InstallVerificationFailure { version: "1.1.0".to_string() },
    ));
    assert_eq!(
        launch,
        Err("Failed to install quickmark-server 1.1.0: binary not found after extraction"
            .to_string())
    );
    let launch = QuickMarkExtension::language_server_command(Err(
        AcquireError::UnsupportedPlatform { platform: WINDOWS_ARM },
    ));
    assert_eq!(launch, Err("Unsupported platform: Os::Windows Architecture::Aarch64".to_string()));
}

/// Every kind of reply, to try each of them at each step.
fn reply_shapes() -> Vec<Reply> {
    vec![
        Reply::Done,
        Reply::Present(true),
        Reply::Present(false),
        entries(&["quickmark-server-0.1.0", "quickmark-server-1.1.0"]),
        Reply::Failed("no".to_string()),
    ]
}

/// All conversations of `length` replies drawn from `reply_shapes`.
fn conversations(length: usize) -> Vec<Vec<Reply>> {
    let mut all: Vec<Vec<Reply>> = vec![vec![]];
    for _ in 0..length {
        let mut longer = Vec::new();
        for conversation in &all {
            for reply in reply_shapes() {
                let mut extended: Vec<Reply> = Vec::new();
                for earlier in conversation {
                    extended.push(match earlier {
                        Reply::Done => Reply::Done,
                        Reply::Present(present) => Reply::Present(*present),
                        Reply::Entries(names) => Reply::Entries(names.to_vec()),
                        Reply::Failed(message) => Reply::Failed(message.to_string()),
                    });
                }
                extended.push(reply);
                longer.push(extended);
            }
        }
        all = longer;
    }
    all
}

#[test]
fn no_conversation_downloads_twice_or_anything_but_the_release() {
    for replies in conversations(5) {
        let mut tail = replies;
        for _ in 0..6 {
            tail.push(Reply::Done);
        }
        let mut extension = QuickMarkExtension::new();
        let (performed, _) = converse(&mut extension, "1.1.0", LINUX, tail);
        let downloads: Vec<&Action> = performed
            .iter()
            .filter(|action| matches!(action, Action::FetchArchive { .. }))
            .collect();
        assert!(downloads.len() <= 1);
        for download in downloads {
            assert_eq!(download, &fetch(URL_1_1_0_LINUX, "quickmark-server-1.1.0"));
        }
    }
}

#[test]
fn every_conversation_is_over_after_ten_replies() {
    for platform in [LINUX, WINDOWS_ARM] {
        for replies in conversations(4) {
            let mut tail = vec![Reply::Present(false)];
            tail.extend(replies);
            for _ in 0..5 {
                tail.push(Reply::Present(true));
            }
            assert_eq!(tail.len(), 10);
            let mut extension = QuickMarkExtension::new();
            converse(&mut extension, "1.1.0", platform, fresh_install_replies(&[]));
            let (performed, progress) = converse(&mut extension, "1.1.0", platform, tail);
            assert!(performed.len() <= 10);
            assert!(matches!(progress, Progress::Finished(_)));
        }
    }
}

#[test]
fn outcome_and_cache_agree_in_every_conversation() {
    for replies in conversations(5) {
        let mut tail = replies;
        for _ in 0..6 {
            tail.push(Reply::Present(true));
        }
        let mut extension = QuickMarkExtension::new();
        let (_, progress) = converse(&mut extension, "1.1.0", LINUX, tail);
        match progress {
            Progress::Finished(Ok(path)) => {
                assert_eq!(path, PATH_1_1_0);
                assert_eq!(extension.cached_server_path(), Some(path));
            }
            Progress::Finished(Err(_)) => assert_eq!(extension.cached_server_path(), None),
            Progress::Pending(..) => panic!("still pending after eleven replies"),
        }
    }
}

#[test]
fn success_follows_a_confirmed_probe_in_every_conversation() {
    for replies in conversations(5) {
        let mut tail = replies;
        for _ in 0..6 {
            tail.push(Reply::Done);
        }
        let mut script = Vec::new();
        for reply in &tail {
            script.push(matches!(reply, Reply::Present(true)));
        }
        let mut extension = QuickMarkExtension::new();
        let (performed, progress) = converse(&mut extension, "1.1.0", LINUX, tail);
        if let Progress::Finished(Ok(path)) = progress {
            let last_probe = performed
                .iter()
                .rposition(|action| matches!(action, Action::ProbeFile { .. }))
                .unwrap();
            assert_eq!(performed[last_probe], probe(&path));
            assert!(script[last_probe]);
        }
    }
}

#[test]
fn unsupported_platform_with_a_vanished_cache_fails_after_the_probe() {
    // A cached path for this platform can only stem from a state that was
    // carried over; the acquisition still probes it before it gives up.
    let windows = Platform { os: Os::Windows, arch: Architecture::X8664 };
    let mut extension = QuickMarkExtension::new();
    converse(&mut extension, "1.1.0", windows, fresh_install_replies(&[]));
    let (performed, progress) = converse(
        &mut extension,
        "1.1.0",
        WINDOWS_ARM,
        vec![Reply::Present(false), Reply::Done],
    );
    assert_eq!(
        performed,
        vec![
            probe("quickmark-server-1.1.0/quickmark-server.exe"),
            notify(InstallStatus::CheckingForUpdate),
        ]
    );
    assert_eq!(
        progress,
        Progress::Finished(Err(AcquireError::UnsupportedPlatform { platform: WINDOWS_ARM }))
    );
    assert_eq!(extension.cached_server_path(), None);
}
