use zed_zig::binary::{decide_override, BinarySettings, Command, Override, ZlsBinary};
use zed_zig::error::ResolveError;
use zed_zig::fetch::DirEntry;
use zed_zig::platform::{Arch, ArchiveKind, Os, PlatformTarget};
use zed_zig::resolve::{Action, Event, InstallStatus, Session, Variant, ZigExtension};

fn txt(s: &str) -> String {
    String::from(s)
}

fn on(os: Os) -> PlatformTarget {
    PlatformTarget { os, arch: Arch::X8664 }
}

fn shell_env() -> Vec<(String, String)> {
    vec![(txt("PATH"), txt("/usr/bin")), (txt("HOME"), txt("/home/u"))]
}

fn is_network(action: &Action) -> bool {
    matches!(action, Action::LatestRelease { .. } | Action::HttpGet(_) | Action::Download { .. })
}

/// Runs a resolution against scripted answers, and returns every action asked for.
fn drive(extension: &mut ZigExtension, platform: PlatformTarget, events: Vec<Event>) -> Vec<Action> {
    let (mut session, mut action): (Session, Action) = extension.begin(platform);
    let mut asked = Vec::new();
    for event in events {
        assert!(!session.is_finished());
        asked.push(action);
        let next = extension.advance(session, event);
        session = next.0;
        action = next.1;
    }
    assert!(matches!(action, Action::Done(_)));
    assert!(session.is_finished());
    assert_eq!(session.platform(), platform);
    asked.push(action);
    asked
}

const BODY: &str = r#"{"version":"0.13.0","x86_64-linux":{"tarball_url":"https://builds.zigtools.org/zls-linux-x86_64-0.13.0.tar.xz","checksum":"ab","size":"1"}}"#;

#[test]
fn new_resolver_is_strict_and_empty() {
    let extension = ZigExtension::new();
    assert_eq!(extension.variant(), Variant::Strict);
    assert_eq!(extension.cache().entry(&None), None);
    let matching = ZigExtension::with_variant(Variant::VersionMatching);
    assert_eq!(matching.variant(), Variant::VersionMatching);
    assert_eq!(matching.cache().entry(&None), None);
}

#[test]
fn begin_asks_for_the_shell_environment_where_there_is_one() {
    let extension = ZigExtension::new();
    assert_eq!(extension.begin(on(Os::Linux)).1, Action::ShellEnv);
    assert_eq!(extension.begin(on(Os::Mac)).1, Action::ShellEnv);
    assert_eq!(extension.begin(on(Os::Windows)).1, Action::Settings(txt("zls")));
}

#[test]
fn settings_decide_the_override() {
    assert_eq!(decide_override(None), Override::Search);
    assert_eq!(
        decide_override(Some(BinarySettings { path: None, arguments: None })),
        Override::Search
    );
    assert_eq!(
        decide_override(Some(BinarySettings { path: None, arguments: Some(vec![txt("-v")]) })),
        Override::Remember(vec![txt("-v")])
    );
    assert_eq!(
        decide_override(Some(BinarySettings { path: Some(txt("/opt/zls")), arguments: None })),
        Override::Use { path: txt("/opt/zls"), arguments: None }
    );
    assert_eq!(
        decide_override(Some(BinarySettings {
            path: Some(txt("/opt/zls")),
            arguments: Some(vec![txt("-v")]),
        })),
        Override::Use { path: txt("/opt/zls"), arguments: Some(vec![txt("-v")]) }
    );
}

#[test]
fn configured_path_wins_without_network_or_cache() {
    for variant in [Variant::Strict, Variant::VersionMatching] {
        let mut extension = ZigExtension::with_variant(variant);
        extension_seed(&mut extension);
        let asked = drive(
            &mut extension,
            on(Os::Linux),
            vec![
                Event::ShellEnv(shell_env()),
                Event::Settings(Some(BinarySettings {
                    path: Some(txt("/does/not/exist/zls")),
                    arguments: Some(vec![txt("--enable-debug-log")]),
                })),
            ],
        );
        assert_eq!(
            asked,
            vec![
                Action::ShellEnv,
                Action::Settings(txt("zls")),
                Action::Done(Ok(ZlsBinary {
                    path: txt("/does/not/exist/zls"),
                    args: Some(vec![txt("--enable-debug-log")]),
                    environment: Some(shell_env()),
                })),
            ]
        );
        assert!(asked.iter().all(|a| !is_network(a)));
    }
}

fn extension_seed(extension: &mut ZigExtension) {
    let asked = drive(
        extension,
        on(Os::Windows),
        vec![
            Event::Settings(None),
            Event::Which(Some(txt("C:/zls.exe"))),
        ],
    );
    assert_eq!(asked.len(), 3);
}

#[test]
fn configured_path_on_windows_has_no_environment() {
    let mut extension = ZigExtension::new();
    let asked = drive(
        &mut extension,
        on(Os::Windows),
        vec![Event::Settings(Some(BinarySettings { path: Some(txt("C:/zls.exe")), arguments: None }))],
    );
    assert_eq!(
        asked,
        vec![
            Action::Settings(txt("zls")),
            Action::Done(Ok(ZlsBinary { path: txt("C:/zls.exe"), args: None, environment: None })),
        ]
    );
}

#[test]
fn binary_on_the_search_path_is_taken_without_arguments() {
    let mut extension = ZigExtension::new();
    let asked = drive(
        &mut extension,
        on(Os::Mac),
        vec![
            Event::ShellEnv(shell_env()),
            Event::Settings(Some(BinarySettings { path: None, arguments: None })),
            Event::Which(Some(txt("/usr/local/bin/zls"))),
        ],
    );
    assert_eq!(
        asked,
        vec![
            Action::ShellEnv,
            Action::Settings(txt("zls")),
            Action::Which(txt("zls")),
            Action::Done(Ok(ZlsBinary {
                path: txt("/usr/local/bin/zls"),
                args: None,
                environment: Some(shell_env()),
            })),
        ]
    );
    assert_eq!(extension.cache().entry(&None), None);
}

fn strict_download_events() -> Vec<Event> {
    vec![
        Event::ShellEnv(shell_env()),
        Event::Settings(None),
        Event::Which(None),
        Event::Notified,
        Event::Release(Ok(txt("0.14.0"))),
        Event::FileStatus(false),
        Event::Notified,
        Event::Downloaded(Ok(())),
        Event::MadeExecutable(Ok(())),
        Event::Listing(Ok(vec![
            DirEntry::Named(txt("zls-0.13.0")),
            DirEntry::Named(txt("zls-0.14.0")),
            DirEntry::Unnamed,
        ])),
        Event::Removed,
    ]
}

#[test]
fn strict_resolution_downloads_the_latest_release_and_prunes() {
    let mut extension = ZigExtension::new();
    let asked = drive(&mut extension, on(Os::Linux), strict_download_events());
    assert_eq!(
        asked,
        vec![
            Action::ShellEnv,
            Action::Settings(txt("zls")),
            Action::Which(txt("zls")),
            Action::Notify(InstallStatus::CheckingForUpdate),
            Action::LatestRelease {
                repo: txt("zigtools/zls"),
                require_assets: true,
                pre_release: false,
            },
            Action::CheckFile(txt("zls-0.14.0/zls")),
            Action::Notify(InstallStatus::Downloading),
            Action::Download {
                url: txt("https://builds.zigtools.org/zls-x86_64-linux-0.14.0.tar.gz"),
                dir: txt("zls-0.14.0"),
                kind: ArchiveKind::GzipTar,
            },
            Action::MakeExecutable(txt("zls-0.14.0/zls")),
            Action::ListWorkingDir,
            Action::Remove(vec![0, 2]),
            Action::Done(Ok(ZlsBinary {
                path: txt("zls-0.14.0/zls"),
                args: None,
                environment: Some(shell_env()),
            })),
        ]
    );
    assert_eq!(extension.cache().entry(&None), Some(txt("zls-0.14.0/zls")));
}

#[test]
fn second_resolution_asks_the_network_for_nothing() {
    let mut extension = ZigExtension::new();
    let first = drive(&mut extension, on(Os::Linux), strict_download_events());
    assert!(first.iter().any(is_network));
    let second = drive(
        &mut extension,
        on(Os::Linux),
        vec![
            Event::ShellEnv(shell_env()),
            Event::Settings(None),
            Event::Which(None),
            Event::FileStatus(true),
        ],
    );
    assert_eq!(
        second,
        vec![
            Action::ShellEnv,
            Action::Settings(txt("zls")),
            Action::Which(txt("zls")),
            Action::CheckFile(txt("zls-0.14.0/zls")),
            Action::Done(Ok(ZlsBinary {
                path: txt("zls-0.14.0/zls"),
                args: None,
                environment: Some(shell_env()),
            })),
        ]
    );
    assert!(second.iter().all(|a| !is_network(a)));
    assert_eq!(first.last(), second.last());
}

#[test]
fn binary_already_on_disk_is_not_downloaded_again() {
    let mut extension = ZigExtension::new();
    let asked = drive(
        &mut extension,
        on(Os::Windows),
        vec![
            Event::Settings(None),
            Event::Which(None),
            Event::Notified,
            Event::Release(Ok(txt("0.14.0"))),
            Event::FileStatus(true),
        ],
    );
    assert_eq!(
        asked,
        vec![
            Action::Settings(txt("zls")),
            Action::Which(txt("zls")),
            Action::Notify(InstallStatus::CheckingForUpdate),
            Action::LatestRelease {
                repo: txt("zigtools/zls"),
                require_assets: true,
                pre_release: false,
            },
            Action::CheckFile(txt("zls-0.14.0/zls.exe")),
            Action::Done(Ok(ZlsBinary {
                path: txt("zls-0.14.0/zls.exe"),
                args: None,
                environment: None,
            })),
        ]
    );
    assert!(asked.iter().all(|a| !matches!(a, Action::Download { .. })));
    assert_eq!(extension.cache().entry(&None), Some(txt("zls-0.14.0/zls.exe")));
}

#[test]
fn stale_cache_entry_leads_to_a_cold_start() {
    let mut extension = ZigExtension::new();
    drive(&mut extension, on(Os::Linux), strict_download_events());
    let asked = drive(
        &mut extension,
        on(Os::Linux),
        vec![
            Event::ShellEnv(shell_env()),
            Event::Settings(None),
            Event::Which(None),
            Event::FileStatus(false),
            Event::Notified,
            Event::Release(Ok(txt("0.15.0"))),
            Event::FileStatus(false),
            Event::Notified,
            Event::Downloaded(Ok(())),
            Event::MadeExecutable(Ok(())),
            Event::Listing(Ok(vec![DirEntry::Named(txt("zls-0.15.0"))])),
            Event::Removed,
        ],
    );
    assert_eq!(asked[3], Action::CheckFile(txt("zls-0.14.0/zls")));
    assert_eq!(asked[4], Action::Notify(InstallStatus::CheckingForUpdate));
    assert_eq!(
        asked[5],
        Action::LatestRelease { repo: txt("zigtools/zls"), require_assets: true, pre_release: false }
    );
    assert_eq!(asked[11], Action::Remove(Vec::new()));
    assert_eq!(
        asked[12],
        Action::Done(Ok(ZlsBinary {
            path: txt("zls-0.15.0/zls"),
            args: None,
            environment: Some(shell_env()),
        }))
    );
    assert_eq!(extension.cache().entry(&None), Some(txt("zls-0.15.0/zls")));
}

#[test]
fn configured_arguments_go_with_the_downloaded_binary() {
    let mut extension = ZigExtension::new();
    let asked = drive(
        &mut extension,
        on(Os::Windows),
        vec![
            Event::Settings(Some(BinarySettings { path: None, arguments: Some(vec![txt("-v")]) })),
            Event::Notified,
            Event::Release(Ok(txt("0.14.0"))),
            Event::FileStatus(false),
            Event::Notified,
            Event::Downloaded(Ok(())),
            Event::MadeExecutable(Ok(())),
            Event::Listing(Ok(Vec::new())),
            Event::Removed,
        ],
    );
    assert_eq!(asked[1], Action::Notify(InstallStatus::CheckingForUpdate));
    assert_eq!(
        asked[5],
        Action::Download {
            url: txt("https://builds.zigtools.org/zls-x86_64-windows-0.14.0.zip"),
            dir: txt("zls-0.14.0"),
            kind: ArchiveKind::Zip,
        }
    );
    assert_eq!(
        asked[9],
        Action::Done(Ok(ZlsBinary {
            path: txt("zls-0.14.0/zls.exe"),
            args: Some(vec![txt("-v")]),
            environment: None,
        }))
    );
}

#[test]
fn version_matching_asks_the_compatibility_endpoint() {
    let mut extension = ZigExtension::with_variant(Variant::VersionMatching);
    let asked = drive(
        &mut extension,
        on(Os::Linux),
        vec![
            Event::ShellEnv(shell_env()),
            Event::Settings(None),
            Event::Which(None),
            Event::Toolchain(Some(txt("0.13.0\n"))),
            Event::Notified,
            Event::Http(Ok(BODY.as_bytes().to_vec())),
            Event::FileStatus(false),
            Event::Notified,
            Event::Downloaded(Ok(())),
            Event::MadeExecutable(Ok(())),
        ],
    );
    assert_eq!(
        asked,
        vec![
            Action::ShellEnv,
            Action::Settings(txt("zls")),
            Action::Which(txt("zls")),
            Action::ProbeToolchain,
            Action::Notify(InstallStatus::CheckingForUpdate),
            Action::HttpGet(txt(
                "https://releases.zigtools.org/v1/zls/select-version?zig_version=0.13.0&compatibility=only-runtime"
            )),
            Action::CheckFile(txt("zls-0.13.0/zls")),
            Action::Notify(InstallStatus::Downloading),
            Action::Download {
                url: txt("https://builds.zigtools.org/zls-linux-x86_64-0.13.0.tar.gz"),
                dir: txt("zls-0.13.0"),
                kind: ArchiveKind::GzipTar,
            },
            Action::MakeExecutable(txt("zls-0.13.0/zls")),
            Action::Done(Ok(ZlsBinary {
                path: txt("zls-0.13.0/zls"),
                args: None,
                environment: Some(shell_env()),
            })),
        ]
    );
    assert_eq!(extension.cache().entry(&Some(txt("0.13.0"))), Some(txt("zls-0.13.0/zls")));
    assert_eq!(extension.cache().entry(&None), None);
}

#[test]
fn version_matching_finds_the_entry_of_a_padded_version() {
    let mut extension = ZigExtension::with_variant(Variant::VersionMatching);
    drive(
        &mut extension,
        on(Os::Linux),
        vec![
            Event::ShellEnv(shell_env()),
            Event::Settings(None),
            Event::Which(None),
            Event::Toolchain(Some(txt("0.13.0\n"))),
            Event::Notified,
            Event::Http(Ok(BODY.as_bytes().to_vec())),
            Event::FileStatus(true),
        ],
    );
    let asked = drive(
        &mut extension,
        on(Os::Linux),
        vec![
            Event::ShellEnv(shell_env()),
            Event::Settings(None),
            Event::Which(None),
            Event::Toolchain(Some(txt("0.13.0"))),
            Event::FileStatus(true),
        ],
    );
    assert_eq!(asked[4], Action::CheckFile(txt("zls-0.13.0/zls")));
    assert!(asked.iter().all(|a| !is_network(a)));
    let other = drive(
        &mut extension,
        on(Os::Linux),
        vec![
            Event::ShellEnv(shell_env()),
            Event::Settings(None),
            Event::Which(None),
            Event::Toolchain(Some(txt("0.12.0"))),
            Event::Notified,
            Event::Http(Err(txt("offline"))),
        ],
    );
    assert_eq!(other[4], Action::Notify(InstallStatus::CheckingForUpdate));
    assert_eq!(other[6], Action::Done(Err(ResolveError::Fetch(txt("offline")))));
}

#[test]
fn version_matching_without_a_toolchain_takes_the_latest_release() {
    let mut extension = ZigExtension::with_variant(Variant::VersionMatching);
    let asked = drive(
        &mut extension,
        on(Os::Mac),
        vec![
            Event::ShellEnv(Vec::new()),
            Event::Settings(None),
            Event::Which(None),
            Event::Toolchain(None),
            Event::Notified,
            Event::Release(Ok(txt("0.14.0"))),
            Event::FileStatus(false),
            Event::Notified,
            Event::Downloaded(Ok(())),
            Event::MadeExecutable(Ok(())),
        ],
    );
    assert_eq!(
        asked[5],
        Action::LatestRelease { repo: txt("zigtools/zls"), require_assets: true, pre_release: false }
    );
    assert_eq!(
        asked[8],
        Action::Download {
            url: txt("https://builds.zigtools.org/zls-x86_64-macos-0.14.0.tar.gz"),
            dir: txt("zls-0.14.0"),
            kind: ArchiveKind::GzipTar,
        }
    );
    assert_eq!(
        asked[10],
        Action::Done(Ok(ZlsBinary {
            path: txt("zls-0.14.0/zls"),
            args: None,
            environment: Some(Vec::new()),
        }))
    );
    assert_eq!(extension.cache().entry(&None), Some(txt("zls-0.14.0/zls")));
}

fn failing(tail: Vec<Event>, variant: Variant) -> (Vec<Action>, ZigExtension) {
    let mut extension = ZigExtension::with_variant(variant);
    let mut events = vec![Event::Settings(None), Event::Which(None)];
    events.extend(tail);
    let asked = drive(&mut extension, on(Os::Windows), events);
    (asked, extension)
}

fn failure_of(asked: &[Action]) -> ResolveError {
    match asked.last() {
        Some(Action::Done(Err(error))) => error.clone(),
        other => panic!("no failure: {:?}", other),
    }
}

#[test]
fn release_lookup_failure_ends_the_resolution() {
    let (asked, extension) =
        failing(vec![Event::Notified, Event::Release(Err(txt("no release")))], Variant::Strict);
    assert_eq!(failure_of(&asked), ResolveError::Release(txt("no release")));
    assert_eq!(failure_of(&asked).message(), "no release");
    assert_eq!(extension.cache().entry(&None), None);
}

#[test]
fn negotiation_failures_end_the_resolution() {
    let start = |body: &[u8]| {
        vec![
            Event::Toolchain(Some(txt("0.13.0"))),
            Event::Notified,
            Event::Http(Ok(body.to_vec())),
        ]
    };
    let (asked, _) = failing(start(b"not json"), Variant::VersionMatching);
    assert_eq!(failure_of(&asked), ResolveError::MalformedResponse);
    let (asked, _) = failing(start(b"{}"), Variant::VersionMatching);
    assert_eq!(failure_of(&asked), ResolveError::MissingVersion);
    let (asked, extension) = failing(start(BODY.as_bytes()), Variant::VersionMatching);
    assert_eq!(failure_of(&asked), ResolveError::UnsupportedPlatform(txt("x86_64-windows")));
    assert_eq!(extension.cache().entry(&Some(txt("0.13.0"))), None);
}

#[test]
fn download_and_permission_failures_end_the_resolution() {
    let head = || {
        vec![
            Event::Notified,
            Event::Release(Ok(txt("0.14.0"))),
            Event::FileStatus(false),
            Event::Notified,
        ]
    };
    let mut events = head();
    events.push(Event::Downloaded(Err(txt("404"))));
    let (asked, extension) = failing(events, Variant::Strict);
    assert_eq!(failure_of(&asked), ResolveError::Download(txt("404")));
    assert_eq!(failure_of(&asked).message(), "failed to download file: 404");
    assert_eq!(extension.cache().entry(&None), None);

    let mut events = head();
    events.push(Event::Downloaded(Ok(())));
    events.push(Event::MadeExecutable(Err(txt("read-only"))));
    let (asked, extension) = failing(events, Variant::Strict);
    assert_eq!(failure_of(&asked), ResolveError::Permission(txt("read-only")));
    assert_eq!(extension.cache().entry(&None), None);
}

#[test]
fn listing_failures_end_the_resolution_but_removal_failures_do_not() {
    let head = || {
        vec![
            Event::Notified,
            Event::Release(Ok(txt("0.14.0"))),
            Event::FileStatus(false),
            Event::Notified,
            Event::Downloaded(Ok(())),
            Event::MadeExecutable(Ok(())),
        ]
    };
    let mut events = head();
    events.push(Event::Listing(Err(txt("denied"))));
    let (asked, _) = failing(events, Variant::Strict);
    assert_eq!(failure_of(&asked), ResolveError::ListDir(txt("denied")));

    let mut events = head();
    events.push(Event::Listing(Ok(vec![
        DirEntry::Named(txt("old")),
        DirEntry::Failed(txt("io")),
        DirEntry::Named(txt("older")),
    ])));
    events.push(Event::Removed);
    let (asked, extension) = failing(events, Variant::Strict);
    assert_eq!(asked[asked.len() - 2], Action::Remove(vec![0]));
    assert_eq!(failure_of(&asked), ResolveError::DirEntry(txt("io")));
    assert_eq!(failure_of(&asked).message(), "failed to load directory entry io");
    assert_eq!(extension.cache().entry(&None), None);
}

#[test]
fn an_event_that_answers_nothing_ends_the_resolution() {
    let mut extension = ZigExtension::new();
    let asked = drive(&mut extension, on(Os::Linux), vec![Event::Which(None)]);
    assert_eq!(asked, vec![Action::ShellEnv, Action::Done(Err(ResolveError::UnexpectedEvent))]);
    let (session, _) = extension.begin(on(Os::Windows));
    let (session, action) = extension.advance(session, Event::Removed);
    assert_eq!(action, Action::Done(Err(ResolveError::UnexpectedEvent)));
    assert!(session.is_finished());
    let (session, action) = extension.advance(session, Event::Settings(None));
    assert_eq!(action, Action::Done(Err(ResolveError::UnexpectedEvent)));
    assert!(session.is_finished());
}

#[test]
fn command_of_a_binary() {
    let binary = ZlsBinary {
        path: txt("zls-0.14.0/zls"),
        args: Some(vec![txt("-v")]),
        environment: Some(shell_env()),
    };
    assert_eq!(
        binary.into_command(),
        Command { command: txt("zls-0.14.0/zls"), args: vec![txt("-v")], env: shell_env() }
    );
    let bare = ZlsBinary { path: txt("zls"), args: None, environment: None };
    assert_eq!(
        bare.into_command(),
        Command { command: txt("zls"), args: Vec::new(), env: Vec::new() }
    );
}

#[test]
fn language_server_command_of_an_outcome() {
    let extension = ZigExtension::new();
    let binary = ZlsBinary { path: txt("/opt/zls"), args: None, environment: Some(shell_env()) };
    assert_eq!(
        extension.language_server_command(Ok(binary)),
        Ok(Command { command: txt("/opt/zls"), args: Vec::new(), env: shell_env() })
    );
    assert_eq!(
        extension.language_server_command(Err(ResolveError::Download(txt("404")))),
        Err(txt("failed to download file: 404"))
    );
}
