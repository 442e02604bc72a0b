//! The resolution of the language server's binary, one step at a time.
//!
//! A resolution asks for one thing after another: settings, a look at the
//! search path, a file check, a release lookup, a download. This crate does
//! none of these itself. [`ZigExtension::begin`] and
//! [`ZigExtension::advance`] say what to do next as an [`Action`]; the caller
//! does it and reports the outcome as an [`Event`], until the action is
//! [`Action::Done`]. What the steps amount to is stated once, over sequences
//! of characters, in [`crate::steps`].

use vstd::prelude::*;
use crate::binary::{
    decide_override, settings_view, BinarySettings, BinarySettingsView, Command, Override,
    ZlsBinary, ZlsBinaryView,
};
use crate::cache::CacheStore;
use crate::error::{ResolveError, ResolveErrorView};
use crate::fetch::{listing_view, plan_cleanup, plan_for, DirEntry, DirEntryView, Plan, PlanView};
use crate::negotiate::{
    compatibility_request, latest_release, negotiate_from_response, outcome_view, Release,
};
use crate::platform::{ArchiveKind, Os, PlatformTarget};
use crate::steps::{
    advanced, binary_at, binary_outcome_view, cache_consulted, cold_start, command_outcome,
    command_result_view, ended, installed, negotiation_closed, negotiation_opened,
    override_missed, started,
};

verus! {

/// Which of the two ways of provisioning a resolver follows.
#[derive(Clone, Copy, Debug, PartialEq, Eq, Structural)]
pub enum Variant {
    /// The stricter way: the latest release is installed whatever toolchain
    /// is there, one binary is cached, and after a fresh download every other
    /// entry of the working directory is removed.
    Strict,
    /// The release that matches the local toolchain is installed, and the
    /// latest where there is no toolchain. Binaries are cached by toolchain
    /// version, and the directories of other versions stay.
    VersionMatching,
}

/// What the user is told the language server's installation is doing.
#[derive(Clone, Copy, Debug, PartialEq, Eq, Structural)]
pub enum InstallStatus {
    CheckingForUpdate,
    Downloading,
}

/// What the caller is to do next.
#[derive(Debug, PartialEq, Eq)]
pub enum Action {
    /// Read the shell environment of the worktree.
    ShellEnv,
    /// Read what is configured for the binary of the language server of this
    /// name.
    Settings(String),
    /// Look for a binary of this name on the search path.
    Which(String),
    /// Ask the local toolchain for its version.
    ProbeToolchain,
    /// Check whether this path is a regular file.
    CheckFile(String),
    /// Show this installation status. Nothing is reported back but that it
    /// was done.
    Notify(InstallStatus),
    /// Look up the latest release of a repository.
    LatestRelease { repo: String, require_assets: bool, pre_release: bool },
    /// Fetch this address.
    HttpGet(String),
    /// Download the archive at `url` and unpack it into `dir`.
    Download { url: String, dir: String, kind: ArchiveKind },
    /// Make the file at this path executable.
    MakeExecutable(String),
    /// List the entries of the working directory.
    ListWorkingDir,
    /// Remove the entries that stand at these places in the listing, each
    /// with all below it. A removal that fails is passed over.
    Remove(Vec<usize>),
    /// The resolution is over, with this outcome.
    Done(Result<ZlsBinary, ResolveError>),
}

/// An [`Action`] with its texts as sequences of characters.
pub enum ActionView {
    ShellEnv,
    Settings(Seq<char>),
    Which(Seq<char>),
    ProbeToolchain,
    CheckFile(Seq<char>),
    Notify(InstallStatus),
    LatestRelease { repo: Seq<char>, require_assets: bool, pre_release: bool },
    HttpGet(Seq<char>),
    Download { url: Seq<char>, dir: Seq<char>, kind: ArchiveKind },
    MakeExecutable(Seq<char>),
    ListWorkingDir,
    Remove(Seq<usize>),
    Done(Result<ZlsBinaryView, ResolveErrorView>),
}

impl View for Action {
    type V = ActionView;

    open spec fn view(&self) -> ActionView {
        match self {
            Action::ShellEnv => ActionView::ShellEnv,
            Action::Settings(name) => ActionView::Settings(name@),
            Action::Which(name) => ActionView::Which(name@),
            Action::ProbeToolchain => ActionView::ProbeToolchain,
            Action::CheckFile(path) => ActionView::CheckFile(path@),
            Action::Notify(status) => ActionView::Notify(*status),
            Action::LatestRelease { repo, require_assets, pre_release } => {
                ActionView::LatestRelease {
                    repo: repo@,
                    require_assets: *require_assets,
                    pre_release: *pre_release,
                }
            },
            Action::HttpGet(url) => ActionView::HttpGet(url@),
            Action::Download { url, dir, kind } => ActionView::Download {
                url: url@,
                dir: dir@,
                kind: *kind,
            },
            Action::MakeExecutable(path) => ActionView::MakeExecutable(path@),
            Action::ListWorkingDir => ActionView::ListWorkingDir,
            Action::Remove(places) => ActionView::Remove(places@),
            Action::Done(outcome) => ActionView::Done(binary_outcome_view(*outcome)),
        }
    }
}

/// What came of the action asked for last.
#[derive(Debug, PartialEq, Eq)]
pub enum Event {
    /// The shell environment.
    ShellEnv(Vec<(String, String)>),
    /// What is configured for the binary, if anything.
    Settings(Option<BinarySettings>),
    /// Where the binary is on the search path, if anywhere.
    Which(Option<String>),
    /// The version the local toolchain printed, or `None` without a
    /// toolchain.
    Toolchain(Option<String>),
    /// Whether the path is a regular file.
    FileStatus(bool),
    /// The status was shown.
    Notified,
    /// The version of the latest release, or why there is none.
    Release(Result<String, String>),
    /// The body of the response, or why there is none.
    Http(Result<Vec<u8>, String>),
    /// The archive was downloaded and unpacked, or why not.
    Downloaded(Result<(), String>),
    /// The file was made executable, or why not.
    MadeExecutable(Result<(), String>),
    /// The entries of the working directory, or why it could not be listed.
    Listing(Result<Vec<DirEntry>, String>),
    /// The removals were tried.
    Removed,
}

/// An [`Event`] with its texts as sequences of characters.
pub enum EventView {
    ShellEnv(Seq<(Seq<char>, Seq<char>)>),
    Settings(Option<BinarySettingsView>),
    Which(Option<Seq<char>>),
    Toolchain(Option<Seq<char>>),
    FileStatus(bool),
    Notified,
    Release(Result<Seq<char>, Seq<char>>),
    Http(Result<Seq<u8>, Seq<char>>),
    Downloaded(Result<(), Seq<char>>),
    MadeExecutable(Result<(), Seq<char>>),
    Listing(Result<Seq<DirEntryView>, Seq<char>>),
    Removed,
}

impl View for Event {
    type V = EventView;

    open spec fn view(&self) -> EventView {
        match self {
            Event::ShellEnv(env) => EventView::ShellEnv(env.deep_view()),
            Event::Settings(settings) => EventView::Settings(settings_view(*settings)),
            Event::Which(found) => EventView::Which(found.deep_view()),
            Event::Toolchain(version) => EventView::Toolchain(version.deep_view()),
            Event::FileStatus(is_file) => EventView::FileStatus(*is_file),
            Event::Notified => EventView::Notified,
            Event::Release(Ok(version)) => EventView::Release(Ok(version@)),
            Event::Release(Err(cause)) => EventView::Release(Err(cause@)),
            Event::Http(Ok(body)) => EventView::Http(Ok(body@)),
            Event::Http(Err(cause)) => EventView::Http(Err(cause@)),
            Event::Downloaded(Ok(_)) => EventView::Downloaded(Ok(())),
            Event::Downloaded(Err(cause)) => EventView::Downloaded(Err(cause@)),
            Event::MadeExecutable(Ok(_)) => EventView::MadeExecutable(Ok(())),
            Event::MadeExecutable(Err(cause)) => EventView::MadeExecutable(Err(cause@)),
            Event::Listing(Ok(entries)) => EventView::Listing(Ok(listing_view(entries@))),
            Event::Listing(Err(cause)) => EventView::Listing(Err(cause@)),
            Event::Removed => EventView::Removed,
        }
    }
}

/// Where a resolution stands: which event it waits for.
#[derive(Clone, Debug, PartialEq, Eq)]
pub enum Phase {
    ShellEnv,
    Settings,
    Which,
    Toolchain,
    /// Waits to hear whether the cached path is still a file.
    CachedFile(String),
    CheckingNotice,
    Release,
    Compatibility,
    /// Waits to hear whether the planned binary is there already.
    BinaryFile(Plan),
    DownloadNotice(Plan),
    Download(Plan),
    Executable(Plan),
    Listing(Plan),
    /// Waits for the removals, with the reason the listing failed, if it did.
    Removal(Plan, Option<String>),
    Finished,
}

/// A [`Phase`] with its texts as sequences of characters.
pub enum PhaseView {
    ShellEnv,
    Settings,
    Which,
    Toolchain,
    CachedFile(Seq<char>),
    CheckingNotice,
    Release,
    Compatibility,
    BinaryFile(PlanView),
    DownloadNotice(PlanView),
    Download(PlanView),
    Executable(PlanView),
    Listing(PlanView),
    Removal(PlanView, Option<Seq<char>>),
    Finished,
}

impl View for Phase {
    type V = PhaseView;

    open spec fn view(&self) -> PhaseView {
        match self {
            Phase::ShellEnv => PhaseView::ShellEnv,
            Phase::Settings => PhaseView::Settings,
            Phase::Which => PhaseView::Which,
            Phase::Toolchain => PhaseView::Toolchain,
            Phase::CachedFile(path) => PhaseView::CachedFile(path@),
            Phase::CheckingNotice => PhaseView::CheckingNotice,
            Phase::Release => PhaseView::Release,
            Phase::Compatibility => PhaseView::Compatibility,
            Phase::BinaryFile(plan) => PhaseView::BinaryFile(plan@),
            Phase::DownloadNotice(plan) => PhaseView::DownloadNotice(plan@),
            Phase::Download(plan) => PhaseView::Download(plan@),
            Phase::Executable(plan) => PhaseView::Executable(plan@),
            Phase::Listing(plan) => PhaseView::Listing(plan@),
            Phase::Removal(plan, failure) => PhaseView::Removal(plan@, failure.deep_view()),
            Phase::Finished => PhaseView::Finished,
        }
    }
}

/// One resolution under way.
#[derive(Debug)]
pub struct Session {
    phase: Phase,
    platform: PlatformTarget,
    args: Option<Vec<String>>,
    environment: Option<Vec<(String, String)>>,
    toolchain: Option<String>,
}

/// A [`Session`] with its texts as sequences of characters.
pub struct SessionView {
    /// Which event the resolution waits for.
    pub phase: PhaseView,
    /// The platform the binary is for.
    pub platform: PlatformTarget,
    /// The arguments that were configured without a path.
    pub args: Option<Seq<Seq<char>>>,
    /// The environment the binary is started in.
    pub environment: Option<Seq<(Seq<char>, Seq<char>)>>,
    /// The toolchain's version as it was printed, where one was found.
    pub toolchain: Option<Seq<char>>,
}

impl View for Session {
    type V = SessionView;

    closed spec fn view(&self) -> SessionView {
        SessionView {
            phase: self.phase@,
            platform: self.platform,
            args: self.args.deep_view(),
            environment: self.environment.deep_view(),
            toolchain: self.toolchain.deep_view(),
        }
    }
}

/// The resolver: its variant, and the binaries it resolved so far.
#[derive(Debug)]
pub struct ZigExtension {
    variant: Variant,
    cache: CacheStore,
}

/// A [`ZigExtension`] with its cache as a map.
pub struct ExtensionView {
    pub variant: Variant,
    pub cache: Map<Option<Seq<char>>, Seq<char>>,
}

impl View for ZigExtension {
    type V = ExtensionView;

    closed spec fn view(&self) -> ExtensionView {
        ExtensionView { variant: self.variant, cache: self.cache@ }
    }
}

impl Session {
    /// Whether the resolution is over.
    pub fn is_finished(&self) -> (r: bool)
        ensures
            r == (self@.phase is Finished),
    {
        match self.phase {
            Phase::Finished => true,
            _ => false,
        }
    }

    /// The platform the binary is resolved for.
    pub fn platform(&self) -> (r: PlatformTarget)
        ensures
            r == self@.platform,
    {
        self.platform
    }
}

/// Ends the resolution with `outcome`.
fn end(session: Session, outcome: Result<ZlsBinary, ResolveError>) -> (r: (Session, Action))
    ensures
        r.0@ == (SessionView {
            phase: PhaseView::Finished,
            args: None,
            environment: None,
            ..session@
        }),
        r.1@ == (Action::Done(outcome))@,
{
    let Session { phase: _, platform, args: _, environment: _, toolchain } = session;
    (
        Session { phase: Phase::Finished, platform, args: None, environment: None, toolchain },
        Action::Done(outcome),
    )
}

/// Ends the resolution with a binary at `path` that is started with `args`,
/// in the session's environment.
fn end_with(session: Session, path: String, args: Option<Vec<String>>) -> (r: (Session, Action))
    ensures
        r.0@ == (SessionView {
            phase: PhaseView::Finished,
            args: None,
            environment: None,
            ..session@
        }),
        r.1@ == ActionView::Done(
            Ok(
                ZlsBinaryView {
                    path: path@,
                    args: args.deep_view(),
                    environment: session@.environment,
                },
            ),
        ),
{
    let Session { phase: _, platform, args: _, environment, toolchain } = session;
    (
        Session { phase: Phase::Finished, platform, args: None, environment: None, toolchain },
        Action::Done(Ok(ZlsBinary { path, args, environment })),
    )
}

/// Ends the resolution with the binary at `path`, started with the session's
/// arguments and in its environment.
fn end_at(session: Session, path: String) -> (r: (Session, Action))
    ensures
        r.0@ == (SessionView {
            phase: PhaseView::Finished,
            args: None,
            environment: None,
            ..session@
        }),
        r.1@ == ActionView::Done(Ok(binary_at(path@, session@))),
{
    let Session { phase: _, platform, args, environment, toolchain } = session;
    (
        Session { phase: Phase::Finished, platform, args: None, environment: None, toolchain },
        Action::Done(Ok(ZlsBinary { path, args, environment })),
    )
}

/// Puts the session into `phase`.
fn enter(session: Session, phase: Phase) -> (r: Session)
    ensures
        r@ == (SessionView { phase: phase@, ..session@ }),
{
    let Session { phase: _, platform, args, environment, toolchain } = session;
    Session { phase, platform, args, environment, toolchain }
}

impl ZigExtension {
    /// A resolver of the stricter variant that has resolved nothing yet.
    pub fn new() -> (r: ZigExtension)
        ensures
            r@ == (ExtensionView { variant: Variant::Strict, cache: Map::empty() }),
    {
        ZigExtension { variant: Variant::Strict, cache: CacheStore::new() }
    }

    /// A resolver of the given variant that has resolved nothing yet.
    pub fn with_variant(variant: Variant) -> (r: ZigExtension)
        ensures
            r@ == (ExtensionView { variant, cache: Map::empty() }),
    {
        ZigExtension { variant, cache: CacheStore::new() }
    }

    /// The variant this resolver follows.
    pub fn variant(&self) -> (r: Variant)
        ensures
            r == self@.variant,
    {
        self.variant
    }

    /// The binaries resolved so far.
    pub fn cache(&self) -> (r: &CacheStore)
        ensures
            r@ == self@.cache,
    {
        &self.cache
    }

    /// Starts a resolution for `platform`, and says what to do first.
    pub fn begin(&self, platform: PlatformTarget) -> (r: (Session, Action))
        ensures
            (r.0@, r.1@) == started(platform),
    {
        match platform.os {
            Os::Mac | Os::Linux => (
                Session {
                    phase: Phase::ShellEnv,
                    platform,
                    args: None,
                    environment: None,
                    toolchain: None,
                },
                Action::ShellEnv,
            ),
            Os::Windows => (
                Session {
                    phase: Phase::Settings,
                    platform,
                    args: None,
                    environment: None,
                    toolchain: None,
                },
                Action::Settings(String::from_str("zls")),
            ),
        }
    }

    fn unexpected(&self, session: Session) -> (r: (Session, Action))
        ensures
            r.0@ == ended(self@, session@, Err(ResolveErrorView::UnexpectedEvent)).session,
            r.1@ == ended(self@, session@, Err(ResolveErrorView::UnexpectedEvent)).action,
    {
        end(session, Err(ResolveError::UnexpectedEvent))
    }

    fn start_cold(&self, session: Session) -> (r: (Session, Action))
        ensures
            r.0@ == cold_start(self@, session@).session,
            r.1@ == cold_start(self@, session@).action,
    {
        (enter(session, Phase::CheckingNotice), Action::Notify(InstallStatus::CheckingForUpdate))
    }

    fn consult_cache(&self, session: Session) -> (r: (Session, Action))
        ensures
            r.0@ == cache_consulted(self@, session@).session,
            r.1@ == cache_consulted(self@, session@).action,
    {
        match self.cache.entry(&session.toolchain) {
            Some(path) => {
                let action = Action::CheckFile(path.clone());
                (enter(session, Phase::CachedFile(path)), action)
            },
            None => self.start_cold(session),
        }
    }

    fn miss_override(&self, session: Session) -> (r: (Session, Action))
        ensures
            r.0@ == override_missed(self@, session@).session,
            r.1@ == override_missed(self@, session@).action,
    {
        match self.variant {
            Variant::Strict => self.consult_cache(session),
            Variant::VersionMatching => (enter(session, Phase::Toolchain), Action::ProbeToolchain),
        }
    }

    fn open_negotiation(&self, session: Session) -> (r: (Session, Action))
        ensures
            r.0@ == negotiation_opened(self@, session@).session,
            r.1@ == negotiation_opened(self@, session@).action,
    {
        match &session.toolchain {
            None => {
                let action = Action::LatestRelease {
                    repo: String::from_str("zigtools/zls"),
                    require_assets: true,
                    pre_release: false,
                };
                (enter(session, Phase::Release), action)
            },
            Some(version) => {
                let action = Action::HttpGet(compatibility_request(version.as_str()));
                (enter(session, Phase::Compatibility), action)
            },
        }
    }

    fn close_negotiation(&self, session: Session, outcome: Result<Release, ResolveError>) -> (r: (
        Session,
        Action,
    ))
        ensures
            r.0@ == negotiation_closed(self@, session@, outcome_view(outcome)).session,
            r.1@ == negotiation_closed(self@, session@, outcome_view(outcome)).action,
    {
        match outcome {
            Ok(release) => {
                let plan = plan_for(release, session.platform.os);
                let action = Action::CheckFile(plan.binary_path.clone());
                (enter(session, Phase::BinaryFile(plan)), action)
            },
            Err(error) => end(session, Err(error)),
        }
    }

    fn install(&mut self, session: Session, plan: Plan) -> (r: (Session, Action))
        ensures
            final(self)@ == installed(old(self)@, session@, plan@).extension,
            r.0@ == installed(old(self)@, session@, plan@).session,
            r.1@ == installed(old(self)@, session@, plan@).action,
    {
        self.cache.put(&session.toolchain, plan.binary_path.clone());
        end_at(session, plan.binary_path)
    }

    fn on_shell_env(&self, session: Session, event: Event) -> (r: (Session, Action))
        ensures
            r.0@ == advanced(
                self@,
                SessionView { phase: PhaseView::ShellEnv, ..session@ },
                event@,
            ).session,
            r.1@ == advanced(
                self@,
                SessionView { phase: PhaseView::ShellEnv, ..session@ },
                event@,
            ).action,
    {
        match event {
            Event::ShellEnv(env) => {
                let Session { phase: _, platform, args, environment: _, toolchain } = session;
                (
                    Session {
                        phase: Phase::Settings,
                        platform,
                        args,
                        environment: Some(env),
                        toolchain,
                    },
                    Action::Settings(String::from_str("zls")),
                )
            },
            _ => self.unexpected(session),
        }
    }

    fn on_settings(&self, session: Session, event: Event) -> (r: (Session, Action))
        ensures
            r.0@ == advanced(
                self@,
                SessionView { phase: PhaseView::Settings, ..session@ },
                event@,
            ).session,
            r.1@ == advanced(
                self@,
                SessionView { phase: PhaseView::Settings, ..session@ },
                event@,
            ).action,
    {
        match event {
            Event::Settings(settings) => match decide_override(settings) {
                Override::Use { path, arguments } => end_with(session, path, arguments),
                Override::Remember(arguments) => {
                    let Session { phase: _, platform, args: _, environment, toolchain } = session;
                    self.miss_override(
                        Session {
                            phase: Phase::Settings,
                            platform,
                            args: Some(arguments),
                            environment,
                            toolchain,
                        },
                    )
                },
                Override::Search => (
                    enter(session, Phase::Which),
                    Action::Which(String::from_str("zls")),
                ),
            },
            _ => self.unexpected(session),
        }
    }

    fn on_which(&self, session: Session, event: Event) -> (r: (Session, Action))
        ensures
            r.0@ == advanced(
                self@,
                SessionView { phase: PhaseView::Which, ..session@ },
                event@,
            ).session,
            r.1@ == advanced(
                self@,
                SessionView { phase: PhaseView::Which, ..session@ },
                event@,
            ).action,
    {
        match event {
            Event::Which(Some(path)) => end_with(session, path, None),
            Event::Which(None) => self.miss_override(enter(session, Phase::Which)),
            _ => self.unexpected(session),
        }
    }

    fn on_toolchain(&self, session: Session, event: Event) -> (r: (Session, Action))
        ensures
            r.0@ == advanced(
                self@,
                SessionView { phase: PhaseView::Toolchain, ..session@ },
                event@,
            ).session,
            r.1@ == advanced(
                self@,
                SessionView { phase: PhaseView::Toolchain, ..session@ },
                event@,
            ).action,
    {
        match event {
            Event::Toolchain(version) => {
                let Session { phase: _, platform, args, environment, toolchain: _ } = session;
                self.consult_cache(
                    Session {
                        phase: Phase::Toolchain,
                        platform,
                        args,
                        environment,
                        toolchain: version,
                    },
                )
            },
            _ => self.unexpected(session),
        }
    }

    fn on_cached_file(&self, session: Session, path: String, event: Event) -> (r: (
        Session,
        Action,
    ))
        ensures
            r.0@ == advanced(
                self@,
                SessionView { phase: PhaseView::CachedFile(path@), ..session@ },
                event@,
            ).session,
            r.1@ == advanced(
                self@,
                SessionView { phase: PhaseView::CachedFile(path@), ..session@ },
                event@,
            ).action,
    {
        match event {
            Event::FileStatus(true) => end_at(session, path),
            Event::FileStatus(false) => self.start_cold(session),
            _ => self.unexpected(session),
        }
    }

    fn on_checking_notice(&self, session: Session, event: Event) -> (r: (Session, Action))
        ensures
            r.0@ == advanced(
                self@,
                SessionView { phase: PhaseView::CheckingNotice, ..session@ },
                event@,
            ).session,
            r.1@ == advanced(
                self@,
                SessionView { phase: PhaseView::CheckingNotice, ..session@ },
                event@,
            ).action,
    {
        match event {
            Event::Notified => self.open_negotiation(enter(session, Phase::CheckingNotice)),
            _ => self.unexpected(session),
        }
    }

    fn on_release(&self, session: Session, event: Event) -> (r: (Session, Action))
        ensures
            r.0@ == advanced(
                self@,
                SessionView { phase: PhaseView::Release, ..session@ },
                event@,
            ).session,
            r.1@ == advanced(
                self@,
                SessionView { phase: PhaseView::Release, ..session@ },
                event@,
            ).action,
    {
        match event {
            Event::Release(Ok(version)) => {
                let release = latest_release(version, session.platform);
                self.close_negotiation(enter(session, Phase::Release), Ok(release))
            },
            Event::Release(Err(cause)) => end(session, Err(ResolveError::Release(cause))),
            _ => self.unexpected(session),
        }
    }

    fn on_compatibility(&self, session: Session, event: Event) -> (r: (Session, Action))
        ensures
            r.0@ == advanced(
                self@,
                SessionView { phase: PhaseView::Compatibility, ..session@ },
                event@,
            ).session,
            r.1@ == advanced(
                self@,
                SessionView { phase: PhaseView::Compatibility, ..session@ },
                event@,
            ).action,
    {
        match event {
            Event::Http(Ok(body)) => {
                let outcome = negotiate_from_response(body.as_slice(), session.platform);
                self.close_negotiation(enter(session, Phase::Compatibility), outcome)
            },
            Event::Http(Err(cause)) => end(session, Err(ResolveError::Fetch(cause))),
            _ => self.unexpected(session),
        }
    }

    fn on_binary_file(&mut self, session: Session, plan: Plan, event: Event) -> (r: (
        Session,
        Action,
    ))
        ensures
            final(self)@ == advanced(
                old(self)@,
                SessionView { phase: PhaseView::BinaryFile(plan@), ..session@ },
                event@,
            ).extension,
            r.0@ == advanced(
                old(self)@,
                SessionView { phase: PhaseView::BinaryFile(plan@), ..session@ },
                event@,
            ).session,
            r.1@ == advanced(
                old(self)@,
                SessionView { phase: PhaseView::BinaryFile(plan@), ..session@ },
                event@,
            ).action,
    {
        match event {
            Event::FileStatus(true) => self.install(session, plan),
            Event::FileStatus(false) => (
                enter(session, Phase::DownloadNotice(plan)),
                Action::Notify(InstallStatus::Downloading),
            ),
            _ => self.unexpected(session),
        }
    }

    fn on_download_notice(&self, session: Session, plan: Plan, event: Event) -> (r: (
        Session,
        Action,
    ))
        ensures
            r.0@ == advanced(
                self@,
                SessionView { phase: PhaseView::DownloadNotice(plan@), ..session@ },
                event@,
            ).session,
            r.1@ == advanced(
                self@,
                SessionView { phase: PhaseView::DownloadNotice(plan@), ..session@ },
                event@,
            ).action,
    {
        match event {
            Event::Notified => {
                let action = Action::Download {
                    url: plan.download_url.clone(),
                    dir: plan.version_dir.clone(),
                    kind: session.platform.os.archive_kind(),
                };
                (enter(session, Phase::Download(plan)), action)
            },
            _ => self.unexpected(session),
        }
    }

    fn on_download(&self, session: Session, plan: Plan, event: Event) -> (r: (Session, Action))
        ensures
            r.0@ == advanced(
                self@,
                SessionView { phase: PhaseView::Download(plan@), ..session@ },
                event@,
            ).session,
            r.1@ == advanced(
                self@,
                SessionView { phase: PhaseView::Download(plan@), ..session@ },
                event@,
            ).action,
    {
        match event {
            Event::Downloaded(Ok(_)) => {
                let action = Action::MakeExecutable(plan.binary_path.clone());
                (enter(session, Phase::Executable(plan)), action)
            },
            Event::Downloaded(Err(cause)) => end(session, Err(ResolveError::Download(cause))),
            _ => self.unexpected(session),
        }
    }

    fn on_executable(&mut self, session: Session, plan: Plan, event: Event) -> (r: (
        Session,
        Action,
    ))
        ensures
            final(self)@ == advanced(
                old(self)@,
                SessionView { phase: PhaseView::Executable(plan@), ..session@ },
                event@,
            ).extension,
            r.0@ == advanced(
                old(self)@,
                SessionView { phase: PhaseView::Executable(plan@), ..session@ },
                event@,
            ).session,
            r.1@ == advanced(
                old(self)@,
                SessionView { phase: PhaseView::Executable(plan@), ..session@ },
                event@,
            ).action,
    {
        match event {
            Event::MadeExecutable(Ok(_)) => match self.variant {
                Variant::Strict => (enter(session, Phase::Listing(plan)), Action::ListWorkingDir),
                Variant::VersionMatching => self.install(session, plan),
            },
            Event::MadeExecutable(Err(cause)) => end(
                session,
                Err(ResolveError::Permission(cause)),
            ),
            _ => self.unexpected(session),
        }
    }

    fn on_listing(&self, session: Session, plan: Plan, event: Event) -> (r: (Session, Action))
        ensures
            r.0@ == advanced(
                self@,
                SessionView { phase: PhaseView::Listing(plan@), ..session@ },
                event@,
            ).session,
            r.1@ == advanced(
                self@,
                SessionView { phase: PhaseView::Listing(plan@), ..session@ },
                event@,
            ).action,
    {
        match event {
            Event::Listing(Ok(entries)) => {
                let (stale, failure) = plan_cleanup(&entries, plan.version_dir.as_str());
                (enter(session, Phase::Removal(plan, failure)), Action::Remove(stale))
            },
            Event::Listing(Err(cause)) => end(session, Err(ResolveError::ListDir(cause))),
            _ => self.unexpected(session),
        }
    }

    fn on_removal(
        &mut self,
        session: Session,
        plan: Plan,
        failure: Option<String>,
        event: Event,
    ) -> (r: (Session, Action))
        ensures
            final(self)@ == advanced(
                old(self)@,
                SessionView {
                    phase: PhaseView::Removal(plan@, failure.deep_view()),
                    ..session@
                },
                event@,
            ).extension,
            r.0@ == advanced(
                old(self)@,
                SessionView {
                    phase: PhaseView::Removal(plan@, failure.deep_view()),
                    ..session@
                },
                event@,
            ).session,
            r.1@ == advanced(
                old(self)@,
                SessionView {
                    phase: PhaseView::Removal(plan@, failure.deep_view()),
                    ..session@
                },
                event@,
            ).action,
    {
        match event {
            Event::Removed => match failure {
                None => self.install(session, plan),
                Some(cause) => end(session, Err(ResolveError::DirEntry(cause))),
            },
            _ => self.unexpected(session),
        }
    }

    /// Takes a resolution one step on: given what came of the action asked
    /// for last, says what to do next. The resolver changes in one case only:
    /// a binary that was installed, or found installed, is cached.
    pub fn advance(&mut self, session: Session, event: Event) -> (r: (Session, Action))
        ensures
            final(self)@ == advanced(old(self)@, session@, event@).extension,
            r.0@ == advanced(old(self)@, session@, event@).session,
            r.1@ == advanced(old(self)@, session@, event@).action,
    {
        let Session { phase, platform, args, environment, toolchain } = session;
        let rest = Session { phase: Phase::Finished, platform, args, environment, toolchain };
        assert(session@ == (SessionView { phase: phase@, ..rest@ }));
        match phase {
            Phase::ShellEnv => self.on_shell_env(rest, event),
            Phase::Settings => self.on_settings(rest, event),
            Phase::Which => self.on_which(rest, event),
            Phase::Toolchain => self.on_toolchain(rest, event),
            Phase::CachedFile(path) => self.on_cached_file(rest, path, event),
            Phase::CheckingNotice => self.on_checking_notice(rest, event),
            Phase::Release => self.on_release(rest, event),
            Phase::Compatibility => self.on_compatibility(rest, event),
            Phase::BinaryFile(plan) => self.on_binary_file(rest, plan, event),
            Phase::DownloadNotice(plan) => self.on_download_notice(rest, plan, event),
            Phase::Download(plan) => self.on_download(rest, plan, event),
            Phase::Executable(plan) => self.on_executable(rest, plan, event),
            Phase::Listing(plan) => self.on_listing(rest, plan, event),
            Phase::Removal(plan, failure) => self.on_removal(rest, plan, failure, event),
            Phase::Finished => self.unexpected(rest),
        }
    }
}

impl ZigExtension {
    /// The command that starts the language server, given the outcome of its
    /// resolution; a failed resolution gives the error's message.
    pub fn language_server_command(&self, outcome: Result<ZlsBinary, ResolveError>) -> (r: Result<
        Command,
        String,
    >)
        ensures
            command_result_view(r) == command_outcome(binary_outcome_view(outcome)),
    {
        match outcome {
            Ok(binary) => Ok(binary.into_command()),
            Err(error) => Err(error.message()),
        }
    }
}

} // verus!
