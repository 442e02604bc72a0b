//! What each step of a resolution amounts to, over sequences of characters.
//!
//! [`started`] and [`advanced`] are the whole of the resolution's logic: the
//! executable steps in [`crate::resolve`] are proved to compute them, and the
//! laws in [`crate::runs`] are proved of them.

use vstd::prelude::*;
use crate::binary::{
    command_of, override_of, Command, CommandView, OverrideView, ZlsBinary, ZlsBinaryView,
};
use crate::cache::{cache_key, cached};
use crate::error::{error_message, ResolveError, ResolveErrorView};
use crate::fetch::{listing_failure, plan_of, removals, PlanView};
use crate::json::json_document;
use crate::negotiate::{
    archive_kind, compatibility_url, latest_download_url, negotiated, ReleaseView,
};
use crate::platform::{Os, PlatformTarget};
use crate::resolve::{
    ActionView, EventView, ExtensionView, InstallStatus, PhaseView, SessionView, Variant,
};

verus! {

/// The outcome of one step: the resolver and the resolution after it, and
/// what is asked for next.
pub struct Step {
    pub extension: ExtensionView,
    pub session: SessionView,
    pub action: ActionView,
}

/// The name of the language server, in settings and on the search path.
pub open spec fn server_name() -> Seq<char> {
    "zls"@
}

/// The repository whose releases are the language server's.
pub open spec fn release_repository() -> Seq<char> {
    "zigtools/zls"@
}

/// How a resolution starts: with the shell environment on macOS and Linux,
/// where the binary is started in it, and with the settings on Windows.
pub open spec fn started(platform: PlatformTarget) -> (SessionView, ActionView) {
    let session = SessionView {
        phase: PhaseView::Settings,
        platform,
        args: None,
        environment: None,
        toolchain: None,
    };
    match platform.os {
        Os::Mac | Os::Linux => (
            SessionView { phase: PhaseView::ShellEnv, ..session },
            ActionView::ShellEnv,
        ),
        Os::Windows => (session, ActionView::Settings(server_name())),
    }
}

/// The resolution ends with `outcome`; the resolver is as it was.
pub open spec fn ended(
    extension: ExtensionView,
    session: SessionView,
    outcome: Result<ZlsBinaryView, ResolveErrorView>,
) -> Step {
    Step {
        extension,
        session: SessionView {
            phase: PhaseView::Finished,
            args: None,
            environment: None,
            ..session
        },
        action: ActionView::Done(outcome),
    }
}

/// The binary at `path`, with the session's arguments and environment.
pub open spec fn binary_at(path: Seq<char>, session: SessionView) -> ZlsBinaryView {
    ZlsBinaryView { path, args: session.args, environment: session.environment }
}

/// Nothing usable is cached: the user is told that an update is looked for,
/// and the negotiation follows.
pub open spec fn cold_start(extension: ExtensionView, session: SessionView) -> Step {
    Step {
        extension,
        session: SessionView { phase: PhaseView::CheckingNotice, ..session },
        action: ActionView::Notify(InstallStatus::CheckingForUpdate),
    }
}

/// The cache is read for the session's toolchain version: a path found there
/// is checked on disk, and without one the resolution starts cold.
pub open spec fn cache_consulted(extension: ExtensionView, session: SessionView) -> Step {
    match cached(extension.cache, cache_key(session.toolchain)) {
        Some(path) => Step {
            extension,
            session: SessionView { phase: PhaseView::CachedFile(path), ..session },
            action: ActionView::CheckFile(path),
        },
        None => cold_start(extension, session),
    }
}

/// Neither settings nor search path gave a binary: the version-matching
/// variant asks for the toolchain's version, the stricter one goes to the
/// cache at once.
pub open spec fn override_missed(extension: ExtensionView, session: SessionView) -> Step {
    match extension.variant {
        Variant::Strict => cache_consulted(extension, session),
        Variant::VersionMatching => Step {
            extension,
            session: SessionView { phase: PhaseView::Toolchain, ..session },
            action: ActionView::ProbeToolchain,
        },
    }
}

/// The negotiation is opened: without a toolchain version the latest
/// release is looked up, one that has assets and is no pre-release; with one,
/// the compatibility endpoint is asked.
pub open spec fn negotiation_opened(extension: ExtensionView, session: SessionView) -> Step {
    match session.toolchain {
        None => Step {
            extension,
            session: SessionView { phase: PhaseView::Release, ..session },
            action: ActionView::LatestRelease {
                repo: release_repository(),
                require_assets: true,
                pre_release: false,
            },
        },
        Some(version) => Step {
            extension,
            session: SessionView { phase: PhaseView::Compatibility, ..session },
            action: ActionView::HttpGet(compatibility_url(version)),
        },
    }
}

/// The negotiation is over: a release is planned for and its binary looked
/// for on disk, a failure ends the resolution.
pub open spec fn negotiation_closed(
    extension: ExtensionView,
    session: SessionView,
    outcome: Result<ReleaseView, ResolveErrorView>,
) -> Step {
    match outcome {
        Ok(release) => {
            let plan = plan_of(release, session.platform.os);
            Step {
                extension,
                session: SessionView { phase: PhaseView::BinaryFile(plan), ..session },
                action: ActionView::CheckFile(plan.binary_path),
            }
        },
        Err(error) => ended(extension, session, Err(error)),
    }
}

/// The planned binary is in place: it is cached under the session's
/// toolchain version, and the resolution ends with it.
pub open spec fn installed(extension: ExtensionView, session: SessionView, plan: PlanView) -> Step {
    let done = ended(extension, session, Ok(binary_at(plan.binary_path, session)));
    Step {
        extension: ExtensionView {
            cache: extension.cache.insert(cache_key(session.toolchain), plan.binary_path),
            ..extension
        },
        ..done
    }
}

/// One step of a resolution: what `event` leads to in the state that
/// `session` is in. An event that does not answer the pending action ends the
/// resolution with an error.
pub open spec fn advanced(extension: ExtensionView, session: SessionView, event: EventView) -> Step {
    match (session.phase, event) {
        (PhaseView::ShellEnv, EventView::ShellEnv(env)) => Step {
            extension,
            session: SessionView {
                phase: PhaseView::Settings,
                environment: Some(env),
                ..session
            },
            action: ActionView::Settings(server_name()),
        },
        (PhaseView::Settings, EventView::Settings(settings)) => match override_of(settings) {
            OverrideView::Use { path, arguments } => ended(
                extension,
                session,
                Ok(ZlsBinaryView { path, args: arguments, environment: session.environment }),
            ),
            OverrideView::Remember(arguments) => override_missed(
                extension,
                SessionView { args: Some(arguments), ..session },
            ),
            OverrideView::Search => Step {
                extension,
                session: SessionView { phase: PhaseView::Which, ..session },
                action: ActionView::Which(server_name()),
            },
        },
        (PhaseView::Which, EventView::Which(Some(path))) => ended(
            extension,
            session,
            Ok(ZlsBinaryView { path, args: None, environment: session.environment }),
        ),
        (PhaseView::Which, EventView::Which(None)) => override_missed(extension, session),
        (PhaseView::Toolchain, EventView::Toolchain(version)) => cache_consulted(
            extension,
            SessionView { toolchain: version, ..session },
        ),
        (PhaseView::CachedFile(path), EventView::FileStatus(is_file)) => if is_file {
            ended(extension, session, Ok(binary_at(path, session)))
        } else {
            cold_start(extension, session)
        },
        (PhaseView::CheckingNotice, EventView::Notified) => negotiation_opened(extension, session),
        (PhaseView::Release, EventView::Release(Ok(version))) => negotiation_closed(
            extension,
            session,
            Ok(
                ReleaseView {
                    version,
                    download_url: latest_download_url(version, session.platform),
                },
            ),
        ),
        (PhaseView::Release, EventView::Release(Err(cause))) => ended(
            extension,
            session,
            Err(ResolveErrorView::Release(cause)),
        ),
        (PhaseView::Compatibility, EventView::Http(Ok(body))) => negotiation_closed(
            extension,
            session,
            negotiated(json_document(body), session.platform),
        ),
        (PhaseView::Compatibility, EventView::Http(Err(cause))) => ended(
            extension,
            session,
            Err(ResolveErrorView::Fetch(cause)),
        ),
        (PhaseView::BinaryFile(plan), EventView::FileStatus(is_file)) => if is_file {
            installed(extension, session, plan)
        } else {
            Step {
                extension,
                session: SessionView { phase: PhaseView::DownloadNotice(plan), ..session },
                action: ActionView::Notify(InstallStatus::Downloading),
            }
        },
        (PhaseView::DownloadNotice(plan), EventView::Notified) => Step {
            extension,
            session: SessionView { phase: PhaseView::Download(plan), ..session },
            action: ActionView::Download {
                url: plan.download_url,
                dir: plan.version_dir,
                kind: archive_kind(session.platform.os),
            },
        },
        (PhaseView::Download(plan), EventView::Downloaded(Ok(_))) => Step {
            extension,
            session: SessionView { phase: PhaseView::Executable(plan), ..session },
            action: ActionView::MakeExecutable(plan.binary_path),
        },
        (PhaseView::Download(plan), EventView::Downloaded(Err(cause))) => ended(
            extension,
            session,
            Err(ResolveErrorView::Download(cause)),
        ),
        (PhaseView::Executable(plan), EventView::MadeExecutable(Ok(_))) => match extension.variant {
            Variant::Strict => Step {
                extension,
                session: SessionView { phase: PhaseView::Listing(plan), ..session },
                action: ActionView::ListWorkingDir,
            },
            Variant::VersionMatching => installed(extension, session, plan),
        },
        (PhaseView::Executable(plan), EventView::MadeExecutable(Err(cause))) => ended(
            extension,
            session,
            Err(ResolveErrorView::Permission(cause)),
        ),
        (PhaseView::Listing(plan), EventView::Listing(Ok(entries))) => Step {
            extension,
            session: SessionView {
                phase: PhaseView::Removal(plan, listing_failure(entries)),
                ..session
            },
            action: ActionView::Remove(removals(entries, plan.version_dir)),
        },
        (PhaseView::Listing(plan), EventView::Listing(Err(cause))) => ended(
            extension,
            session,
            Err(ResolveErrorView::ListDir(cause)),
        ),
        (PhaseView::Removal(plan, None), EventView::Removed) => installed(
            extension,
            session,
            plan,
        ),
        (PhaseView::Removal(plan, Some(cause)), EventView::Removed) => ended(
            extension,
            session,
            Err(ResolveErrorView::DirEntry(cause)),
        ),
        _ => ended(extension, session, Err(ResolveErrorView::UnexpectedEvent)),
    }
}

/// The outcome of a resolution, with its texts as sequences of characters.
pub open spec fn binary_outcome_view(outcome: Result<ZlsBinary, ResolveError>) -> Result<
    ZlsBinaryView,
    ResolveErrorView,
> {
    match outcome {
        Ok(binary) => Ok(binary@),
        Err(error) => Err(error@),
    }
}

/// A command or a message, with its texts as sequences of characters.
pub open spec fn command_result_view(result: Result<Command, String>) -> Result<
    CommandView,
    Seq<char>,
> {
    match result {
        Ok(command) => Ok(command@),
        Err(message) => Err(message@),
    }
}

/// The command that a resolution's outcome amounts to: the binary's command
/// line, or the error's message.
pub open spec fn command_outcome(outcome: Result<ZlsBinaryView, ResolveErrorView>) -> Result<
    CommandView,
    Seq<char>,
> {
    match outcome {
        Ok(binary) => Ok(command_of(binary)),
        Err(error) => Err(error_message(error)),
    }
}

} // verus!
