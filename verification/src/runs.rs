//! Whole resolutions, and what holds of them.
//!
//! A [`World`] answers every action a resolution asks for; [`resolution`] is
//! the run that results. The laws say when a run stays off the network, what
//! it leaves in the cache, and that resolving twice downloads once.

use vstd::prelude::*;
use crate::binary::{override_of, BinarySettingsView, OverrideView, ZlsBinaryView};
use crate::cache::{cache_key, cached};
use crate::error::ResolveErrorView;
use crate::fetch::{binary_path, listing_failure, plan_of, DirEntryView, PlanView};
use crate::json::json_document;
use crate::negotiate::{latest_download_url, negotiated, ReleaseView};
use crate::platform::{Os, PlatformTarget};
use crate::resolve::{
    ActionView, EventView, ExtensionView, InstallStatus, PhaseView, SessionView, Variant,
};
use crate::steps::{
    advanced, binary_at, cache_consulted, cold_start, ended, installed, negotiation_closed,
    negotiation_opened, override_missed, server_name, started,
};

verus! {

/// Everything outside a resolution that its actions ask about, for a stretch
/// of time in which none of it changes.
pub struct World {
    /// The shell environment.
    pub shell_env: Seq<(Seq<char>, Seq<char>)>,
    /// What is configured for the binary.
    pub settings: Option<BinarySettingsView>,
    /// Where the binary is on the search path.
    pub on_path: Option<Seq<char>>,
    /// What the local toolchain prints as its version.
    pub toolchain: Option<Seq<char>>,
    /// The paths that are regular files.
    pub files: Set<Seq<char>>,
    /// What the lookup of the latest release gives.
    pub release: Result<Seq<char>, Seq<char>>,
    /// What the compatibility endpoint answers.
    pub response: Result<Seq<u8>, Seq<char>>,
    /// How a download ends.
    pub download: Result<(), Seq<char>>,
    /// How making a file executable ends.
    pub executable: Result<(), Seq<char>>,
    /// What the listing of the working directory gives.
    pub listing: Result<Seq<DirEntryView>, Seq<char>>,
}

/// The event that `world` answers an action with.
pub open spec fn answer(world: World, action: ActionView) -> EventView {
    match action {
        ActionView::ShellEnv => EventView::ShellEnv(world.shell_env),
        ActionView::Settings(_) => EventView::Settings(world.settings),
        ActionView::Which(_) => EventView::Which(world.on_path),
        ActionView::ProbeToolchain => EventView::Toolchain(world.toolchain),
        ActionView::CheckFile(path) => EventView::FileStatus(world.files.contains(path)),
        ActionView::Notify(_) => EventView::Notified,
        ActionView::LatestRelease { .. } => EventView::Release(world.release),
        ActionView::HttpGet(_) => EventView::Http(world.response),
        ActionView::Download { .. } => EventView::Downloaded(world.download),
        ActionView::MakeExecutable(_) => EventView::MadeExecutable(world.executable),
        ActionView::ListWorkingDir => EventView::Listing(world.listing),
        ActionView::Remove(_) => EventView::Removed,
        ActionView::Done(_) => EventView::Removed,
    }
}

/// Whether an action goes to the network.
pub open spec fn is_network(action: ActionView) -> bool {
    action is LatestRelease || action is HttpGet || action is Download
}

/// A resolution from start to end: the actions it asked for, in order, and
/// the resolver it left.
pub struct Run {
    pub actions: Seq<ActionView>,
    pub extension: ExtensionView,
}

/// The rest of a resolution that has just asked for `action`, in a world
/// that answers; at most `steps` further steps are taken.
pub open spec fn run_from(
    extension: ExtensionView,
    session: SessionView,
    action: ActionView,
    world: World,
    steps: nat,
) -> Run
    decreases steps,
{
    if steps == 0 || action is Done {
        Run { actions: seq![action], extension }
    } else {
        let step = advanced(extension, session, answer(world, action));
        let rest = run_from(step.extension, step.session, step.action, world, (steps - 1) as nat);
        Run { actions: seq![action] + rest.actions, extension: rest.extension }
    }
}

/// More steps than any resolution takes.
pub open spec fn step_bound() -> nat {
    16
}

/// A whole resolution for `platform` in `world`.
pub open spec fn resolution(extension: ExtensionView, platform: PlatformTarget, world: World) -> Run {
    run_from(extension, started(platform).0, started(platform).1, world, step_bound())
}

/// The actions up to the settings: the shell environment where the platform
/// has one, then the settings.
pub open spec fn opening(platform: PlatformTarget) -> Seq<ActionView> {
    match platform.os {
        Os::Mac | Os::Linux => seq![ActionView::ShellEnv, ActionView::Settings(server_name())],
        Os::Windows => seq![ActionView::Settings(server_name())],
    }
}

/// The environment a binary is started in: the shell's on macOS and Linux,
/// none on Windows.
pub open spec fn environment_of(platform: PlatformTarget, world: World) -> Option<
    Seq<(Seq<char>, Seq<char>)>,
> {
    match platform.os {
        Os::Mac | Os::Linux => Some(world.shell_env),
        Os::Windows => None,
    }
}

/// The toolchain version a resolver sees: the stricter variant never asks.
pub open spec fn toolchain_seen(variant: Variant, world: World) -> Option<Seq<char>> {
    match variant {
        Variant::Strict => None,
        Variant::VersionMatching => world.toolchain,
    }
}

/// The arguments that go with a binary that was cached or installed: those
/// configured without a path.
pub open spec fn remembered_arguments(settings: Option<BinarySettingsView>) -> Option<
    Seq<Seq<char>>,
> {
    match override_of(settings) {
        OverrideView::Remember(arguments) => Some(arguments),
        _ => None,
    }
}

/// The binary that settings or search path give, where they give one: the
/// configured path with the configured arguments, and without anything
/// configured the binary on the search path.
pub open spec fn override_binary(
    world: World,
    environment: Option<Seq<(Seq<char>, Seq<char>)>>,
) -> Option<ZlsBinaryView> {
    match override_of(world.settings) {
        OverrideView::Use { path, arguments } => Some(
            ZlsBinaryView { path, args: arguments, environment },
        ),
        OverrideView::Remember(_) => None,
        OverrideView::Search => match world.on_path {
            Some(path) => Some(ZlsBinaryView { path, args: None, environment }),
            None => None,
        },
    }
}

/// Whether a resolution in `world` ends before the cache is read: with a
/// configured path, or with a binary found on the search path.
pub open spec fn override_hits(world: World) -> bool {
    override_binary(world, None) is Some
}

/// The binary that a resolution ends with where its cache holds `path` and
/// the file is there: the one that settings or search path give, else the
/// cached one.
pub open spec fn binary_without_network(
    world: World,
    environment: Option<Seq<(Seq<char>, Seq<char>)>>,
    path: Seq<char>,
) -> ZlsBinaryView {
    match override_binary(world, environment) {
        Some(binary) => binary,
        None => ZlsBinaryView {
            path,
            args: remembered_arguments(world.settings),
            environment,
        },
    }
}

/// Whether none of the actions goes to the network.
pub open spec fn no_network(actions: Seq<ActionView>) -> bool {
    forall|i: int| 0 <= i < actions.len() ==> !is_network(#[trigger] actions[i])
}

/// Whether a run asked the network for nothing, left the resolver as
/// `extension`, and ended with `last`.
pub open spec fn quiet_run(run: Run, extension: ExtensionView, last: ActionView) -> bool {
    &&& run.extension == extension
    &&& run.actions.len() > 0
    &&& run.actions.last() == last
    &&& no_network(run.actions)
}

/// How many actions a resolution in this phase asks for at most, the last
/// one counted.
pub open spec fn actions_left(phase: PhaseView) -> nat {
    match phase {
        PhaseView::ShellEnv => 14,
        PhaseView::Settings => 13,
        PhaseView::Which => 12,
        PhaseView::Toolchain => 11,
        PhaseView::CachedFile(_) => 10,
        PhaseView::CheckingNotice => 9,
        PhaseView::Release => 8,
        PhaseView::Compatibility => 8,
        PhaseView::BinaryFile(_) => 7,
        PhaseView::DownloadNotice(_) => 6,
        PhaseView::Download(_) => 5,
        PhaseView::Executable(_) => 4,
        PhaseView::Listing(_) => 3,
        PhaseView::Removal(_, _) => 2,
        PhaseView::Finished => 1,
    }
}

/// Every step ends the resolution or brings it nearer to its end.
pub proof fn lemma_step_nears_the_end(
    extension: ExtensionView,
    session: SessionView,
    event: EventView,
)
    ensures
        advanced(extension, session, event).action is Done || actions_left(
            advanced(extension, session, event).session.phase,
        ) < actions_left(session.phase),
{
}

/// A run that is given the steps its phase may take ends with `Done`.
pub proof fn lemma_run_ends(
    extension: ExtensionView,
    session: SessionView,
    action: ActionView,
    world: World,
    steps: nat,
)
    requires
        action is Done || steps >= actions_left(session.phase),
    ensures
        run_from(extension, session, action, world, steps).actions.last() is Done,
    decreases steps,
{
    if !(action is Done) {
        let step = advanced(extension, session, answer(world, action));
        lemma_step_nears_the_end(extension, session, answer(world, action));
        lemma_run_ends(step.extension, step.session, step.action, world, (steps - 1) as nat);
        let rest = run_from(step.extension, step.session, step.action, world, (steps - 1) as nat);
        let run = run_from(extension, session, action, world, steps);
        assert(run.actions == seq![action] + rest.actions);
        assert(run.actions.last() == rest.actions.last());
    }
}

/// Every resolution comes to an end, in any world: its last action is
/// `Done`, with a binary or with an error.
pub proof fn lemma_resolution_ends(
    extension: ExtensionView,
    platform: PlatformTarget,
    world: World,
)
    ensures
        resolution(extension, platform, world).actions.last() is Done,
{
    lemma_run_ends(extension, started(platform).0, started(platform).1, world, step_bound());
}

/// A configured path wins over everything: the resolution reads the
/// settings and ends with that path and the configured arguments. It asks for
/// nothing else, so it goes neither to the network nor to the toolchain, and
/// neither the cache nor the variant has a part in it; the resolver is left
/// as it was.
pub proof fn lemma_override_precedence(
    extension: ExtensionView,
    platform: PlatformTarget,
    world: World,
    path: Seq<char>,
    arguments: Option<Seq<Seq<char>>>,
)
    requires
        world.settings == Some(BinarySettingsView { path: Some(path), arguments }),
    ensures
        resolution(extension, platform, world).actions == opening(platform).push(
            ActionView::Done(
                Ok(
                    ZlsBinaryView {
                        path,
                        args: arguments,
                        environment: environment_of(platform, world),
                    },
                ),
            ),
        ),
        resolution(extension, platform, world).extension == extension,
        no_network(resolution(extension, platform, world).actions),
{
    reveal_with_fuel(run_from, 4);
    let run = resolution(extension, platform, world);
    let expected = opening(platform).push(
        ActionView::Done(
            Ok(
                ZlsBinaryView {
                    path,
                    args: arguments,
                    environment: environment_of(platform, world),
                },
            ),
        ),
    );
    assert(run.actions =~= expected);
}

/// Whether a resolution is on its way to an end without the network: it is
/// at a point before the network is asked, what it has gathered is what
/// `world` holds, what it asks for next answers to its phase, and where it has
/// ended, it has ended with the binary that is due.
pub open spec fn on_quiet_course(
    session: SessionView,
    action: ActionView,
    variant: Variant,
    world: World,
    path: Seq<char>,
) -> bool {
    let environment = environment_of(session.platform, world);
    match session.phase {
        PhaseView::ShellEnv => {
            &&& action is ShellEnv
            &&& session.platform.os != Os::Windows
            &&& session.args is None
            &&& session.toolchain is None
        },
        PhaseView::Settings => {
            &&& action is Settings
            &&& session.environment == environment
            &&& session.args is None
            &&& session.toolchain is None
        },
        PhaseView::Which => {
            &&& action is Which
            &&& session.environment == environment
            &&& session.args is None
            &&& session.toolchain is None
            &&& override_of(world.settings) is Search
        },
        PhaseView::Toolchain => {
            &&& action is ProbeToolchain
            &&& variant == Variant::VersionMatching
            &&& session.environment == environment
            &&& session.args == remembered_arguments(world.settings)
            &&& session.toolchain is None
            &&& !override_hits(world)
        },
        PhaseView::CachedFile(cached_path) => {
            &&& action == ActionView::CheckFile(path)
            &&& cached_path == path
            &&& session.environment == environment
            &&& session.args == remembered_arguments(world.settings)
            &&& !override_hits(world)
        },
        PhaseView::Finished => action == ActionView::Done(
            Ok(binary_without_network(world, environment, path)),
        ),
        _ => false,
    }
}

/// Whether `world` lets a resolution end without the network: settings or
/// search path give a binary, or `path` is cached for the toolchain version
/// that is seen and is still a file.
pub open spec fn needs_no_network(extension: ExtensionView, world: World, path: Seq<char>) -> bool {
    ||| override_hits(world)
    ||| {
        &&& cached(extension.cache, cache_key(toolchain_seen(extension.variant, world)))
            == Some(path)
        &&& world.files.contains(path)
    }
}

/// A step keeps a resolution on its way to an end without the network, and
/// leaves the resolver as it is.
pub proof fn lemma_step_keeps_quiet_course(
    extension: ExtensionView,
    session: SessionView,
    action: ActionView,
    world: World,
    path: Seq<char>,
)
    requires
        needs_no_network(extension, world, path),
        on_quiet_course(session, action, extension.variant, world, path),
        !(action is Done),
    ensures
        on_quiet_course(
            advanced(extension, session, answer(world, action)).session,
            advanced(extension, session, answer(world, action)).action,
            extension.variant,
            world,
            path,
        ),
        advanced(extension, session, answer(world, action)).extension == extension,
        !is_network(action),
{
}

/// A run on its way to an end without the network arrives there.
pub proof fn lemma_run_keeps_quiet_course(
    extension: ExtensionView,
    session: SessionView,
    action: ActionView,
    world: World,
    path: Seq<char>,
    steps: nat,
)
    requires
        needs_no_network(extension, world, path),
        on_quiet_course(session, action, extension.variant, world, path),
        action is Done || steps >= actions_left(session.phase),
    ensures
        quiet_run(
            run_from(extension, session, action, world, steps),
            extension,
            ActionView::Done(
                Ok(
                    binary_without_network(
                        world,
                        environment_of(session.platform, world),
                        path,
                    ),
                ),
            ),
        ),
    decreases steps,
{
    if !(action is Done) {
        let step = advanced(extension, session, answer(world, action));
        lemma_step_keeps_quiet_course(extension, session, action, world, path);
        lemma_step_nears_the_end(extension, session, answer(world, action));
        lemma_run_keeps_quiet_course(
            extension,
            step.session,
            step.action,
            world,
            path,
            (steps - 1) as nat,
        );
        let rest = run_from(extension, step.session, step.action, world, (steps - 1) as nat);
        let run = run_from(extension, session, action, world, steps);
        assert(run.actions == seq![action] + rest.actions);
        assert(run.actions.last() == rest.actions.last());
        assert forall|i: int| 0 <= i < run.actions.len() implies !is_network(
            #[trigger] run.actions[i],
        ) by {
            if i > 0 {
                assert(run.actions[i] == rest.actions[i - 1]);
            }
        }
    }
}

/// A resolution that needs no network asks it for nothing, and leaves the
/// resolver as it is. It ends with the configured binary, else with the one
/// on the search path, else with the cached one.
pub proof fn lemma_quiet_resolution(
    extension: ExtensionView,
    platform: PlatformTarget,
    world: World,
    path: Seq<char>,
)
    requires
        needs_no_network(extension, world, path),
    ensures
        quiet_run(
            resolution(extension, platform, world),
            extension,
            ActionView::Done(
                Ok(binary_without_network(world, environment_of(platform, world), path)),
            ),
        ),
{
    lemma_run_keeps_quiet_course(
        extension,
        started(platform).0,
        started(platform).1,
        world,
        path,
        step_bound(),
    );
}

/// A resolution that finds its binary cached and still on disk asks the
/// network for nothing, and leaves the resolver as it is. It ends with the
/// configured binary, else with the one on the search path, else with the
/// cached one.
pub proof fn lemma_cached_binary_needs_no_network(
    extension: ExtensionView,
    platform: PlatformTarget,
    world: World,
    path: Seq<char>,
)
    requires
        cached(extension.cache, cache_key(toolchain_seen(extension.variant, world))) == Some(
            path,
        ),
        world.files.contains(path),
    ensures
        quiet_run(
            resolution(extension, platform, world),
            extension,
            ActionView::Done(
                Ok(binary_without_network(world, environment_of(platform, world), path)),
            ),
        ),
{
    lemma_quiet_resolution(extension, platform, world, path);
}

/// A resolution that settings or search path cut short asks the network for
/// nothing, leaves the resolver as it is, and ends with the binary they give.
pub proof fn lemma_override_hit_is_quiet(
    extension: ExtensionView,
    platform: PlatformTarget,
    world: World,
)
    requires
        override_hits(world),
    ensures
        quiet_run(
            resolution(extension, platform, world),
            extension,
            ActionView::Done(Ok(override_binary(world, environment_of(platform, world)).unwrap())),
        ),
{
    lemma_quiet_resolution(extension, platform, world, Seq::empty());
}

/// Whether a resolution that settings and search path do not cut short is
/// on its way to caching what it ends with: what it has gathered is what
/// `world` holds, a path it took from the cache is what the cache holds, and
/// where it has ended with a binary, that binary is cached for the toolchain
/// version that is seen.
pub open spec fn on_caching_course(
    extension: ExtensionView,
    session: SessionView,
    action: ActionView,
    world: World,
) -> bool {
    let environment = environment_of(session.platform, world);
    let arguments = remembered_arguments(world.settings);
    let key = cache_key(toolchain_seen(extension.variant, world));
    &&& action matches ActionView::Done(Ok(binary)) ==> binary.args == arguments
        && binary.environment == environment && cached(extension.cache, key) == Some(
        binary.path,
    )
    &&& match session.phase {
        PhaseView::ShellEnv => {
            &&& session.platform.os != Os::Windows
            &&& session.args is None
            &&& session.toolchain is None
        },
        PhaseView::Settings => {
            &&& session.environment == environment
            &&& session.args is None
            &&& session.toolchain is None
        },
        PhaseView::Which => {
            &&& session.environment == environment
            &&& session.args is None
            &&& session.toolchain is None
            &&& override_of(world.settings) is Search
        },
        PhaseView::Toolchain => {
            &&& extension.variant == Variant::VersionMatching
            &&& session.environment == environment
            &&& session.args == arguments
            &&& session.toolchain is None
        },
        PhaseView::Finished => true,
        phase => {
            &&& session.environment == environment
            &&& session.args == arguments
            &&& session.toolchain == toolchain_seen(extension.variant, world)
            &&& phase matches PhaseView::CachedFile(path) ==> cached(extension.cache, key)
                == Some(path)
        },
    }
}

/// A step keeps a resolution on its way to caching what it ends with.
pub proof fn lemma_step_keeps_caching_course(
    extension: ExtensionView,
    session: SessionView,
    action: ActionView,
    world: World,
)
    requires
        !override_hits(world),
        on_caching_course(extension, session, action, world),
    ensures
        on_caching_course(
            advanced(extension, session, answer(world, action)).extension,
            advanced(extension, session, answer(world, action)).session,
            advanced(extension, session, answer(world, action)).action,
            world,
        ),
        advanced(extension, session, answer(world, action)).extension.variant
            == extension.variant,
        advanced(extension, session, answer(world, action)).session.platform == session.platform,
{
}

/// A run on its way to caching what it ends with does so.
pub proof fn lemma_run_keeps_caching_course(
    extension: ExtensionView,
    session: SessionView,
    action: ActionView,
    world: World,
    steps: nat,
)
    requires
        !override_hits(world),
        on_caching_course(extension, session, action, world),
    ensures
        ({
            let run = run_from(extension, session, action, world, steps);
            &&& run.extension.variant == extension.variant
            &&& run.actions.last() matches ActionView::Done(Ok(binary)) ==> binary.args
                == remembered_arguments(world.settings) && binary.environment == environment_of(
                session.platform,
                world,
            ) && cached(
                run.extension.cache,
                cache_key(toolchain_seen(extension.variant, world)),
            ) == Some(binary.path)
        }),
    decreases steps,
{
    if steps > 0 && !(action is Done) {
        let step = advanced(extension, session, answer(world, action));
        lemma_step_keeps_caching_course(extension, session, action, world);
        lemma_run_keeps_caching_course(
            step.extension,
            step.session,
            step.action,
            world,
            (steps - 1) as nat,
        );
        let rest = run_from(step.extension, step.session, step.action, world, (steps - 1) as nat);
        let run = run_from(extension, session, action, world, steps);
        assert(run.actions == seq![action] + rest.actions);
        assert(run.actions.last() == rest.actions.last());
    }
}

/// A resolution that neither settings nor search path cut short caches the
/// binary it ends with, under the toolchain version it saw.
pub proof fn lemma_resolved_binary_is_cached(
    extension: ExtensionView,
    platform: PlatformTarget,
    world: World,
)
    requires
        !override_hits(world),
    ensures
        resolution(extension, platform, world).extension.variant == extension.variant,
        resolution(extension, platform, world).actions.last() matches ActionView::Done(
            Ok(binary),
        ) ==> binary.args == remembered_arguments(world.settings) && binary.environment
            == environment_of(platform, world) && cached(
            resolution(extension, platform, world).extension.cache,
            cache_key(toolchain_seen(extension.variant, world)),
        ) == Some(binary.path),
{
    lemma_run_keeps_caching_course(
        extension,
        started(platform).0,
        started(platform).1,
        world,
        step_bound(),
    );
}

/// Resolving twice: where a resolution ended with a binary, and nothing
/// changes but that this binary is now on disk, the next resolution by the
/// same resolver asks the network for nothing and ends with the same binary.
pub proof fn lemma_second_resolution_needs_no_network(
    extension: ExtensionView,
    platform: PlatformTarget,
    world: World,
    binary: ZlsBinaryView,
)
    requires
        resolution(extension, platform, world).actions.last() == ActionView::Done(Ok(binary)),
    ensures
        quiet_run(
            resolution(
                resolution(extension, platform, world).extension,
                platform,
                World { files: world.files.insert(binary.path), ..world },
            ),
            resolution(extension, platform, world).extension,
            ActionView::Done(Ok(binary)),
        ),
{
    let first = resolution(extension, platform, world);
    let later = World { files: world.files.insert(binary.path), ..world };
    if override_hits(world) {
        lemma_override_hit_is_quiet(extension, platform, world);
        lemma_override_hit_is_quiet(first.extension, platform, later);
    } else {
        lemma_resolved_binary_is_cached(extension, platform, world);
        lemma_quiet_resolution(first.extension, platform, later, binary.path);
    }
}

/// A binary that is installed, or found installed, is cached under the
/// toolchain version of its resolution: the next resolution for that version
/// finds it.
pub proof fn lemma_installed_is_cached(
    extension: ExtensionView,
    session: SessionView,
    plan: PlanView,
)
    ensures
        cached(
            installed(extension, session, plan).extension.cache,
            cache_key(session.toolchain),
        ) == Some(plan.binary_path),
        installed(extension, session, plan).action == ActionView::Done(
            Ok(binary_at(plan.binary_path, session)),
        ),
{
}

/// A planned binary that is on disk already is not downloaded again: the
/// resolution ends with it at once.
pub proof fn lemma_present_binary_is_not_downloaded(
    extension: ExtensionView,
    session: SessionView,
    plan: PlanView,
)
    requires
        session.phase == PhaseView::BinaryFile(plan),
    ensures
        advanced(extension, session, EventView::FileStatus(true)) == installed(
            extension,
            session,
            plan,
        ),
{
}

/// A cached path whose file is gone counts as no entry: the resolution goes
/// on exactly as one that found nothing cached, and does not fail.
pub proof fn lemma_stale_cache_is_cold_start(
    extension: ExtensionView,
    bare: ExtensionView,
    session: SessionView,
    path: Seq<char>,
)
    requires
        bare.variant == extension.variant,
        cached(extension.cache, cache_key(session.toolchain)) == Some(path),
        cached(bare.cache, cache_key(session.toolchain)) is None,
    ensures
        cache_consulted(extension, session).action == ActionView::CheckFile(path),
        advanced(
            extension,
            cache_consulted(extension, session).session,
            EventView::FileStatus(false),
        ).session == cache_consulted(bare, session).session,
        advanced(
            extension,
            cache_consulted(extension, session).session,
            EventView::FileStatus(false),
        ).action == cache_consulted(bare, session).action,
        advanced(
            extension,
            cache_consulted(extension, session).session,
            EventView::FileStatus(false),
        ).extension == extension,
        cache_consulted(bare, session).action == ActionView::Notify(
            InstallStatus::CheckingForUpdate,
        ),
{
}

/// Whether a resolution in this phase has read the cache already, and will
/// not read it again.
pub open spec fn past_cache(phase: PhaseView) -> bool {
    !(phase is ShellEnv || phase is Settings || phase is Which || phase is Toolchain)
}

/// Once the cache is read, a step asks for the same whatever the cache holds.
pub proof fn lemma_step_ignores_cache(
    extension: ExtensionView,
    other: ExtensionView,
    session: SessionView,
    event: EventView,
)
    requires
        extension.variant == other.variant,
        past_cache(session.phase),
    ensures
        advanced(extension, session, event).session == advanced(other, session, event).session,
        advanced(extension, session, event).action == advanced(other, session, event).action,
        advanced(extension, session, event).extension.variant == advanced(
            other,
            session,
            event,
        ).extension.variant,
        past_cache(advanced(extension, session, event).session.phase),
{
}

/// Once the cache is read, a run asks for the same whatever the cache holds.
pub proof fn lemma_run_ignores_cache(
    extension: ExtensionView,
    other: ExtensionView,
    session: SessionView,
    action: ActionView,
    world: World,
    steps: nat,
)
    requires
        extension.variant == other.variant,
        past_cache(session.phase),
    ensures
        run_from(extension, session, action, world, steps).actions == run_from(
            other,
            session,
            action,
            world,
            steps,
        ).actions,
    decreases steps,
{
    if steps > 0 && !(action is Done) {
        let event = answer(world, action);
        lemma_step_ignores_cache(extension, other, session, event);
        let step = advanced(extension, session, event);
        let twin = advanced(other, session, event);
        lemma_run_ignores_cache(
            step.extension,
            twin.extension,
            step.session,
            step.action,
            world,
            (steps - 1) as nat,
        );
    }
}

/// A cached path whose file is gone: from the reading of the cache on, the
/// resolution checks that file and then asks for exactly what a resolution
/// with nothing cached asks for. It fails only where that one fails.
pub proof fn lemma_stale_cache_resolves_as_cold(
    extension: ExtensionView,
    bare: ExtensionView,
    session: SessionView,
    world: World,
    path: Seq<char>,
    steps: nat,
)
    requires
        bare.variant == extension.variant,
        cached(extension.cache, cache_key(session.toolchain)) == Some(path),
        cached(bare.cache, cache_key(session.toolchain)) is None,
        !world.files.contains(path),
    ensures
        run_from(
            extension,
            cache_consulted(extension, session).session,
            cache_consulted(extension, session).action,
            world,
            steps + 1,
        ).actions == seq![ActionView::CheckFile(path)] + run_from(
            bare,
            cache_consulted(bare, session).session,
            cache_consulted(bare, session).action,
            world,
            steps,
        ).actions,
{
    let consulted = cache_consulted(extension, session);
    let cold = cold_start(bare, session);
    lemma_run_ignores_cache(extension, bare, cold.session, cold.action, world, steps);
}

/// Whether a download is one of a binary that is not on disk.
pub open spec fn downloads_what_is_missing(action: ActionView, os: Os, world: World) -> bool {
    action matches ActionView::Download { dir, .. } ==> !world.files.contains(
        binary_path(dir, os),
    )
}

/// What holds of a resolution on its way to a download: the binary it plans
/// for is the one in the planned directory, its presence is what is checked,
/// and once it was found missing it is what is downloaded.
pub open spec fn plans_soundly(session: SessionView, action: ActionView, world: World) -> bool {
    match session.phase {
        PhaseView::BinaryFile(plan) => action == ActionView::CheckFile(plan.binary_path)
            && plan.binary_path == binary_path(plan.version_dir, session.platform.os),
        PhaseView::DownloadNotice(plan) => !(action is Download) && plan.binary_path
            == binary_path(plan.version_dir, session.platform.os) && !world.files.contains(
            plan.binary_path,
        ),
        PhaseView::Download(plan) => downloads_what_is_missing(
            action,
            session.platform.os,
            world,
        ),
        _ => !(action is Download),
    }
}

/// A step keeps a resolution on a sound way to its download.
pub proof fn lemma_step_plans_soundly(
    extension: ExtensionView,
    session: SessionView,
    action: ActionView,
    world: World,
)
    requires
        plans_soundly(session, action, world),
    ensures
        plans_soundly(
            advanced(extension, session, answer(world, action)).session,
            advanced(extension, session, answer(world, action)).action,
            world,
        ),
        advanced(extension, session, answer(world, action)).session.platform == session.platform,
{
}

/// A run on a sound way downloads nothing that is on disk.
pub proof fn lemma_run_downloads_what_is_missing(
    extension: ExtensionView,
    session: SessionView,
    action: ActionView,
    world: World,
    steps: nat,
)
    requires
        plans_soundly(session, action, world),
    ensures
        forall|i: int|
            0 <= i < run_from(extension, session, action, world, steps).actions.len()
                ==> downloads_what_is_missing(
                #[trigger] run_from(extension, session, action, world, steps).actions[i],
                session.platform.os,
                world,
            ),
    decreases steps,
{
    let run = run_from(extension, session, action, world, steps);
    if steps > 0 && !(action is Done) {
        let step = advanced(extension, session, answer(world, action));
        lemma_step_plans_soundly(extension, session, action, world);
        lemma_run_downloads_what_is_missing(
            step.extension,
            step.session,
            step.action,
            world,
            (steps - 1) as nat,
        );
        let rest = run_from(step.extension, step.session, step.action, world, (steps - 1) as nat);
        assert(run.actions == seq![action] + rest.actions);
        assert forall|i: int| 0 <= i < run.actions.len() implies downloads_what_is_missing(
            #[trigger] run.actions[i],
            session.platform.os,
            world,
        ) by {
            if i > 0 {
                assert(run.actions[i] == rest.actions[i - 1]);
            }
        }
    }
}

/// No resolution downloads a binary that is on disk already: whenever an
/// archive is downloaded into a directory, the binary in that directory was
/// looked for and is not there.
pub proof fn lemma_present_binary_is_never_downloaded(
    extension: ExtensionView,
    platform: PlatformTarget,
    world: World,
)
    ensures
        forall|i: int|
            0 <= i < resolution(extension, platform, world).actions.len()
                ==> downloads_what_is_missing(
                #[trigger] resolution(extension, platform, world).actions[i],
                platform.os,
                world,
            ),
{
    lemma_run_downloads_what_is_missing(
        extension,
        started(platform).0,
        started(platform).1,
        world,
        step_bound(),
    );
}

} // verus!
