//! What holds of every run, proved from the definitions of its steps.

use crate::cake::{
    bootstrap_arguments,
    bootstrap_threshold,
    bootstrap_warning,
    CakeStage,
    CakeView,
    ScriptStage,
};
use crate::command_line::{text_arguments, ArgumentView};
use crate::config::ConfigView;
use crate::dotnet::{installed_version, latest_refused, reported, SdkStage};
use crate::error::{FailureKind, FailureView};
use crate::host::{host_for, Host};
use crate::http::DownloadStage;
use crate::nuget::NugetStage;
use crate::orchestrator::{sdk_context, Phase, RunView};
use crate::platform::{OsFamily, SystemView};
use crate::step::{ActionView, EventView, OutcomeView, ProgressView};
use crate::text::is_digit;
use crate::version::{semver_precedes, without_prefix};
use vstd::prelude::*;

verus! {

/// The prefix of a release tag is one character: from a tag that starts
/// with a character that is no digit, exactly that character is dropped,
/// and the rest stands as it stood.
pub proof fn lemma_prefix_is_one_character(tag: Seq<char>)
    requires
        tag.len() > 0,
        !is_digit(tag[0]),
    ensures
        without_prefix(tag).len() == tag.len() - 1,
        forall|i: int| 0 <= i < tag.len() - 1 ==> without_prefix(tag)[i] == tag[i + 1],
        seq![tag[0]] + without_prefix(tag) == tag,
{
    assert(seq![tag[0]] + without_prefix(tag) =~= tag);
}

/// The host depends on nothing but the request for the managed runtime and
/// the system's family: the managed runtime where it is asked for, on any
/// system; else the compatibility runtime on Unix, and none on Windows.
pub proof fn lemma_host_selection(family: OsFamily)
    ensures
        host_for(true, family) == Host::CoreClr,
        host_for(false, OsFamily::Unix) == Host::Mono,
        host_for(false, OsFamily::Windows) == Host::Clr,
{
}

/// A request for the newest SDK fails as a version failure in the first
/// step of the run: the first thing the run asks for is to stop, so that
/// nothing is fetched, created or started on its behalf.
pub proof fn lemma_latest_sdk_is_refused(config: ConfigView, system: SystemView)
    requires
        config.sdk_version is Latest,
    ensures
        RunView::begin(config, system).0.phase == Phase::Over,
        RunView::begin(config, system).1 == ActionView::Finish(
            OutcomeView::Failed(
                FailureView {
                    kind: FailureKind::Version,
                    message: sdk_context() + " "@ + latest_refused(),
                },
            ),
        ),
{
}

/// The installer of the SDK refuses a request for the newest release by
/// itself too, before it asks for anything.
pub proof fn lemma_sdk_installer_refuses_latest(
    config: ConfigView,
    system: SystemView,
    event: EventView,
)
    requires
        config.sdk_version is Latest,
    ensures
        crate::dotnet::install_step(
            config,
            system,
            crate::dotnet::SdkStateView::start(),
            event,
        ).1 == ProgressView::Failed(
            FailureView { kind: FailureKind::Version, message: latest_refused() },
        ),
{
}

/// A tool whose place on disk exists is installed: the installer of the
/// build tool and that of NuGet end at once when they are told so, and ask
/// for nothing more.
pub proof fn lemma_installed_tool_is_kept(
    config: ConfigView,
    system: SystemView,
    cake: crate::cake::CakeStateView,
)
    requires
        cake.stage == CakeStage::Directory,
    ensures
        crate::cake::install_step(config, system, cake, EventView::Exists(true)) == (
            cake.at(CakeStage::Ready),
            ProgressView::Finished,
        ),
        crate::nuget::install_step(config, system, NugetStage::Probe, EventView::Exists(true))
            == (NugetStage::Ready, ProgressView::Finished),
{
}

/// An SDK that is the wanted version or newer is enough: the installer
/// ends at once when the SDK on the search path reports such a version.
pub proof fn lemma_sufficient_sdk_is_kept(
    config: ConfigView,
    system: SystemView,
    sdk: crate::dotnet::SdkStateView,
    event: EventView,
)
    requires
        sdk.stage == SdkStage::Global,
        installed_version(reported(event)).at_least(sdk.wanted),
    ensures
        crate::dotnet::install_step(config, system, sdk, event) == (
            sdk.at(SdkStage::Ready),
            ProgressView::Finished,
        ),
{
}

/// A tool that is too old to bootstrap is not started for it: the phase
/// warns the user, and then ends as left out, whatever the answer is. That
/// is no failure.
pub proof fn lemma_old_tool_does_not_bootstrap(
    cake: CakeView,
    config: ConfigView,
    sdk: Option<Seq<Seq<char>>>,
    event: EventView,
)
    requires
        semver_precedes(cake.version, bootstrap_threshold()),
    ensures
        cake.bootstrap_step(config, sdk, ScriptStage::Start, event) == (
            ScriptStage::Warned,
            ProgressView::Next(ActionView::Warn(bootstrap_warning())),
        ),
        cake.bootstrap_step(config, sdk, ScriptStage::Warned, event) == (
            ScriptStage::Skipped,
            ProgressView::Finished,
        ),
{
}

/// In a run, a tool that is too old to bootstrap is only warned about:
/// the bootstrap phase begins with the warning, starts no process, and
/// after the warning the run goes on to what follows the phase.
pub proof fn lemma_old_tool_is_only_warned_about(
    run: RunView,
    config: ConfigView,
    system: SystemView,
    event: EventView,
)
    requires
        !(config.cake_version is Absent),
        config.bootstrap,
        semver_precedes(run.cake.version, bootstrap_threshold()),
    ensures
        run.enter_bootstrap(config, system) == (
            RunView { phase: Phase::Bootstrap, script: ScriptStage::Warned, ..run },
            ActionView::Warn(bootstrap_warning()),
        ),
        !run.enter_bootstrap(config, system).1.starts_process(),
        run.phase == Phase::Bootstrap && run.script == ScriptStage::Warned ==> run.step(
            config,
            system,
            event,
        ) == (RunView { script: ScriptStage::Start, ..run }).enter_execute(config, system),
{
}

/// A version is resolved once: from the moment the installer of the build
/// tool knows its version, no step of the run changes it.
pub proof fn lemma_version_is_resolved_once(
    run: RunView,
    config: ConfigView,
    system: SystemView,
    event: EventView,
)
    requires
        is_resolved(run),
    ensures
        run.step(config, system, event).0.cake.version == run.cake.version,
        is_resolved(run.step(config, system, event).0),
{
}

/// Whether the run knows the version of the build tool: its installer has
/// asked after the package's directory, or is over.
pub open spec fn is_resolved(run: RunView) -> bool {
    ||| run.phase == Phase::Cake && run.cake.stage != CakeStage::Start && run.cake.stage
        != CakeStage::Latest
    ||| rank(run.phase) >= rank(Phase::Bootstrap)
}

/// What is not asked for is passed over: a tool that is not wanted is not
/// installed, a phase that is not wanted is not entered, and the run goes
/// on at once with what follows.
pub proof fn lemma_unwanted_parts_are_passed_over(
    run: RunView,
    config: ConfigView,
    system: SystemView,
)
    ensures
        config.nuget_version is Absent ==> run.enter_nuget(config, system) == (RunView {
            nuget: NugetStage::Ready,
            ..run
        }).enter_sdk(config, system),
        config.sdk_version is Absent ==> run.enter_sdk(config, system) == (RunView {
            sdk: crate::dotnet::SdkStateView::start().at(SdkStage::Ready),
            ..run
        }).enter_cake(config, system),
        config.cake_version is Absent ==> run.enter_cake(config, system) == (RunView {
            cake: crate::cake::CakeStateView::start().at(CakeStage::Ready),
            ..run
        }).finish(config),
        !config.bootstrap ==> run.enter_bootstrap(config, system) == run.enter_execute(
            config,
            system,
        ),
        !config.execute_script ==> run.enter_execute(config, system) == run.finish(config),
{
}

/// The arguments of the run reach the script as they stand: the command
/// that launches the tool ends with them, in their order, and has nothing
/// before them but the binary where a runtime launches it. The bootstrap
/// phase puts its marker in front of them and changes nothing else.
pub proof fn lemma_arguments_are_forwarded(
    host: Host,
    path: Seq<Seq<char>>,
    arguments: Seq<Seq<char>>,
    sdk: Option<Seq<Seq<char>>>,
    config: ConfigView,
)
    ensures
        host.runtime() is None ==> host.launch_command(path, arguments, sdk).program == path
            && host.launch_command(path, arguments, sdk).arguments == text_arguments(arguments),
        host.runtime() matches Some(runtime) ==> host.launch_command(path, arguments, sdk).program
            == seq![runtime] && host.launch_command(path, arguments, sdk).arguments
            == seq![ArgumentView::Path(path)] + text_arguments(arguments),
        text_arguments(arguments).len() == arguments.len(),
        forall|i: int|
            0 <= i < arguments.len() ==> text_arguments(arguments)[i] == ArgumentView::Text(
                arguments[i],
            ),
        bootstrap_arguments(config) == seq!["--bootstrap"@] + config.remaining,
{
}

/// The place of a phase in the order of a run.
pub open spec fn rank(phase: Phase) -> nat {
    match phase {
        Phase::ToolsProbe => 0,
        Phase::ToolsCreate => 1,
        Phase::Nuget => 2,
        Phase::Sdk => 3,
        Phase::Cake => 4,
        Phase::Bootstrap => 5,
        Phase::Execute => 6,
        Phase::Over => 7,
    }
}

/// The order of a run is fixed: no step takes a run back to a phase that
/// lies before the one it is in.
pub proof fn lemma_order_is_fixed(
    run: RunView,
    config: ConfigView,
    system: SystemView,
    event: EventView,
)
    ensures
        rank(run.step(config, system, event).0.phase) >= rank(run.phase),
{
    if run.phase != Phase::Over {
        lemma_every_step_advances(run, config, system, event);
    }
}

/// Whether a step asks to stop exactly where it takes the run to its end.
pub open spec fn stops_at_end(next: (RunView, ActionView)) -> bool {
    next.1 is Finish <==> next.0.phase == Phase::Over
}

/// Whether a part of a run asks for something other than to stop, where
/// it asks for anything.
pub open spec fn goes_on(progress: ProgressView) -> bool {
    progress matches ProgressView::Next(action) ==> !(action is Finish)
}

proof fn lemma_execute_stops_at_end(
    run: RunView,
    config: ConfigView,
    system: SystemView,
    stage: ScriptStage,
    event: EventView,
)
    ensures
        stops_at_end(
            run.execute_settled(
                config,
                run.tool(config, system).execute_step(
                    config,
                    run.sdk_path(config, system),
                    stage,
                    event,
                ),
            ),
        ),
        stops_at_end(run.enter_execute(config, system)),
{
}

proof fn lemma_bootstrap_stops_at_end(
    run: RunView,
    config: ConfigView,
    system: SystemView,
    stage: ScriptStage,
    event: EventView,
)
    ensures
        stops_at_end(
            run.bootstrap_settled(
                config,
                system,
                run.tool(config, system).bootstrap_step(
                    config,
                    run.sdk_path(config, system),
                    stage,
                    event,
                ),
            ),
        ),
        stops_at_end(run.enter_bootstrap(config, system)),
{
    let step = run.tool(config, system).bootstrap_step(
        config,
        run.sdk_path(config, system),
        stage,
        event,
    );
    lemma_execute_stops_at_end(
        RunView { script: ScriptStage::Start, ..run },
        config,
        system,
        stage,
        event,
    );
    lemma_execute_stops_at_end(run, config, system, stage, event);
    let first = run.tool(config, system).bootstrap_step(
        config,
        run.sdk_path(config, system),
        ScriptStage::Start,
        EventView::Done,
    );
    assert(goes_on(first.1));
    assert(goes_on(step.1));
}

proof fn lemma_cake_stops_at_end(
    run: RunView,
    config: ConfigView,
    system: SystemView,
    cake: crate::cake::CakeStateView,
    event: EventView,
)
    ensures
        stops_at_end(
            run.cake_settled(
                config,
                system,
                crate::cake::install_step(config, system, cake, event),
            ),
        ),
        stops_at_end(run.enter_cake(config, system)),
{
    let step = crate::cake::install_step(config, system, cake, event);
    assert(goes_on(step.1));
    lemma_bootstrap_stops_at_end(
        RunView { cake: step.0, ..run },
        config,
        system,
        ScriptStage::Start,
        event,
    );
    let first = crate::cake::install_step(
        config,
        system,
        crate::cake::CakeStateView::start(),
        EventView::Done,
    );
    assert(goes_on(first.1));
    lemma_bootstrap_stops_at_end(
        RunView { cake: first.0, ..run },
        config,
        system,
        ScriptStage::Start,
        event,
    );
}

proof fn lemma_sdk_stops_at_end(
    run: RunView,
    config: ConfigView,
    system: SystemView,
    sdk: crate::dotnet::SdkStateView,
    event: EventView,
)
    ensures
        stops_at_end(
            run.sdk_settled(
                config,
                system,
                crate::dotnet::install_step(config, system, sdk, event),
            ),
        ),
        stops_at_end(run.enter_sdk(config, system)),
{
    let step = crate::dotnet::install_step(config, system, sdk, event);
    assert(goes_on(step.1));
    lemma_cake_stops_at_end(
        RunView { sdk: step.0, ..run },
        config,
        system,
        crate::cake::CakeStateView::start(),
        event,
    );
    let first = crate::dotnet::install_step(
        config,
        system,
        crate::dotnet::SdkStateView::start(),
        EventView::Done,
    );
    assert(goes_on(first.1));
    lemma_cake_stops_at_end(
        RunView { sdk: first.0, ..run },
        config,
        system,
        crate::cake::CakeStateView::start(),
        event,
    );
}

proof fn lemma_nuget_stops_at_end(
    run: RunView,
    config: ConfigView,
    system: SystemView,
    nuget: NugetStage,
    event: EventView,
)
    ensures
        stops_at_end(
            run.nuget_settled(
                config,
                system,
                crate::nuget::install_step(config, system, nuget, event),
            ),
        ),
        stops_at_end(run.enter_nuget(config, system)),
{
    let step = crate::nuget::install_step(config, system, nuget, event);
    assert(goes_on(step.1));
    lemma_sdk_stops_at_end(
        RunView { nuget: step.0, ..run },
        config,
        system,
        crate::dotnet::SdkStateView::start(),
        event,
    );
    let first = crate::nuget::install_step(config, system, NugetStage::Start, EventView::Done);
    assert(goes_on(first.1));
    lemma_sdk_stops_at_end(
        RunView { nuget: first.0, ..run },
        config,
        system,
        crate::dotnet::SdkStateView::start(),
        event,
    );
}

/// A run stops exactly when it is over: the step that asks to stop is the
/// step that takes the run to its end, and a run that is over asks for
/// nothing but to stop and stays as it is.
pub proof fn lemma_finish_ends_the_run(
    run: RunView,
    config: ConfigView,
    system: SystemView,
    event: EventView,
)
    ensures
        stops_at_end(run.step(config, system, event)),
        run.phase == Phase::Over ==> run.step(config, system, event).0 == run,
        stops_at_end(RunView::begin(config, system)),
{
    lemma_nuget_stops_at_end(run, config, system, run.nuget, event);
    lemma_sdk_stops_at_end(run, config, system, run.sdk, event);
    lemma_cake_stops_at_end(run, config, system, run.cake, event);
    lemma_bootstrap_stops_at_end(run, config, system, run.script, event);
    lemma_execute_stops_at_end(run, config, system, run.script, event);
    lemma_nuget_stops_at_end(RunView::fresh(), config, system, NugetStage::Start, event);
}

/// A run for which no tool is asked does nothing: its first step ends it,
/// idle, and the exit code is 0.
pub proof fn lemma_nothing_asked_nothing_done(config: ConfigView, system: SystemView)
    requires
        !config.wants_tools(),
    ensures
        RunView::begin(config, system).0.phase == Phase::Over,
        RunView::begin(config, system).1 == ActionView::Finish(OutcomeView::Idle),
        OutcomeView::Idle.exit_code() == 0,
{
}

/// The exit code of the script is the exit code of the run: when the tool
/// that executes the script ends with a code, the run ends with that code.
pub proof fn lemma_script_code_is_run_code(
    run: RunView,
    config: ConfigView,
    system: SystemView,
    code: i32,
)
    requires
        run.phase == Phase::Execute,
        run.script == ScriptStage::Running,
        run.failure is None,
        !(config.cake_version is Absent),
    ensures
        run.step(config, system, EventView::Exited(Some(code))).1 == ActionView::Finish(
            OutcomeView::Completed(code),
        ),
        OutcomeView::Completed(code).exit_code() == code,
{
}

/// The actions that a run asks for, one after the other, when its actions
/// are answered by `events` in their order.
pub open spec fn actions(
    run: RunView,
    config: ConfigView,
    system: SystemView,
    events: Seq<EventView>,
) -> Seq<ActionView>
    decreases events.len(),
{
    if events.len() == 0 {
        Seq::empty()
    } else {
        let next = run.step(config, system, events[0]);
        seq![next.1] + actions(next.0, config, system, events.subrange(1, events.len() as int))
    }
}

/// Once the build tool is installed, a run has no more use for the
/// network: whatever happens, it fetches nothing.
pub proof fn lemma_no_network_after_installation(
    run: RunView,
    config: ConfigView,
    system: SystemView,
    events: Seq<EventView>,
)
    requires
        rank(run.phase) >= rank(Phase::Bootstrap),
    ensures
        forall|i: int|
            0 <= i < actions(run, config, system, events).len() ==> !(#[trigger] actions(
                run,
                config,
                system,
                events,
            )[i]).uses_network(),
    decreases events.len(),
{
    if events.len() > 0 {
        let next = run.step(config, system, events[0]);
        let rest = events.subrange(1, events.len() as int);
        assert(rank(next.0.phase) >= rank(Phase::Bootstrap));
        assert(!next.1.uses_network());
        lemma_no_network_after_installation(next.0, config, system, rest);
        lemma_first_and_rest(run, config, system, events);
    }
}

/// The actions of a run are the action of its first step and then the
/// actions of the run that this step leaves.
proof fn lemma_first_and_rest(
    run: RunView,
    config: ConfigView,
    system: SystemView,
    events: Seq<EventView>,
)
    requires
        events.len() > 0,
    ensures
        ({
            let next = run.step(config, system, events[0]);
            let rest = actions(next.0, config, system, events.subrange(1, events.len() as int));
            let all = actions(run, config, system, events);
            &&& all.len() == rest.len() + 1
            &&& all[0] == next.1
            &&& forall|i: int| 1 <= i < all.len() ==> all[i] == rest[i - 1]
        }),
{
}

/// Installation is idempotent: when the directory of the build tool's
/// package exists already, a run fetches nothing from then on, whatever
/// else happens in it.
pub proof fn lemma_installed_tool_is_not_fetched(
    run: RunView,
    config: ConfigView,
    system: SystemView,
    events: Seq<EventView>,
)
    requires
        run.phase == Phase::Cake,
        run.cake.stage == CakeStage::Directory,
        events.len() > 0,
        events[0] == EventView::Exists(true),
    ensures
        forall|i: int|
            0 <= i < actions(run, config, system, events).len() ==> !(#[trigger] actions(
                run,
                config,
                system,
                events,
            )[i]).uses_network(),
{
    let next = run.step(config, system, events[0]);
    let rest = events.subrange(1, events.len() as int);
    assert(rank(next.0.phase) >= rank(Phase::Bootstrap));
    assert(!next.1.uses_network());
    lemma_no_network_after_installation(next.0, config, system, rest);
    lemma_first_and_rest(run, config, system, events);
}

/// How far a download has come.
pub open spec fn download_position(stage: DownloadStage) -> nat {
    match stage {
        DownloadStage::Start => 0,
        DownloadStage::Transfer => 1,
        DownloadStage::Cleanup(_) => 2,
        DownloadStage::Complete => 3,
    }
}

/// How far the installation of NuGet has come.
pub open spec fn nuget_position(stage: NugetStage) -> nat {
    match stage {
        NugetStage::Start => 0,
        NugetStage::Probe => 1,
        NugetStage::Download(inner) => 2 + download_position(inner),
        NugetStage::Permit => 6,
        NugetStage::Ready => 7,
    }
}

/// How far the installation of the SDK has come.
pub open spec fn sdk_position(stage: SdkStage) -> nat {
    match stage {
        SdkStage::Start => 0,
        SdkStage::Global => 1,
        SdkStage::Local => 2,
        SdkStage::Directory => 3,
        SdkStage::DirectoryCreate => 4,
        SdkStage::PlatformDirectory => 5,
        SdkStage::PlatformDirectoryCreate => 6,
        SdkStage::Script(inner) => 7 + download_position(inner),
        SdkStage::Permit => 11,
        SdkStage::Install => 12,
        SdkStage::Verify => 13,
        SdkStage::Ready => 14,
    }
}

/// How far the installation of the build tool has come.
pub open spec fn cake_position(stage: CakeStage) -> nat {
    match stage {
        CakeStage::Start => 0,
        CakeStage::Latest => 1,
        CakeStage::Directory => 2,
        CakeStage::Archive => 3,
        CakeStage::Cache => 4,
        CakeStage::Copy => 5,
        CakeStage::Download(inner) => 6 + download_position(inner),
        CakeStage::Extract => 10,
        CakeStage::Ready => 11,
    }
}

/// How far a phase of the script has come.
pub open spec fn script_position(stage: ScriptStage) -> nat {
    match stage {
        ScriptStage::Start => 0,
        ScriptStage::Warned => 1,
        ScriptStage::Probe => 2,
        ScriptStage::Running => 3,
        _ => 4,
    }
}

/// How far a run has come: every point at which a run can stand has its
/// place on one line, from the first question to the end.
pub open spec fn position(run: RunView) -> nat {
    match run.phase {
        Phase::ToolsProbe => 0,
        Phase::ToolsCreate => 1,
        Phase::Nuget => 2 + nuget_position(run.nuget),
        Phase::Sdk => 10 + sdk_position(run.sdk.stage),
        Phase::Cake => 25 + cake_position(run.cake.stage),
        Phase::Bootstrap => 37 + script_position(run.script),
        Phase::Execute => 42 + script_position(run.script),
        Phase::Over => end(),
    }
}

/// The place of the end of a run.
pub open spec fn end() -> nat {
    47
}

proof fn lemma_script_advances(
    cake: CakeView,
    config: ConfigView,
    sdk: Option<Seq<Seq<char>>>,
    stage: ScriptStage,
    event: EventView,
)
    ensures
        cake.bootstrap_step(config, sdk, stage, event).1 is Next ==> script_position(
            cake.bootstrap_step(config, sdk, stage, event).0,
        ) > script_position(stage),
        cake.execute_step(config, sdk, stage, event).1 is Next ==> script_position(
            cake.execute_step(config, sdk, stage, event).0,
        ) > script_position(stage),
{
}

proof fn lemma_cake_advances(
    config: ConfigView,
    system: SystemView,
    cake: crate::cake::CakeStateView,
    event: EventView,
)
    ensures
        crate::cake::install_step(config, system, cake, event).1 is Next ==> cake_position(
            crate::cake::install_step(config, system, cake, event).0.stage,
        ) > cake_position(cake.stage),
{
}

proof fn lemma_sdk_advances(
    config: ConfigView,
    system: SystemView,
    sdk: crate::dotnet::SdkStateView,
    event: EventView,
)
    ensures
        crate::dotnet::install_step(config, system, sdk, event).1 is Next ==> sdk_position(
            crate::dotnet::install_step(config, system, sdk, event).0.stage,
        ) > sdk_position(sdk.stage),
{
}

proof fn lemma_nuget_advances(
    config: ConfigView,
    system: SystemView,
    nuget: NugetStage,
    event: EventView,
)
    ensures
        crate::nuget::install_step(config, system, nuget, event).1 is Next ==> nuget_position(
            crate::nuget::install_step(config, system, nuget, event).0,
        ) > nuget_position(nuget),
{
}

proof fn lemma_execute_is_late(run: RunView, config: ConfigView, system: SystemView)
    ensures
        position(run.enter_execute(config, system).0) >= 42,
        position(run.finish(config).0) == end(),
{
}

proof fn lemma_bootstrap_is_late(run: RunView, config: ConfigView, system: SystemView)
    ensures
        position(run.enter_bootstrap(config, system).0) >= 37,
{
    lemma_execute_is_late(run, config, system);
    lemma_execute_is_late(RunView { script: ScriptStage::Start, ..run }, config, system);
}

proof fn lemma_cake_is_late(run: RunView, config: ConfigView, system: SystemView)
    ensures
        position(run.enter_cake(config, system).0) >= 25,
{
    let first = crate::cake::install_step(
        config,
        system,
        crate::cake::CakeStateView::start(),
        EventView::Done,
    );
    lemma_bootstrap_is_late(RunView { cake: first.0, ..run }, config, system);
}

proof fn lemma_sdk_is_late(run: RunView, config: ConfigView, system: SystemView)
    ensures
        position(run.enter_sdk(config, system).0) >= 10,
{
    let first = crate::dotnet::install_step(
        config,
        system,
        crate::dotnet::SdkStateView::start(),
        EventView::Done,
    );
    lemma_cake_is_late(RunView { sdk: first.0, ..run }, config, system);
}

proof fn lemma_nuget_is_late(run: RunView, config: ConfigView, system: SystemView)
    ensures
        position(run.enter_nuget(config, system).0) >= 2,
{
    let first = crate::nuget::install_step(config, system, NugetStage::Start, EventView::Done);
    lemma_sdk_is_late(RunView { nuget: first.0, ..run }, config, system);
}

/// No step is taken twice: every step takes a run that is not over to a
/// place further on, so that nothing is retried and nothing is done again.
pub proof fn lemma_every_step_advances(
    run: RunView,
    config: ConfigView,
    system: SystemView,
    event: EventView,
)
    requires
        run.phase != Phase::Over,
    ensures
        position(run.step(config, system, event).0) > position(run),
        position(run.step(config, system, event).0) <= end(),
{
    match run.phase {
        Phase::ToolsProbe => {
            lemma_nuget_is_late(run, config, system);
        },
        Phase::ToolsCreate => {
            lemma_nuget_is_late(run, config, system);
        },
        Phase::Nuget => {
            let step = crate::nuget::install_step(config, system, run.nuget, event);
            lemma_nuget_advances(config, system, run.nuget, event);
            lemma_sdk_is_late(RunView { nuget: step.0, ..run }, config, system);
        },
        Phase::Sdk => {
            let step = crate::dotnet::install_step(config, system, run.sdk, event);
            lemma_sdk_advances(config, system, run.sdk, event);
            lemma_cake_is_late(RunView { sdk: step.0, ..run }, config, system);
        },
        Phase::Cake => {
            let step = crate::cake::install_step(config, system, run.cake, event);
            lemma_cake_advances(config, system, run.cake, event);
            lemma_bootstrap_is_late(RunView { cake: step.0, ..run }, config, system);
        },
        Phase::Bootstrap => {
            lemma_script_advances(
                run.tool(config, system),
                config,
                run.sdk_path(config, system),
                run.script,
                event,
            );
            lemma_execute_is_late(RunView { script: ScriptStage::Start, ..run }, config, system);
        },
        Phase::Execute => {
            lemma_script_advances(
                run.tool(config, system),
                config,
                run.sdk_path(config, system),
                run.script,
                event,
            );
        },
        Phase::Over => {},
    }
}

/// The run that is left when the actions of `run` have been answered by
/// `events` in their order.
pub open spec fn run_after(
    run: RunView,
    config: ConfigView,
    system: SystemView,
    events: Seq<EventView>,
) -> RunView
    decreases events.len(),
{
    if events.len() == 0 {
        run
    } else {
        run_after(
            run.step(config, system, events[0]).0,
            config,
            system,
            events.subrange(1, events.len() as int),
        )
    }
}

/// Every run ends: whatever the answers are, a run is over as soon as it
/// has been given as many answers as there are places between where it
/// stands and the end.
pub proof fn lemma_every_run_ends(
    run: RunView,
    config: ConfigView,
    system: SystemView,
    events: Seq<EventView>,
)
    requires
        position(run) + events.len() >= end(),
    ensures
        run_after(run, config, system, events).phase == Phase::Over,
    decreases events.len(),
{
    if events.len() == 0 {
    } else {
        let next = run.step(config, system, events[0]).0;
        if run.phase != Phase::Over {
            lemma_every_step_advances(run, config, system, events[0]);
        }
        lemma_every_run_ends(next, config, system, events.subrange(1, events.len() as int));
    }
}

/// Whether the answers tell of a machine on which every place that the
/// run asks after exists: `pending` is what the run has asked for, and
/// `events` are the answers from there on.
pub open spec fn everything_exists(
    pending: ActionView,
    run: RunView,
    config: ConfigView,
    system: SystemView,
    events: Seq<EventView>,
) -> bool
    decreases events.len(),
{
    events.len() == 0 || {
        let next = run.step(config, system, events[0]);
        &&& pending is PathExists ==> events[0] == EventView::Exists(true)
        &&& everything_exists(
            next.1,
            next.0,
            config,
            system,
            events.subrange(1, events.len() as int),
        )
    }
}

/// Where a run can stand, and what it can have asked for, when no SDK is
/// wanted and every place it has asked after exists.
pub open spec fn nothing_missing(run: RunView, pending: ActionView) -> bool {
    ||| run.phase == Phase::ToolsProbe && pending is PathExists
    ||| run.phase == Phase::Nuget && run.nuget == NugetStage::Probe && pending is PathExists
    ||| run.phase == Phase::Cake && run.cake.stage == CakeStage::Latest && pending
        is FetchReleases
    ||| run.phase == Phase::Cake && run.cake.stage == CakeStage::Directory && pending
        is PathExists
    ||| rank(run.phase) >= rank(Phase::Bootstrap) && !pending.installs() && !(pending
        is PathExists)
}

proof fn lemma_nothing_missing_after_nuget(run: RunView, config: ConfigView, system: SystemView)
    requires
        config.sdk_version is Absent,
    ensures
        nothing_missing(run.enter_sdk(config, system).0, run.enter_sdk(config, system).1),
{
}

proof fn lemma_nothing_missing_at_nuget(run: RunView, config: ConfigView, system: SystemView)
    requires
        config.sdk_version is Absent,
    ensures
        nothing_missing(run.enter_nuget(config, system).0, run.enter_nuget(config, system).1),
{
    let first = crate::nuget::install_step(config, system, NugetStage::Start, EventView::Done);
    lemma_nothing_missing_after_nuget(RunView { nuget: first.0, ..run }, config, system);
}

proof fn lemma_nothing_missing_is_kept(
    run: RunView,
    pending: ActionView,
    config: ConfigView,
    system: SystemView,
    event: EventView,
)
    requires
        config.sdk_version is Absent,
        nothing_missing(run, pending),
        pending is PathExists ==> event == EventView::Exists(true),
    ensures
        nothing_missing(run.step(config, system, event).0, run.step(config, system, event).1),
        !run.step(config, system, event).1.installs(),
{
    if run.phase == Phase::ToolsProbe {
        lemma_nothing_missing_at_nuget(run, config, system);
    } else if run.phase == Phase::Nuget {
        lemma_nothing_missing_after_nuget(
            RunView { nuget: NugetStage::Ready, ..run },
            config,
            system,
        );
    }
}

proof fn lemma_settled_run_installs_nothing(
    run: RunView,
    pending: ActionView,
    config: ConfigView,
    system: SystemView,
    events: Seq<EventView>,
)
    requires
        config.sdk_version is Absent,
        nothing_missing(run, pending),
        everything_exists(pending, run, config, system, events),
    ensures
        forall|i: int|
            0 <= i < actions(run, config, system, events).len() ==> !(#[trigger] actions(
                run,
                config,
                system,
                events,
            )[i]).installs(),
    decreases events.len(),
{
    if events.len() > 0 {
        let next = run.step(config, system, events[0]);
        lemma_nothing_missing_is_kept(run, pending, config, system, events[0]);
        lemma_settled_run_installs_nothing(
            next.0,
            next.1,
            config,
            system,
            events.subrange(1, events.len() as int),
        );
        lemma_first_and_rest(run, config, system, events);
    }
}

/// Installing again changes nothing: in a run that wants no SDK, on a
/// machine where every place that the run asks after exists, nothing is
/// downloaded, copied, unpacked, created or removed, from the first step of
/// the run to its last.
pub proof fn lemma_second_installation_changes_nothing(
    config: ConfigView,
    system: SystemView,
    events: Seq<EventView>,
)
    requires
        config.sdk_version is Absent,
        everything_exists(
            RunView::begin(config, system).1,
            RunView::begin(config, system).0,
            config,
            system,
            events,
        ),
    ensures
        !RunView::begin(config, system).1.installs(),
        ({
            let asked = actions(RunView::begin(config, system).0, config, system, events);
            forall|i: int| 0 <= i < asked.len() ==> !(#[trigger] asked[i]).installs()
        }),
{
    let first = RunView::begin(config, system);
    lemma_nothing_missing_at_nuget(RunView::fresh(), config, system);
    lemma_settled_run_installs_nothing(first.0, first.1, config, system, events);
}

} // verus!
