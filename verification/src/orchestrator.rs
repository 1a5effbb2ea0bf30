//! One run from its configuration to its exit code: the tools directory,
//! the three installers and the two phases of the script, in this order.

use crate::cake::{Cake, CakeState, CakeStateView, CakeView, ScriptStage};
use crate::command_line::optional_path;
use crate::config::{Config, ConfigView};
use crate::dotnet::{
    get_local_installation_path,
    latest_refused,
    sdk_directory,
    SdkState,
    SdkStateView,
};
use crate::error::{Failure, FailureKind, FailureView};
use crate::nuget::NugetStage;
use crate::path::ToolPath;
use crate::platform::{platform_of, System, SystemView};
use crate::step::{
    refusal,
    refusal_of,
    Action,
    ActionView,
    Event,
    EventView,
    Outcome,
    OutcomeView,
    Progress,
    ProgressView,
};
use vstd::prelude::*;

verus! {

/// The part of a run that is under way.
#[derive(Clone, Copy, Debug, PartialEq, Eq, Structural)]
pub enum Phase {
    /// The tools directory was asked after.
    ToolsProbe,
    /// The tools directory was asked to be created.
    ToolsCreate,
    /// NuGet is being installed.
    Nuget,
    /// The SDK is being installed.
    Sdk,
    /// The build tool is being installed.
    Cake,
    /// The build tool bootstraps.
    Bootstrap,
    /// The build tool executes the script.
    Execute,
    /// The run is over.
    Over,
}

/// A run: the part that is under way, where each part stands, and what the
/// run has come to.
#[derive(Clone, Debug, PartialEq, Eq)]
pub struct Run {
    pub phase: Phase,
    pub nuget: NugetStage,
    pub sdk: SdkState,
    pub cake: CakeState,
    pub script: ScriptStage,
    /// The exit code of the script, 0 until it was executed.
    pub code: i32,
    /// The failure that ended the run, if one did.
    pub failure: Option<Failure>,
}

/// What a `Run` is in contracts.
pub struct RunView {
    pub phase: Phase,
    pub nuget: NugetStage,
    pub sdk: SdkStateView,
    pub cake: CakeStateView,
    pub script: ScriptStage,
    pub code: i32,
    pub failure: Option<FailureView>,
}

impl View for Run {
    type V = RunView;

    open spec fn view(&self) -> RunView {
        RunView {
            phase: self.phase,
            nuget: self.nuget,
            sdk: self.sdk@,
            cake: self.cake@,
            script: self.script,
            code: self.code,
            failure: match self.failure {
                Some(failure) => Some(failure@),
                None => None,
            },
        }
    }
}

/// What is said of a failure to create the tools directory.
pub open spec fn tools_context() -> Seq<char> {
    "An error occured while creating the tools folder."@
}

/// What is said of a failure to install NuGet.
pub open spec fn nuget_context() -> Seq<char> {
    "An error occured while installing NuGet."@
}

/// What is said of a failure to install the SDK.
pub open spec fn sdk_context() -> Seq<char> {
    "An error occured while installing dotnet."@
}

/// What is said of a failure to install the build tool.
pub open spec fn cake_context() -> Seq<char> {
    "An error occured while downloading Cake."@
}

/// What is said of a failure to bootstrap.
pub open spec fn bootstrap_context() -> Seq<char> {
    "An error occured while bootstrapping Cake script."@
}

/// What is said of a failure to execute the script.
pub open spec fn execute_context() -> Seq<char> {
    "An error occured while executing Cake script."@
}

impl RunView {
    /// A run of which nothing has happened yet.
    pub open spec fn fresh() -> RunView {
        RunView {
            phase: Phase::ToolsProbe,
            nuget: NugetStage::Start,
            sdk: SdkStateView::start(),
            cake: CakeStateView::start(),
            script: ScriptStage::Start,
            code: 0,
            failure: None,
        }
    }

    /// The tools directory.
    pub open spec fn tools(config: ConfigView) -> Seq<Seq<char>> {
        seq![config.tools]
    }

    /// The directory of the project's own SDK, where that is the one to
    /// use.
    pub open spec fn sdk_path(self, config: ConfigView, system: SystemView) -> Option<
        Seq<Seq<char>>,
    > {
        match platform_of(system.os) {
            Some(platform) => if self.sdk.local {
                Some(sdk_directory(config, platform))
            } else {
                None
            },
            None => None,
        }
    }

    /// The build tool that the run has installed.
    pub open spec fn tool(self, config: ConfigView, system: SystemView) -> CakeView {
        CakeView::of(config, system.family, self.cake.version)
    }

    /// How the run ended: with its failure where it had one; else with the
    /// script's exit code, or idle where no tool was asked for.
    pub open spec fn outcome(self, config: ConfigView) -> OutcomeView {
        match self.failure {
            Some(failure) => OutcomeView::Failed(failure),
            None => if config.wants_tools() {
                OutcomeView::Completed(self.code)
            } else {
                OutcomeView::Idle
            },
        }
    }

    /// The end of the run.
    pub open spec fn finish(self, config: ConfigView) -> (RunView, ActionView) {
        let over = RunView { phase: Phase::Over, ..self };
        (over, ActionView::Finish(over.outcome(config)))
    }

    /// The end of the run in a failure: the failure of a step, with the
    /// step named in front of its message.
    pub open spec fn fail(self, context: Seq<char>, failure: FailureView) -> (RunView, ActionView) {
        let reported = FailureView {
            kind: failure.kind,
            message: context + " "@ + failure.message,
        };
        (
            RunView { phase: Phase::Over, failure: Some(reported), ..self },
            ActionView::Finish(OutcomeView::Failed(reported)),
        )
    }

    /// What follows a step of the phase that executes the script. The exit
    /// code of the tool becomes that of the run.
    pub open spec fn execute_settled(
        self,
        config: ConfigView,
        step: (ScriptStage, ProgressView),
    ) -> (RunView, ActionView) {
        match step.1 {
            ProgressView::Next(action) => (
                RunView { phase: Phase::Execute, script: step.0, ..self },
                action,
            ),
            ProgressView::Finished => {
                let done = RunView { script: step.0, code: step.0.code(), ..self };
                done.finish(config)
            },
            ProgressView::Failed(failure) => (RunView { script: step.0, ..self }).fail(
                execute_context(),
                failure,
            ),
        }
    }

    /// The start of the phase that executes the script, where the build
    /// tool was installed and the script is to be executed; else the end of
    /// the run.
    pub open spec fn enter_execute(self, config: ConfigView, system: SystemView) -> (
        RunView,
        ActionView,
    ) {
        if !(config.cake_version is Absent) && config.execute_script {
            self.execute_settled(
                config,
                self.tool(config, system).execute_step(
                    config,
                    self.sdk_path(config, system),
                    ScriptStage::Start,
                    EventView::Done,
                ),
            )
        } else {
            self.finish(config)
        }
    }

    /// What follows a step of the bootstrap phase. What the phase gives is
    /// not looked at: the run goes on to execute the script.
    pub open spec fn bootstrap_settled(
        self,
        config: ConfigView,
        system: SystemView,
        step: (ScriptStage, ProgressView),
    ) -> (RunView, ActionView) {
        match step.1 {
            ProgressView::Next(action) => (
                RunView { phase: Phase::Bootstrap, script: step.0, ..self },
                action,
            ),
            ProgressView::Finished => {
                let done = RunView { script: ScriptStage::Start, ..self };
                done.enter_execute(config, system)
            },
            ProgressView::Failed(failure) => (RunView { script: step.0, ..self }).fail(
                bootstrap_context(),
                failure,
            ),
        }
    }

    /// The start of the bootstrap phase, where the build tool was
    /// installed and is to bootstrap; else what follows that phase.
    pub open spec fn enter_bootstrap(self, config: ConfigView, system: SystemView) -> (
        RunView,
        ActionView,
    ) {
        if !(config.cake_version is Absent) && config.bootstrap {
            self.bootstrap_settled(
                config,
                system,
                self.tool(config, system).bootstrap_step(
                    config,
                    self.sdk_path(config, system),
                    ScriptStage::Start,
                    EventView::Done,
                ),
            )
        } else {
            self.enter_execute(config, system)
        }
    }

    /// What follows a step of the installation of the build tool.
    pub open spec fn cake_settled(
        self,
        config: ConfigView,
        system: SystemView,
        step: (CakeStateView, ProgressView),
    ) -> (RunView, ActionView) {
        match step.1 {
            ProgressView::Next(action) => (
                RunView { phase: Phase::Cake, cake: step.0, ..self },
                action,
            ),
            ProgressView::Finished => (RunView { cake: step.0, ..self }).enter_bootstrap(
                config,
                system,
            ),
            ProgressView::Failed(failure) => (RunView { cake: step.0, ..self }).fail(
                cake_context(),
                failure,
            ),
        }
    }

    /// The start of the installation of the build tool.
    pub open spec fn enter_cake(self, config: ConfigView, system: SystemView) -> (
        RunView,
        ActionView,
    ) {
        self.cake_settled(
            config,
            system,
            crate::cake::install_step(config, system, CakeStateView::start(), EventView::Done),
        )
    }

    /// What follows a step of the installation of the SDK.
    pub open spec fn sdk_settled(
        self,
        config: ConfigView,
        system: SystemView,
        step: (SdkStateView, ProgressView),
    ) -> (RunView, ActionView) {
        match step.1 {
            ProgressView::Next(action) => (
                RunView { phase: Phase::Sdk, sdk: step.0, ..self },
                action,
            ),
            ProgressView::Finished => (RunView { sdk: step.0, ..self }).enter_cake(config, system),
            ProgressView::Failed(failure) => (RunView { sdk: step.0, ..self }).fail(
                sdk_context(),
                failure,
            ),
        }
    }

    /// The start of the installation of the SDK.
    pub open spec fn enter_sdk(self, config: ConfigView, system: SystemView) -> (
        RunView,
        ActionView,
    ) {
        self.sdk_settled(
            config,
            system,
            crate::dotnet::install_step(config, system, SdkStateView::start(), EventView::Done),
        )
    }

    /// What follows a step of the installation of NuGet.
    pub open spec fn nuget_settled(
        self,
        config: ConfigView,
        system: SystemView,
        step: (NugetStage, ProgressView),
    ) -> (RunView, ActionView) {
        match step.1 {
            ProgressView::Next(action) => (
                RunView { phase: Phase::Nuget, nuget: step.0, ..self },
                action,
            ),
            ProgressView::Finished => (RunView { nuget: step.0, ..self }).enter_sdk(config, system),
            ProgressView::Failed(failure) => (RunView { nuget: step.0, ..self }).fail(
                nuget_context(),
                failure,
            ),
        }
    }

    /// The start of the installation of NuGet.
    pub open spec fn enter_nuget(self, config: ConfigView, system: SystemView) -> (
        RunView,
        ActionView,
    ) {
        self.nuget_settled(
            config,
            system,
            crate::nuget::install_step(config, system, NugetStage::Start, EventView::Done),
        )
    }

    /// The first step of a run. A request for the newest SDK is refused
    /// before anything else is done. Where a tool is asked for, the tools
    /// directory is asked after; where none is, nothing is done at all.
    pub open spec fn begin(config: ConfigView, system: SystemView) -> (RunView, ActionView) {
        let run = RunView::fresh();
        if config.sdk_version is Latest {
            run.fail(
                sdk_context(),
                FailureView { kind: FailureKind::Version, message: latest_refused() },
            )
        } else if config.wants_tools() {
            (run, ActionView::PathExists(RunView::tools(config)))
        } else {
            run.enter_nuget(config, system)
        }
    }

    /// One step of a run: what the run is and asks for after `event` has
    /// answered what it asked for before.
    ///
    /// The tools directory is created where it does not exist. Then the
    /// parts of the run follow each other in their order, each from its
    /// start to its end, and a part that was not asked for is passed over.
    /// The first failure ends the run. A run that is over stays over.
    pub open spec fn step(self, config: ConfigView, system: SystemView, event: EventView) -> (
        RunView,
        ActionView,
    ) {
        match self.phase {
            Phase::ToolsProbe => match event {
                EventView::Exists(true) => self.enter_nuget(config, system),
                EventView::Exists(false) => (
                    RunView { phase: Phase::ToolsCreate, ..self },
                    ActionView::CreateDirectory(RunView::tools(config)),
                ),
                _ => self.fail(tools_context(), refusal_of(FailureKind::FileSystem, event)),
            },
            Phase::ToolsCreate => match event {
                EventView::Done => self.enter_nuget(config, system),
                _ => self.fail(tools_context(), refusal_of(FailureKind::FileSystem, event)),
            },
            Phase::Nuget => self.nuget_settled(
                config,
                system,
                crate::nuget::install_step(config, system, self.nuget, event),
            ),
            Phase::Sdk => self.sdk_settled(
                config,
                system,
                crate::dotnet::install_step(config, system, self.sdk, event),
            ),
            Phase::Cake => self.cake_settled(
                config,
                system,
                crate::cake::install_step(config, system, self.cake, event),
            ),
            Phase::Bootstrap => self.bootstrap_settled(
                config,
                system,
                self.tool(config, system).bootstrap_step(
                    config,
                    self.sdk_path(config, system),
                    self.script,
                    event,
                ),
            ),
            Phase::Execute => self.execute_settled(
                config,
                self.tool(config, system).execute_step(
                    config,
                    self.sdk_path(config, system),
                    self.script,
                    event,
                ),
            ),
            Phase::Over => (self, ActionView::Finish(self.outcome(config))),
        }
    }
}

impl Run {
    fn fresh() -> (run: Run)
        ensures
            run@ == RunView::fresh(),
    {
        Run {
            phase: Phase::ToolsProbe,
            nuget: NugetStage::Start,
            sdk: SdkState::start(),
            cake: CakeState::start(),
            script: ScriptStage::Start,
            code: 0,
            failure: None,
        }
    }

    fn get_tools(config: &Config) -> (path: ToolPath)
        ensures
            path@ == RunView::tools(config@),
    {
        ToolPath::new(config.tools.as_str())
    }

    fn get_sdk_path(&self, config: &Config, system: &System) -> (path: Option<ToolPath>)
        ensures
            optional_path(path) == self@.sdk_path(config@, system@),
    {
        if !self.sdk.local {
            return None;
        }
        match get_local_installation_path(config, system) {
            Ok(path) => Some(path),
            Err(_) => None,
        }
    }

    fn get_tool(&self, config: &Config, system: &System) -> (cake: Cake)
        ensures
            cake@ == self@.tool(config@, system@),
    {
        Cake::new(config, system.family, &self.cake.version)
    }

    /// Returns how the run ended. Of a run that is not over, this is how it
    /// would end if nothing more were done.
    pub fn get_outcome(&self, config: &Config) -> (outcome: Outcome)
        ensures
            outcome@ == self@.outcome(config@),
    {
        match &self.failure {
            Some(failure) => Outcome::Failed(
                Failure { kind: failure.kind, message: failure.message.clone() },
            ),
            None => {
                if config.should_create_tools_directory() {
                    Outcome::Completed(self.code)
                } else {
                    Outcome::Idle
                }
            },
        }
    }

    fn finish(self, config: &Config) -> (next: (Run, Action))
        ensures
            (next.0@, next.1@) == self@.finish(config@),
    {
        let over = Run { phase: Phase::Over, ..self };
        let outcome = over.get_outcome(config);
        (over, Action::Finish(outcome))
    }

    fn fail(self, context: &str, failure: Failure) -> (next: (Run, Action))
        ensures
            (next.0@, next.1@) == self@.fail(context@, failure@),
    {
        let reported = failure.within(context);
        let kept = Failure { kind: reported.kind, message: reported.message.clone() };
        (
            Run { phase: Phase::Over, failure: Some(kept), ..self },
            Action::Finish(Outcome::Failed(reported)),
        )
    }

    fn execute_settled(self, config: &Config, step: (ScriptStage, Progress)) -> (next: (
        Run,
        Action,
    ))
        ensures
            (next.0@, next.1@) == self@.execute_settled(config@, (step.0, step.1@)),
    {
        match step.1 {
            Progress::Next(action) => (
                Run { phase: Phase::Execute, script: step.0, ..self },
                action,
            ),
            Progress::Finished => {
                let code = step.0.get_code();
                (Run { script: step.0, code, ..self }).finish(config)
            },
            Progress::Failed(failure) => (Run { script: step.0, ..self }).fail(
                "An error occured while executing Cake script.",
                failure,
            ),
        }
    }

    fn enter_execute(self, config: &Config, system: &System) -> (next: (Run, Action))
        ensures
            (next.0@, next.1@) == self@.enter_execute(config@, system@),
    {
        if crate::cake::should_install(config) && config.execute_script {
            let step = self.get_tool(config, system).execute(
                config,
                self.get_sdk_path(config, system),
                ScriptStage::Start,
                &Event::Done,
            );
            self.execute_settled(config, step)
        } else {
            self.finish(config)
        }
    }

    fn bootstrap_settled(
        self,
        config: &Config,
        system: &System,
        step: (ScriptStage, Progress),
    ) -> (next: (Run, Action))
        ensures
            (next.0@, next.1@) == self@.bootstrap_settled(config@, system@, (step.0, step.1@)),
    {
        match step.1 {
            Progress::Next(action) => (
                Run { phase: Phase::Bootstrap, script: step.0, ..self },
                action,
            ),
            Progress::Finished => (Run { script: ScriptStage::Start, ..self }).enter_execute(
                config,
                system,
            ),
            Progress::Failed(failure) => (Run { script: step.0, ..self }).fail(
                "An error occured while bootstrapping Cake script.",
                failure,
            ),
        }
    }

    fn enter_bootstrap(self, config: &Config, system: &System) -> (next: (Run, Action))
        ensures
            (next.0@, next.1@) == self@.enter_bootstrap(config@, system@),
    {
        if crate::cake::should_install(config) && config.bootstrap {
            let step = self.get_tool(config, system).bootstrap(
                config,
                self.get_sdk_path(config, system),
                ScriptStage::Start,
                &Event::Done,
            );
            self.bootstrap_settled(config, system, step)
        } else {
            self.enter_execute(config, system)
        }
    }

    fn cake_settled(self, config: &Config, system: &System, step: (CakeState, Progress)) -> (next: (
        Run,
        Action,
    ))
        ensures
            (next.0@, next.1@) == self@.cake_settled(config@, system@, (step.0@, step.1@)),
    {
        match step.1 {
            Progress::Next(action) => (Run { phase: Phase::Cake, cake: step.0, ..self }, action),
            Progress::Finished => (Run { cake: step.0, ..self }).enter_bootstrap(config, system),
            Progress::Failed(failure) => (Run { cake: step.0, ..self }).fail(
                "An error occured while downloading Cake.",
                failure,
            ),
        }
    }

    fn enter_cake(self, config: &Config, system: &System) -> (next: (Run, Action))
        ensures
            (next.0@, next.1@) == self@.enter_cake(config@, system@),
    {
        let step = crate::cake::install(config, system, CakeState::start(), &Event::Done);
        self.cake_settled(config, system, step)
    }

    fn sdk_settled(self, config: &Config, system: &System, step: (SdkState, Progress)) -> (next: (
        Run,
        Action,
    ))
        ensures
            (next.0@, next.1@) == self@.sdk_settled(config@, system@, (step.0@, step.1@)),
    {
        match step.1 {
            Progress::Next(action) => (Run { phase: Phase::Sdk, sdk: step.0, ..self }, action),
            Progress::Finished => (Run { sdk: step.0, ..self }).enter_cake(config, system),
            Progress::Failed(failure) => (Run { sdk: step.0, ..self }).fail(
                "An error occured while installing dotnet.",
                failure,
            ),
        }
    }

    fn enter_sdk(self, config: &Config, system: &System) -> (next: (Run, Action))
        ensures
            (next.0@, next.1@) == self@.enter_sdk(config@, system@),
    {
        let step = crate::dotnet::install(config, system, SdkState::start(), &Event::Done);
        self.sdk_settled(config, system, step)
    }

    fn nuget_settled(self, config: &Config, system: &System, step: (NugetStage, Progress)) -> (next:
        (Run, Action))
        ensures
            (next.0@, next.1@) == self@.nuget_settled(config@, system@, (step.0, step.1@)),
    {
        match step.1 {
            Progress::Next(action) => (Run { phase: Phase::Nuget, nuget: step.0, ..self }, action),
            Progress::Finished => (Run { nuget: step.0, ..self }).enter_sdk(config, system),
            Progress::Failed(failure) => (Run { nuget: step.0, ..self }).fail(
                "An error occured while installing NuGet.",
                failure,
            ),
        }
    }

    fn enter_nuget(self, config: &Config, system: &System) -> (next: (Run, Action))
        ensures
            (next.0@, next.1@) == self@.enter_nuget(config@, system@),
    {
        let step = crate::nuget::install(config, system, NugetStage::Start, &Event::Done);
        self.nuget_settled(config, system, step)
    }

    /// Takes the run one step further: `event` answers the action that the
    /// step before asked for. The action that comes back is to be performed
    /// next, and its answer handed to the next call; `Action::Finish` ends
    /// the run.
    pub fn advance(self, config: &Config, system: &System, event: &Event) -> (next: (Run, Action))
        ensures
            (next.0@, next.1@) == self@.step(config@, system@, event@),
    {
        match self.phase {
            Phase::ToolsProbe => match event {
                Event::Exists(true) => self.enter_nuget(config, system),
                Event::Exists(false) => (
                    Run { phase: Phase::ToolsCreate, ..self },
                    Action::CreateDirectory(Run::get_tools(config)),
                ),
                _ => self.fail(
                    "An error occured while creating the tools folder.",
                    refusal(FailureKind::FileSystem, event),
                ),
            },
            Phase::ToolsCreate => match event {
                Event::Done => self.enter_nuget(config, system),
                _ => self.fail(
                    "An error occured while creating the tools folder.",
                    refusal(FailureKind::FileSystem, event),
                ),
            },
            Phase::Nuget => {
                let step = crate::nuget::install(config, system, self.nuget, event);
                self.nuget_settled(config, system, step)
            },
            Phase::Sdk => {
                let Run { phase, nuget, sdk, cake, script, code, failure } = self;
                let step = crate::dotnet::install(config, system, sdk, event);
                let sdk = SdkState::start();
                let rest = Run { phase, nuget, sdk, cake, script, code, failure };
                rest.sdk_settled(config, system, step)
            },
            Phase::Cake => {
                let Run { phase, nuget, sdk, cake, script, code, failure } = self;
                let step = crate::cake::install(config, system, cake, event);
                let cake = CakeState::start();
                let rest = Run { phase, nuget, sdk, cake, script, code, failure };
                rest.cake_settled(config, system, step)
            },
            Phase::Bootstrap => {
                let step = self.get_tool(config, system).bootstrap(
                    config,
                    self.get_sdk_path(config, system),
                    self.script,
                    event,
                );
                self.bootstrap_settled(config, system, step)
            },
            Phase::Execute => {
                let step = self.get_tool(config, system).execute(
                    config,
                    self.get_sdk_path(config, system),
                    self.script,
                    event,
                );
                self.execute_settled(config, step)
            },
            Phase::Over => {
                let outcome = self.get_outcome(config);
                (self, Action::Finish(outcome))
            },
        }
    }
}

/// Starts a run: returns the run and the first action to perform.
pub fn run(config: &Config, system: &System) -> (first: (Run, Action))
    ensures
        (first.0@, first.1@) == RunView::begin(config@, system@),
{
    let run = Run::fresh();
    match &config.sdk_version {
        crate::version::VersionSpec::Latest => run.fail(
            "An error occured while installing dotnet.",
            Failure::new(
                FailureKind::Version,
                "You must specify a specific SDK version or none at all.",
            ),
        ),
        _ => {
            if config.should_create_tools_directory() {
                (run, Action::PathExists(Run::get_tools(config)))
            } else {
                run.enter_nuget(config, system)
            }
        },
    }
}

} // verus!
