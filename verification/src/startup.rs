//! The steps from the start of a server to its end.
use vstd::prelude::*;

verus! {

/// What is done next.
#[derive(Clone, Copy, Debug, PartialEq, Eq, Structural)]
pub enum Step {
    /// Choose how errors are reported.
    InstallReports,
    /// Load the configuration.
    LoadConfig,
    /// Start tracing, in the way that was chosen when the server was built or in the usual way.
    StartTracing { custom: bool },
    /// Let the application set up its routes.
    InitServer,
    /// Connect to the database.
    ConnectDatabase,
    /// Set up sessions.
    SetUpSessions,
    /// Listen for requests.
    ConnectNetwork,
    /// Serve requests until the server is told to stop.
    Serve,
    /// Nothing: the server has come to its end.
    Finished,
    /// Nothing: the given step failed.
    Failed { during: Stage },
}

/// A step that can fail.
#[derive(Clone, Copy, Debug, PartialEq, Eq, Structural)]
pub enum Stage {
    InstallReports,
    LoadConfig,
    StartTracing,
    InitServer,
    ConnectDatabase,
    SetUpSessions,
    ConnectNetwork,
    Serve,
}

/// What came of a step.
#[derive(Clone, Copy, Debug, PartialEq, Eq, Structural)]
pub enum Event {
    /// The configuration was loaded. It comes with a way of tracing, or it does not.
    Configured { custom_tracing: bool },
    /// Any other step succeeded.
    Succeeded,
    /// The step failed.
    Failed,
}

impl Stage {
    /// The sentence that is put before the report of the failure, if any is.
    pub fn context(&self) -> (r: Option<&'static str>)
        ensures
            match self {
                Stage::LoadConfig => r matches Some(text) && text@ == "Failed to load config"@,
                Stage::ConnectNetwork => r matches Some(text) && text@
                    == "Failed to connect to network"@,
                _ => r is None,
            },
    {
        match self {
            Stage::LoadConfig => Some("Failed to load config"),
            Stage::ConnectNetwork => Some("Failed to connect to network"),
            _ => None,
        }
    }
}

/// How far a server has come.
pub open spec fn stage(step: Step) -> Option<Stage> {
    match step {
        Step::InstallReports => Some(Stage::InstallReports),
        Step::LoadConfig => Some(Stage::LoadConfig),
        Step::StartTracing { .. } => Some(Stage::StartTracing),
        Step::InitServer => Some(Stage::InitServer),
        Step::ConnectDatabase => Some(Stage::ConnectDatabase),
        Step::SetUpSessions => Some(Stage::SetUpSessions),
        Step::ConnectNetwork => Some(Stage::ConnectNetwork),
        Step::Serve => Some(Stage::Serve),
        Step::Finished => None,
        Step::Failed { .. } => None,
    }
}

/// The step that comes after a successful one.
pub open spec fn successor(step: Step, custom_tracing: bool) -> Step {
    match step {
        Step::InstallReports => Step::LoadConfig,
        Step::LoadConfig => Step::StartTracing { custom: custom_tracing },
        Step::StartTracing { .. } => Step::InitServer,
        Step::InitServer => Step::ConnectDatabase,
        Step::ConnectDatabase => Step::SetUpSessions,
        Step::SetUpSessions => Step::ConnectNetwork,
        Step::ConnectNetwork => Step::Serve,
        _ => Step::Finished,
    }
}

/// The step that comes after another.
pub open spec fn following(step: Step, event: Event) -> Step {
    match stage(step) {
        None => step,
        Some(during) => match event {
            Event::Failed => Step::Failed { during },
            Event::Succeeded => successor(step, false),
            Event::Configured { custom_tracing } => successor(step, custom_tracing),
        },
    }
}

impl Step {
    /// The first step.
    pub fn first() -> (r: Step)
        ensures
            r == Step::InstallReports,
    {
        Step::InstallReports
    }

    /// The step that comes after this one.
    pub fn next(self, event: Event) -> (r: Step)
        ensures
            r == following(self, event),
    {
        let (during, after) = match self {
            Step::InstallReports => (Stage::InstallReports, Step::LoadConfig),
            Step::LoadConfig => {
                let custom = match event {
                    Event::Configured { custom_tracing } => custom_tracing,
                    _ => false,
                };
                (Stage::LoadConfig, Step::StartTracing { custom })
            },
            Step::StartTracing { .. } => (Stage::StartTracing, Step::InitServer),
            Step::InitServer => (Stage::InitServer, Step::ConnectDatabase),
            Step::ConnectDatabase => (Stage::ConnectDatabase, Step::SetUpSessions),
            Step::SetUpSessions => (Stage::SetUpSessions, Step::ConnectNetwork),
            Step::ConnectNetwork => (Stage::ConnectNetwork, Step::Serve),
            Step::Serve => (Stage::Serve, Step::Finished),
            Step::Finished => return Step::Finished,
            Step::Failed { during } => return Step::Failed { during },
        };
        match event {
            Event::Failed => Step::Failed { during },
            _ => after,
        }
    }
}

/// The step that is reached from the first one by a sequence of events.
pub open spec fn reached(events: Seq<Event>) -> Step
    decreases events.len(),
{
    if events.len() == 0 {
        Step::InstallReports
    } else {
        following(reached(events.drop_last()), events.last())
    }
}

/// The number of steps before a step.
pub open spec fn steps_before(step: Step) -> nat {
    match step {
        Step::InstallReports => 0,
        Step::LoadConfig => 1,
        Step::StartTracing { .. } => 2,
        Step::InitServer => 3,
        Step::ConnectDatabase => 4,
        Step::SetUpSessions => 5,
        Step::ConnectNetwork => 6,
        Step::Serve => 7,
        _ => 8,
    }
}

/// Once a step has failed or the server has come to its end, nothing is done any more.
pub proof fn law_end_is_final(step: Step, event: Event)
    requires
        stage(step) is None,
    ensures
        following(step, event) == step,
{
}

/// A step is reached only when every step before it has succeeded.
pub proof fn law_no_step_is_skipped(events: Seq<Event>)
    requires
        stage(reached(events)) is Some,
    ensures
        events.len() == steps_before(reached(events)),
        forall|i: int| 0 <= i < events.len() ==> #[trigger] events[i] != Event::Failed,
    decreases events.len(),
{
    if events.len() > 0 {
        law_no_step_is_skipped(events.drop_last());
        assert forall|i: int| 0 <= i < events.len() implies #[trigger] events[i]
            != Event::Failed by {
            if i < events.len() - 1 {
                assert(events.drop_last()[i] != Event::Failed);
            }
        }
    }
}

/// Where no step fails, the server comes to its end after eight steps.
pub proof fn law_success_comes_to_the_end(events: Seq<Event>)
    requires
        forall|i: int| 0 <= i < events.len() ==> #[trigger] events[i] != Event::Failed,
    ensures
        steps_before(reached(events)) == if events.len() < 8 {
            events.len()
        } else {
            8
        },
        reached(events) == Step::Finished <==> events.len() >= 8,
    decreases events.len(),
{
    if events.len() > 0 {
        let before = events.drop_last();
        assert forall|i: int| 0 <= i < before.len() implies #[trigger] before[i]
            != Event::Failed by {
            assert(events[i] != Event::Failed);
        }
        law_success_comes_to_the_end(before);
        assert(events[events.len() - 1] != Event::Failed);
    }
}

/// The way of tracing is the one that the configuration came with.
pub proof fn law_tracing_is_the_chosen_one(custom_tracing: bool)
    ensures
        following(Step::LoadConfig, Event::Configured { custom_tracing })
            == (Step::StartTracing { custom: custom_tracing }),
{
}

/// A step that succeeds leads to the one right after it, a step that fails to the end that names
/// it, and tracing is custom only where the configuration came with a way of tracing.
pub proof fn law_steps_lead_on(step: Step, event: Event, r: Step)
    requires
        call_ensures(Step::next, (step, event), r),
        stage(step) is Some,
    ensures
        event != Event::Failed ==> steps_before(r) == steps_before(step) + 1 && !(r is Failed),
        event == Event::Failed ==> (r matches Step::Failed { during } && stage(step) == Some(
            during,
        )),
        r matches Step::StartTracing { custom } ==> (custom <==> event == Event::Configured {
            custom_tracing: true,
        }),
{
}

} // verus!
