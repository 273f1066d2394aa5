//! The start-up sequence: resolve the configuration, ensure the schema, then
//! hand the store to the shell. Either failure is fatal.
//!
//! The caller does the work that each [`StartupAction`] names and reports
//! back with a [`StartupEvent`]; [`advance`] decides what comes next.

use vstd::prelude::*;
use crate::state::{AppState, AppStateView};

verus! {

/// The exit status of a process whose start-up failed.
pub const FAILURE_EXIT_CODE: i32 = 1;

/// Where the start-up stands.
#[derive(Debug)]
pub enum Startup {
    /// The configuration is being resolved.
    Resolving,
    /// The configuration is resolved and the schema is being ensured.
    Bootstrapping(AppState),
    /// The store was handed over; the application runs.
    Ready,
    /// Start-up was abandoned.
    Failed,
}

/// What the caller reports.
#[derive(Debug)]
pub enum StartupEvent {
    /// The configuration was loaded or created.
    ConfigResolved(AppState),
    /// The configuration could not be resolved; the text says why.
    ConfigFailed(String),
    /// The schema exists.
    SchemaReady,
    /// The schema could not be ensured; the text says why.
    SchemaFailed(String),
}

/// What the caller does next.
#[derive(Debug)]
pub enum StartupAction {
    /// Ensure the schema in the database at this path.
    EnsureSchema(String),
    /// Register the store with the shell.
    Register(AppState),
    /// Log the report as an error and exit with the code.
    Abort { report: String, code: i32 },
    /// The event does not belong to the current state: do nothing.
    Ignore,
}

/// Mathematical value of a [`Startup`].
pub enum StartupView {
    Resolving,
    Bootstrapping(AppStateView),
    Ready,
    Failed,
}

/// Mathematical value of a [`StartupEvent`].
pub enum StartupEventView {
    ConfigResolved(AppStateView),
    ConfigFailed(Seq<char>),
    SchemaReady,
    SchemaFailed(Seq<char>),
}

/// Mathematical value of a [`StartupAction`].
pub enum StartupActionView {
    EnsureSchema(Seq<char>),
    Register(AppStateView),
    Abort { report: Seq<char>, code: i32 },
    Ignore,
}

impl View for Startup {
    type V = StartupView;

    open spec fn view(&self) -> StartupView {
        match self {
            Startup::Resolving => StartupView::Resolving,
            Startup::Bootstrapping(state) => StartupView::Bootstrapping(state@),
            Startup::Ready => StartupView::Ready,
            Startup::Failed => StartupView::Failed,
        }
    }
}

impl View for StartupEvent {
    type V = StartupEventView;

    open spec fn view(&self) -> StartupEventView {
        match self {
            StartupEvent::ConfigResolved(state) => StartupEventView::ConfigResolved(state@),
            StartupEvent::ConfigFailed(why) => StartupEventView::ConfigFailed(why@),
            StartupEvent::SchemaReady => StartupEventView::SchemaReady,
            StartupEvent::SchemaFailed(why) => StartupEventView::SchemaFailed(why@),
        }
    }
}

impl View for StartupAction {
    type V = StartupActionView;

    open spec fn view(&self) -> StartupActionView {
        match self {
            StartupAction::EnsureSchema(path) => StartupActionView::EnsureSchema(path@),
            StartupAction::Register(state) => StartupActionView::Register(state@),
            StartupAction::Abort { report, code } => StartupActionView::Abort {
                report: report@,
                code: *code,
            },
            StartupAction::Ignore => StartupActionView::Ignore,
        }
    }
}

/// The state that follows `state` on `event`.
pub open spec fn next_state(state: StartupView, event: StartupEventView) -> StartupView {
    match (state, event) {
        (StartupView::Resolving, StartupEventView::ConfigResolved(store)) => {
            StartupView::Bootstrapping(store)
        },
        (StartupView::Resolving, StartupEventView::ConfigFailed(_)) => StartupView::Failed,
        (StartupView::Bootstrapping(_), StartupEventView::SchemaReady) => StartupView::Ready,
        (StartupView::Bootstrapping(_), StartupEventView::SchemaFailed(_)) => StartupView::Failed,
        _ => state,
    }
}

/// The action that `event` calls for in `state`.
pub open spec fn next_action(state: StartupView, event: StartupEventView) -> StartupActionView {
    match (state, event) {
        (StartupView::Resolving, StartupEventView::ConfigResolved(store)) => {
            StartupActionView::EnsureSchema(store.config.data.database_path)
        },
        (StartupView::Resolving, StartupEventView::ConfigFailed(why)) => StartupActionView::Abort {
            report: "Failed to initialize config: "@ + why,
            code: FAILURE_EXIT_CODE,
        },
        (StartupView::Bootstrapping(store), StartupEventView::SchemaReady) => {
            StartupActionView::Register(store)
        },
        (StartupView::Bootstrapping(_), StartupEventView::SchemaFailed(why)) => {
            StartupActionView::Abort {
                report: "Failed to initialize database: "@ + why,
                code: FAILURE_EXIT_CODE,
            }
        },
        _ => StartupActionView::Ignore,
    }
}

/// Takes one step of the start-up sequence.
pub fn advance(state: Startup, event: StartupEvent) -> (step: (Startup, StartupAction))
    ensures
        step.0@ == next_state(state@, event@),
        step.1@ == next_action(state@, event@),
{
    match state {
        Startup::Resolving => match event {
            StartupEvent::ConfigResolved(store) => {
                let path = store.config.data.database_path.clone();
                (Startup::Bootstrapping(store), StartupAction::EnsureSchema(path))
            },
            StartupEvent::ConfigFailed(why) => {
                let report = String::from_str("Failed to initialize config: ").concat(
                    why.as_str(),
                );
                (Startup::Failed, StartupAction::Abort { report, code: FAILURE_EXIT_CODE })
            },
            _ => (Startup::Resolving, StartupAction::Ignore),
        },
        Startup::Bootstrapping(store) => match event {
            StartupEvent::SchemaReady => (Startup::Ready, StartupAction::Register(store)),
            StartupEvent::SchemaFailed(why) => {
                let report = String::from_str("Failed to initialize database: ").concat(
                    why.as_str(),
                );
                (Startup::Failed, StartupAction::Abort { report, code: FAILURE_EXIT_CODE })
            },
            _ => (Startup::Bootstrapping(store), StartupAction::Ignore),
        },
        Startup::Ready => (Startup::Ready, StartupAction::Ignore),
        Startup::Failed => (Startup::Failed, StartupAction::Ignore),
    }
}

/// The state that a whole sequence of events leads to.
pub open spec fn state_after(events: Seq<StartupEventView>) -> StartupView
    decreases events.len(),
{
    if events.len() == 0 {
        StartupView::Resolving
    } else {
        next_state(state_after(events.drop_last()), events.last())
    }
}

/// The number of times that a sequence of events asked for the schema.
pub open spec fn schema_requests(events: Seq<StartupEventView>) -> nat
    decreases events.len(),
{
    if events.len() == 0 {
        0
    } else {
        let asked: nat = if next_action(state_after(events.drop_last()), events.last())
            is EnsureSchema {
            1
        } else {
            0
        };
        schema_requests(events.drop_last()) + asked
    }
}

/// The number of times that a sequence of events registered the store.
pub open spec fn registrations(events: Seq<StartupEventView>) -> nat
    decreases events.len(),
{
    if events.len() == 0 {
        0
    } else {
        let registered: nat = if next_action(state_after(events.drop_last()), events.last())
            is Register {
            1
        } else {
            0
        };
        registrations(events.drop_last()) + registered
    }
}

/// Whatever the caller reports, and in whatever order: the schema is asked
/// for at most once, and not before the configuration is resolved; the store
/// is registered at most once, and exactly when start-up has reached `Ready`,
/// which it does only after the schema was asked for.
pub proof fn lemma_startup_runs_once(events: Seq<StartupEventView>)
    ensures
        schema_requests(events) <= 1,
        registrations(events) <= schema_requests(events),
        state_after(events) is Resolving ==> schema_requests(events) == 0,
        state_after(events) is Bootstrapping ==> schema_requests(events) == 1 && registrations(
            events,
        ) == 0,
        state_after(events) is Ready <==> registrations(events) == 1,
    decreases events.len(),
{
    if events.len() > 0 {
        lemma_startup_runs_once(events.drop_last());
    }
}

/// Once start-up has failed or the application runs, no event changes the
/// state or calls for an action.
pub proof fn lemma_end_states_are_final(state: StartupView, event: StartupEventView)
    requires
        state is Ready || state is Failed,
    ensures
        next_state(state, event) == state,
        next_action(state, event) is Ignore,
{
}

} // verus!
