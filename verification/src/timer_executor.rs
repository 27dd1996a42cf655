//! The timer executor: the state machine that drives one solver from
//! polling to a single commit, or to its deadline.
//!
//! The executor decides; its caller acts. Each call of `execute` takes what
//! happened (the start, a tick, the result of a poll step or of a commit)
//! and gives back the status record to emit and what to do next.

use crate::contracts_abi::{AdditionalData, ProxyPushed};
use crate::primitives::{TimeSpan, NANOS_PER_SEC};
use crate::solver::{Deadline, ErrorView, Solver, SolverError, SolverParams, SolverResponse};
use crate::solvers::limit_order::{LimitOrderSolver, Release};
use crate::stats::{clone_params, params_view, StatsView, Status, TimerExecutorStats, TransactionStatus};
use vstd::prelude::*;

verus! {

/// Where an executor stands. The last three states are terminal.
#[derive(Clone, Copy, Debug, PartialEq, Eq, Hash, Structural)]
pub enum ExecutorState {
    /// Made, not started.
    Created,
    /// Polling the solver's condition on every tick.
    Polling,
    /// The condition is met; the commit is under way.
    Committing,
    Succeeded,
    Failed,
    Timeout,
}

/// What happened since the executor's last decision.
#[derive(Debug, PartialEq, Eq)]
pub enum ExecutorInput {
    /// The executor is started for an event.
    Start { sequence_number: u32, params: Vec<AdditionalData> },
    /// A tick has passed.
    Tick { elapsed: TimeSpan },
    /// The solver's poll step gave this result.
    Step { result: Result<SolverResponse, SolverError>, elapsed: TimeSpan },
    /// The solver's commit gave this result.
    Commit { result: Result<SolverResponse, SolverError>, elapsed: TimeSpan },
}

/// What the executor's caller does next.
#[derive(Clone, Copy, Debug, PartialEq, Eq, Hash, Structural)]
pub enum ExecutorAction {
    /// Call the solver's poll step and hand in its result.
    Poll,
    /// Call the solver's commit and hand in its result.
    Commit,
    /// Sleep one tick and hand in the tick.
    Sleep,
    /// End the task.
    Stop,
}

/// The status record to emit, if any, and what to do next.
#[derive(Clone, Debug, PartialEq, Eq)]
pub struct ExecutorOutput {
    pub stats: Option<TimerExecutorStats>,
    pub action: ExecutorAction,
}

/// What an executor is made with and never changes.
pub struct ExecutorConfig {
    pub id: u128,
    pub creation_time: TimeSpan,
    pub tick_duration: TimeSpan,
    pub app: Seq<char>,
    pub deadline: Result<Deadline, Seq<char>>,
    pub retries_commit: bool,
}

/// What an executor remembers between two decisions.
pub struct ExecutorModel {
    pub state: ExecutorState,
    pub sequence_number: u32,
    pub params: Seq<(Seq<char>, Seq<char>)>,
    pub last_message: Seq<char>,
    pub last_transaction_status: TransactionStatus,
}

/// One decision: the executor afterwards, the record to emit and the action.
pub struct Transition {
    pub next: ExecutorModel,
    pub stats: Option<StatsView>,
    pub action: ExecutorAction,
}

impl ExecutorState {
    /// Whether the task has ended.
    pub open spec fn is_terminal(self) -> bool {
        self == ExecutorState::Succeeded || self == ExecutorState::Failed || self
            == ExecutorState::Timeout
    }
}

impl ExecutorInput {
    /// The elapsed time, where the input carries one, is a proper span.
    pub open spec fn wf(self) -> bool {
        match self {
            ExecutorInput::Start { .. } => true,
            ExecutorInput::Tick { elapsed } => elapsed.wf(),
            ExecutorInput::Step { elapsed, .. } => elapsed.wf(),
            ExecutorInput::Commit { elapsed, .. } => elapsed.wf(),
        }
    }
}

/// The empty span.
pub open spec fn no_time() -> TimeSpan {
    TimeSpan { secs: 0, nanos: 0 }
}

/// Whether the deadline has passed after `elapsed`: a time limit has, once
/// the elapsed time is no longer below it; a trigger time never does, since
/// reaching it is what the solver's poll step waits for.
pub open spec fn deadline_elapsed(deadline: Deadline, elapsed: TimeSpan) -> bool {
    match deadline {
        Deadline::Within(limit) => elapsed.total_nanos() >= limit.total_nanos(),
        Deadline::At(_) => false,
    }
}

/// The time that a running executor has left: under a time limit, the
/// distance between the limit and the elapsed time; under a trigger time,
/// the seconds that the solver's response gave, if any.
pub open spec fn remaining_time(
    deadline: Result<Deadline, Seq<char>>,
    elapsed: TimeSpan,
    response_secs: i64,
) -> TimeSpan {
    match deadline {
        Ok(Deadline::Within(limit)) => limit.spec_abs_diff(elapsed),
        Ok(Deadline::At(_)) => if response_secs > 0 {
            TimeSpan { secs: response_secs as u64, nanos: 0 }
        } else {
            no_time()
        },
        Err(_) => no_time(),
    }
}

/// The status record of an executor at one transition. Only a running
/// executor has time left.
pub open spec fn record(
    config: ExecutorConfig,
    model: ExecutorModel,
    status: Status,
    transaction_status: TransactionStatus,
    message: Seq<char>,
    elapsed: TimeSpan,
    response_secs: i64,
) -> StatsView {
    StatsView {
        id: config.id,
        sequence_number: model.sequence_number,
        app: config.app,
        creation_time: config.creation_time,
        status,
        transaction_status,
        message,
        params: model.params,
        elapsed,
        remaining: if status == Status::Running {
            remaining_time(config.deadline, elapsed, response_secs)
        } else {
            no_time()
        },
    }
}

/// The decision on a tick, for an executor that polls: time out once the
/// deadline has passed, with the last message and commit status seen; else
/// poll.
pub open spec fn on_tick(config: ExecutorConfig, model: ExecutorModel, elapsed: TimeSpan) -> Transition {
    if config.deadline is Ok && deadline_elapsed(config.deadline->Ok_0, elapsed) {
        Transition {
            next: ExecutorModel { state: ExecutorState::Timeout, ..model },
            stats: Some(
                record(
                    config,
                    model,
                    Status::Timeout,
                    model.last_transaction_status,
                    model.last_message,
                    elapsed,
                    0,
                ),
            ),
            action: ExecutorAction::Stop,
        }
    } else {
        Transition { next: model, stats: None, action: ExecutorAction::Poll }
    }
}

/// The decision on the start: with no valid deadline the executor fails at
/// once and never polls; else it starts as on a tick with no time elapsed.
pub open spec fn on_start(
    config: ExecutorConfig,
    model: ExecutorModel,
    sequence_number: u32,
    params: Seq<(Seq<char>, Seq<char>)>,
) -> Transition {
    let started = ExecutorModel {
        state: ExecutorState::Polling,
        sequence_number,
        params,
        last_message: Seq::empty(),
        last_transaction_status: TransactionStatus::NotExecuted,
    };
    match config.deadline {
        Err(reason) => Transition {
            next: ExecutorModel { state: ExecutorState::Failed, ..started },
            stats: Some(
                record(
                    config,
                    started,
                    Status::Failed,
                    TransactionStatus::NotExecuted,
                    reason,
                    no_time(),
                    0,
                ),
            ),
            action: ExecutorAction::Stop,
        },
        Ok(_) => on_tick(config, started, no_time()),
    }
}

/// The decision on the result of a poll step. A met condition moves the
/// executor to committing. An unmet one, or a step that failed, keeps it
/// polling after a sleep: a failed step is recorded and tried again.
pub open spec fn on_step(
    config: ExecutorConfig,
    model: ExecutorModel,
    result: Result<SolverResponse, SolverError>,
    elapsed: TimeSpan,
) -> Transition {
    match result {
        Ok(response) => if response.succeeded {
            Transition {
                next: ExecutorModel {
                    state: ExecutorState::Committing,
                    last_message: response.message@,
                    ..model
                },
                stats: Some(
                    record(
                        config,
                        model,
                        Status::Running,
                        TransactionStatus::TransactionPending,
                        response.message@,
                        elapsed,
                        response.remaining_secs,
                    ),
                ),
                action: ExecutorAction::Commit,
            }
        } else {
            Transition {
                next: ExecutorModel {
                    last_message: response.message@,
                    last_transaction_status: TransactionStatus::StepPending,
                    ..model
                },
                stats: Some(
                    record(
                        config,
                        model,
                        Status::Running,
                        TransactionStatus::StepPending,
                        response.message@,
                        elapsed,
                        response.remaining_secs,
                    ),
                ),
                action: ExecutorAction::Sleep,
            }
        },
        Err(error) => Transition {
            next: ExecutorModel {
                last_transaction_status: TransactionStatus::StepFailed,
                ..model
            },
            stats: Some(
                record(
                    config,
                    model,
                    Status::Running,
                    TransactionStatus::StepFailed,
                    error.text(),
                    elapsed,
                    0,
                ),
            ),
            action: ExecutorAction::Sleep,
        },
    }
}

/// The decision on the result of a commit. A commit that succeeded ends the
/// executor as succeeded. One that did not, or that failed, ends it as
/// failed, unless the policy retries: then the executor goes back to
/// polling after a sleep.
pub open spec fn on_commit(
    config: ExecutorConfig,
    model: ExecutorModel,
    result: Result<SolverResponse, SolverError>,
    elapsed: TimeSpan,
) -> Transition {
    let message = match result {
        Ok(response) => response.message@,
        Err(error) => error.text(),
    };
    let kept_message = match result {
        Ok(response) => response.message@,
        Err(error) => model.last_message,
    };
    if result matches Ok(response) && response.succeeded {
        Transition {
            next: ExecutorModel {
                state: ExecutorState::Succeeded,
                last_message: message,
                last_transaction_status: TransactionStatus::Succeeded,
                ..model
            },
            stats: Some(
                record(
                    config,
                    model,
                    Status::Succeeded,
                    TransactionStatus::Succeeded,
                    message,
                    elapsed,
                    0,
                ),
            ),
            action: ExecutorAction::Stop,
        }
    } else if config.retries_commit {
        let pending = if result is Ok {
            TransactionStatus::TransactionPending
        } else {
            TransactionStatus::TransactionFailed
        };
        Transition {
            next: ExecutorModel {
                state: ExecutorState::Polling,
                last_message: kept_message,
                last_transaction_status: pending,
                ..model
            },
            stats: Some(record(config, model, Status::Running, pending, message, elapsed, 0)),
            action: ExecutorAction::Sleep,
        }
    } else {
        Transition {
            next: ExecutorModel {
                state: ExecutorState::Failed,
                last_message: kept_message,
                last_transaction_status: TransactionStatus::TransactionFailed,
                ..model
            },
            stats: Some(
                record(
                    config,
                    model,
                    Status::Failed,
                    TransactionStatus::TransactionFailed,
                    message,
                    elapsed,
                    0,
                ),
            ),
            action: ExecutorAction::Stop,
        }
    }
}

/// What an executor waits for in a state, when an input does not fit it.
pub open spec fn awaited(state: ExecutorState) -> ExecutorAction {
    match state {
        ExecutorState::Polling => ExecutorAction::Poll,
        ExecutorState::Committing => ExecutorAction::Commit,
        _ => ExecutorAction::Stop,
    }
}

/// The executor's decision on an input. An input that does not fit the
/// state changes nothing and emits nothing.
pub open spec fn transition(
    config: ExecutorConfig,
    model: ExecutorModel,
    input: ExecutorInput,
) -> Transition {
    match (model.state, input) {
        (ExecutorState::Created, ExecutorInput::Start { sequence_number, params }) => on_start(
            config,
            model,
            sequence_number,
            params_view(params@),
        ),
        (ExecutorState::Polling, ExecutorInput::Tick { elapsed }) => on_tick(
            config,
            model,
            elapsed,
        ),
        (ExecutorState::Polling, ExecutorInput::Step { result, elapsed }) => on_step(
            config,
            model,
            result,
            elapsed,
        ),
        (ExecutorState::Committing, ExecutorInput::Commit { result, elapsed }) => on_commit(
            config,
            model,
            result,
            elapsed,
        ),
        _ => Transition { next: model, stats: None, action: awaited(model.state) },
    }
}

/// A terminal state ends the task: whatever comes in afterwards changes
/// nothing, emits nothing and asks for nothing.
pub proof fn lemma_terminal_states_stay(
    config: ExecutorConfig,
    model: ExecutorModel,
    input: ExecutorInput,
)
    requires
        model.state.is_terminal(),
    ensures
        transition(config, model, input).next == model,
        transition(config, model, input).stats.is_none(),
        transition(config, model, input).action == ExecutorAction::Stop,
{
}

/// The commit is asked for on one occasion only: while polling, on a poll
/// step whose condition is met.
pub proof fn lemma_commit_follows_a_met_condition(
    config: ExecutorConfig,
    model: ExecutorModel,
    input: ExecutorInput,
)
    requires
        transition(config, model, input).action == ExecutorAction::Commit,
        model.state != ExecutorState::Committing,
    ensures
        model.state == ExecutorState::Polling,
        input matches ExecutorInput::Step { result: Ok(response), .. } && response.succeeded,
        transition(config, model, input).next.state == ExecutorState::Committing,
{
}

/// Every result of a commit leaves the committing state at once; under a
/// policy that does not retry, it ends the task, so that the commit is made
/// exactly once.
pub proof fn lemma_commit_is_made_once(
    config: ExecutorConfig,
    model: ExecutorModel,
    input: ExecutorInput,
)
    requires
        model.state == ExecutorState::Committing,
        input is Commit,
    ensures
        transition(config, model, input).next.state != ExecutorState::Committing,
        transition(config, model, input).action != ExecutorAction::Commit,
        !config.retries_commit ==> transition(config, model, input).next.state.is_terminal(),
{
}

/// An executor that polls goes on polling until its condition is met or
/// its deadline has passed: a poll step that failed does not end it.
pub proof fn lemma_step_errors_are_transient(
    config: ExecutorConfig,
    model: ExecutorModel,
    error: SolverError,
    elapsed: TimeSpan,
)
    requires
        model.state == ExecutorState::Polling,
    ensures
        ({
            let t = transition(
                config,
                model,
                ExecutorInput::Step { result: Err(error), elapsed },
            );
            &&& t.next.state == ExecutorState::Polling
            &&& t.action == ExecutorAction::Sleep
            &&& t.stats matches Some(stats) && stats.status == Status::Running
                && stats.transaction_status == TransactionStatus::StepFailed
        }),
{
}

/// The executor of one solver.
#[derive(Debug)]
pub struct TimerRequestExecutor<S> {
    /// The solver that the executor drives.
    pub solver: S,
    /// The executor's identity, for monitoring.
    pub id: u128,
    /// When the executor was made, since the Unix epoch.
    pub creation_time: TimeSpan,
    /// The time between two polls.
    pub tick_duration: TimeSpan,
    /// The solver's application name.
    pub app: String,
    /// The solver's deadline, or why it has none.
    pub deadline: Result<Deadline, String>,
    /// Whether a commit that failed is tried again.
    pub retries_commit: bool,
    pub state: ExecutorState,
    /// The sequence number of the event that started the executor.
    pub sequence_number: u32,
    /// The parameters of that event.
    pub params: Vec<AdditionalData>,
    /// The message of the last response seen.
    pub last_message: String,
    /// The commit status of the last record emitted while running.
    pub last_transaction_status: TransactionStatus,
}

impl<S: Solver> TimerRequestExecutor<S> {
    /// The times are proper spans.
    pub open spec fn wf(&self) -> bool {
        &&& self.creation_time.wf()
        &&& self.tick_duration.wf()
        &&& self.deadline matches Ok(Deadline::Within(limit)) ==> limit.wf()
    }

    /// What the executor was made with.
    pub open spec fn config(&self) -> ExecutorConfig {
        ExecutorConfig {
            id: self.id,
            creation_time: self.creation_time,
            tick_duration: self.tick_duration,
            app: self.app@,
            deadline: match self.deadline {
                Ok(deadline) => Ok(deadline),
                Err(reason) => Err(reason@),
            },
            retries_commit: self.retries_commit,
        }
    }

    /// What the executor remembers.
    pub open spec fn model(&self) -> ExecutorModel {
        ExecutorModel {
            state: self.state,
            sequence_number: self.sequence_number,
            params: params_view(self.params@),
            last_message: self.last_message@,
            last_transaction_status: self.last_transaction_status,
        }
    }

    /// Makes the executor of a solver. It takes the solver's name, deadline
    /// and retry policy, and waits to be started.
    pub fn new(solver: S, tick_duration: TimeSpan, creation_time: TimeSpan, id: u128) -> (r:
        TimerRequestExecutor<S>)
        requires
            solver.inv(),
            tick_duration.wf(),
            creation_time.wf(),
        ensures
            r.wf(),
            r.solver == solver,
            r.id == id,
            r.creation_time == creation_time,
            r.tick_duration == tick_duration,
            r.app@ == solver.spec_app(),
            r.config().deadline == (match solver.spec_deadline() {
                Ok(deadline) => Ok::<Deadline, Seq<char>>(deadline),
                Err(error) => Err::<Deadline, Seq<char>>(error.text()),
            }),
            r.retries_commit == solver.spec_retries_commit(),
            r.state == ExecutorState::Created,
            r.params@.len() == 0,
            r.last_message@.len() == 0,
            r.last_transaction_status == TransactionStatus::NotExecuted,
    {
        let app = solver.app();
        let deadline = match solver.deadline() {
            Ok(deadline) => Ok(deadline),
            Err(error) => Err(error.to_string()),
        };
        let retries_commit = solver.retries_commit();
        TimerRequestExecutor {
            solver,
            id,
            creation_time,
            tick_duration,
            app,
            deadline,
            retries_commit,
            state: ExecutorState::Created,
            sequence_number: 0,
            params: Vec::new(),
            last_message: String::new(),
            last_transaction_status: TransactionStatus::NotExecuted,
        }
    }

    /// The time that a running executor has left.
    fn remaining(&self, elapsed: TimeSpan, response_secs: i64) -> (r: TimeSpan)
        requires
            self.wf(),
            elapsed.wf(),
        ensures
            r == remaining_time(self.config().deadline, elapsed, response_secs),
    {
        match &self.deadline {
            Ok(Deadline::Within(limit)) => limit.abs_diff(elapsed),
            Ok(Deadline::At(_)) => if response_secs > 0 {
                TimeSpan { secs: response_secs as u64, nanos: 0 }
            } else {
                TimeSpan { secs: 0, nanos: 0 }
            },
            Err(_) => TimeSpan { secs: 0, nanos: 0 },
        }
    }

    /// Makes the status record of a transition.
    fn send_stats(
        &self,
        status: Status,
        transaction_status: TransactionStatus,
        message: String,
        elapsed: TimeSpan,
        response_secs: i64,
    ) -> (r: TimerExecutorStats)
        requires
            self.wf(),
            elapsed.wf(),
        ensures
            r@ == record(
                self.config(),
                self.model(),
                status,
                transaction_status,
                message@,
                elapsed,
                response_secs,
            ),
    {
        let remaining = match status {
            Status::Running => self.remaining(elapsed, response_secs),
            _ => TimeSpan { secs: 0, nanos: 0 },
        };
        TimerExecutorStats {
            id: self.id,
            sequence_number: self.sequence_number,
            app: self.app.clone(),
            creation_time: self.creation_time,
            status,
            transaction_status,
            message,
            params: clone_params(&self.params),
            elapsed,
            remaining,
        }
    }

    /// Whether the deadline has passed after `elapsed`.
    fn timed_out(&self, elapsed: TimeSpan) -> (r: bool)
        requires
            self.wf(),
            elapsed.wf(),
        ensures
            r == (self.config().deadline is Ok && deadline_elapsed(
                self.config().deadline->Ok_0,
                elapsed,
            )),
    {
        match &self.deadline {
            Ok(Deadline::Within(limit)) => !elapsed.lt(*limit),
            _ => false,
        }
    }

    /// Decides on a tick while polling.
    fn tick(&mut self, elapsed: TimeSpan) -> (r: ExecutorOutput)
        requires
            old(self).wf(),
            elapsed.wf(),
        ensures
            final(self).wf(),
            final(self).config() == old(self).config(),
            final(self).solver == old(self).solver,
            final(self).model() == on_tick(old(self).config(), old(self).model(), elapsed).next,
            r.action == on_tick(old(self).config(), old(self).model(), elapsed).action,
            stats_match(r.stats, on_tick(old(self).config(), old(self).model(), elapsed).stats),
    {
        if self.timed_out(elapsed) {
            let stats = self.send_stats(
                Status::Timeout,
                self.last_transaction_status,
                self.last_message.clone(),
                elapsed,
                0,
            );
            self.state = ExecutorState::Timeout;
            ExecutorOutput { stats: Some(stats), action: ExecutorAction::Stop }
        } else {
            ExecutorOutput { stats: None, action: ExecutorAction::Poll }
        }
    }

    /// Takes what happened and decides: moves the executor to its next
    /// state, and gives back the status record to emit and what to do next.
    pub fn execute(&mut self, input: ExecutorInput) -> (r: ExecutorOutput)
        requires
            old(self).wf(),
            input.wf(),
        ensures
            final(self).wf(),
            final(self).config() == old(self).config(),
            final(self).solver == old(self).solver,
            final(self).model() == transition(old(self).config(), old(self).model(), input).next,
            r.action == transition(old(self).config(), old(self).model(), input).action,
            stats_match(r.stats, transition(old(self).config(), old(self).model(), input).stats),
    {
        match (self.state, input) {
            (ExecutorState::Created, ExecutorInput::Start { sequence_number, params }) => {
                self.sequence_number = sequence_number;
                self.params = params;
                self.last_message = String::new();
                self.last_transaction_status = TransactionStatus::NotExecuted;
                self.state = ExecutorState::Polling;
                let failure = match &self.deadline {
                    Ok(_) => None,
                    Err(reason) => Some(reason.clone()),
                };
                match failure {
                    Some(reason) => {
                        let stats = self.send_stats(
                            Status::Failed,
                            TransactionStatus::NotExecuted,
                            reason,
                            TimeSpan { secs: 0, nanos: 0 },
                            0,
                        );
                        self.state = ExecutorState::Failed;
                        ExecutorOutput { stats: Some(stats), action: ExecutorAction::Stop }
                    },
                    None => self.tick(TimeSpan { secs: 0, nanos: 0 }),
                }
            },
            (ExecutorState::Polling, ExecutorInput::Tick { elapsed }) => self.tick(elapsed),
            (ExecutorState::Polling, ExecutorInput::Step { result, elapsed }) => match result {
                Ok(response) => {
                    let committing = response.succeeded;
                    let status = if committing {
                        TransactionStatus::TransactionPending
                    } else {
                        TransactionStatus::StepPending
                    };
                    let stats = self.send_stats(
                        Status::Running,
                        status,
                        response.message.clone(),
                        elapsed,
                        response.remaining_secs,
                    );
                    self.last_message = response.message;
                    if committing {
                        self.state = ExecutorState::Committing;
                        ExecutorOutput { stats: Some(stats), action: ExecutorAction::Commit }
                    } else {
                        self.last_transaction_status = TransactionStatus::StepPending;
                        ExecutorOutput { stats: Some(stats), action: ExecutorAction::Sleep }
                    }
                },
                Err(error) => {
                    let stats = self.send_stats(
                        Status::Running,
                        TransactionStatus::StepFailed,
                        error.to_string(),
                        elapsed,
                        0,
                    );
                    self.last_transaction_status = TransactionStatus::StepFailed;
                    ExecutorOutput { stats: Some(stats), action: ExecutorAction::Sleep }
                },
            },
            (ExecutorState::Committing, ExecutorInput::Commit { result, elapsed }) => {
                let succeeded = match &result {
                    Ok(response) => response.succeeded,
                    Err(_) => false,
                };
                let received = result.is_ok();
                let message = match &result {
                    Ok(response) => response.message.clone(),
                    Err(error) => error.to_string(),
                };
                if succeeded {
                    let stats = self.send_stats(
                        Status::Succeeded,
                        TransactionStatus::Succeeded,
                        message.clone(),
                        elapsed,
                        0,
                    );
                    self.state = ExecutorState::Succeeded;
                    self.last_message = message;
                    self.last_transaction_status = TransactionStatus::Succeeded;
                    ExecutorOutput { stats: Some(stats), action: ExecutorAction::Stop }
                } else if self.retries_commit {
                    let pending = if received {
                        TransactionStatus::TransactionPending
                    } else {
                        TransactionStatus::TransactionFailed
                    };
                    let stats = self.send_stats(
                        Status::Running,
                        pending,
                        message.clone(),
                        elapsed,
                        0,
                    );
                    self.state = ExecutorState::Polling;
                    if received {
                        self.last_message = message;
                    }
                    self.last_transaction_status = pending;
                    ExecutorOutput { stats: Some(stats), action: ExecutorAction::Sleep }
                } else {
                    let stats = self.send_stats(
                        Status::Failed,
                        TransactionStatus::TransactionFailed,
                        message.clone(),
                        elapsed,
                        0,
                    );
                    self.state = ExecutorState::Failed;
                    if received {
                        self.last_message = message;
                    }
                    self.last_transaction_status = TransactionStatus::TransactionFailed;
                    ExecutorOutput { stats: Some(stats), action: ExecutorAction::Stop }
                }
            },
            (state, _) => {
                let action = match state {
                    ExecutorState::Polling => ExecutorAction::Poll,
                    ExecutorState::Committing => ExecutorAction::Commit,
                    _ => ExecutorAction::Stop,
                };
                ExecutorOutput { stats: None, action }
            },
        }
    }
}

/// An executor that was made for an event, with what it is started with.
#[derive(Debug)]
pub struct Spawn<S> {
    pub executor: TimerRequestExecutor<S>,
    /// The sequence number of the event.
    pub sequence_number: u32,
    /// The parameters of the event, for audit.
    pub params: Vec<AdditionalData>,
}

/// The frame that makes the executors of one application.
#[derive(Clone, Debug, PartialEq, Eq)]
pub struct TimerExecutorFrame {
    /// The static parameters of the application.
    pub solver_params: SolverParams,
    /// The time between two polls of an executor.
    pub tick_duration: TimeSpan,
}

/// Why the frame makes no executor for an event, or `None` where it makes
/// one: the solver cannot be made, or the sequence number is beyond 32 bits.
pub open spec fn start_error(event: ProxyPushed, params: SolverParams) -> Option<ErrorView> {
    match LimitOrderSolver::named_construction_error(event.selector@, event.data_values@, params) {
        Some(error) => Some(error),
        None => if event.sequence_number.value() > u32::MAX {
            Some(ErrorView::ParamError("sequence number out of range"@))
        } else {
            None
        },
    }
}

/// The record of an executor that failed before it could start. It names
/// the event's sequence number where 32 bits hold it.
pub open spec fn start_failure(
    id: u128,
    creation_time: TimeSpan,
    event: ProxyPushed,
    message: Seq<char>,
) -> StatsView {
    StatsView {
        id,
        sequence_number: if event.sequence_number.value() <= u32::MAX {
            event.sequence_number.value() as u32
        } else {
            0
        },
        app: Seq::empty(),
        creation_time,
        status: Status::Failed,
        transaction_status: TransactionStatus::NotExecuted,
        message,
        params: params_view(event.data_values@),
        elapsed: no_time(),
        remaining: no_time(),
    }
}

impl TimerExecutorFrame {
    /// Makes a frame whose executors tick every `tick_secs` seconds and
    /// `tick_nanos` nanoseconds.
    pub fn new(solver_params: SolverParams, tick_secs: u64, tick_nanos: u32) -> (r:
        TimerExecutorFrame)
        requires
            tick_secs + tick_nanos / NANOS_PER_SEC <= u64::MAX,
        ensures
            r.solver_params == solver_params,
            r.tick_duration.wf(),
            r.tick_duration.total_nanos() == tick_secs as nat * NANOS_PER_SEC as nat
                + tick_nanos as nat,
    {
        TimerExecutorFrame { solver_params, tick_duration: TimeSpan::new(tick_secs, tick_nanos) }
    }

    /// Makes the record of an event whose executor could not start.
    fn failure(event: &ProxyPushed, creation_time: TimeSpan, id: u128, message: String) -> (r:
        TimerExecutorStats)
        ensures
            r@ == start_failure(id, creation_time, *event, message@),
    {
        let sequence_number = match event.sequence_number.to_u32() {
            Some(n) => n,
            None => 0,
        };
        TimerExecutorStats {
            id,
            sequence_number,
            app: String::new(),
            creation_time,
            status: Status::Failed,
            transaction_status: TransactionStatus::NotExecuted,
            message,
            params: clone_params(&event.data_values),
            elapsed: TimeSpan { secs: 0, nanos: 0 },
            remaining: TimeSpan { secs: 0, nanos: 0 },
        }
    }

    /// Makes the executor of an event, ready to be started. Where the
    /// solver of the event cannot be made, no executor is: the record of
    /// the failure is given back instead, with the reason as its message.
    pub fn start_executor(&self, event: &ProxyPushed, creation_time: TimeSpan, id: u128) -> (r:
        Result<Spawn<LimitOrderSolver>, TimerExecutorStats>)
        requires
            self.tick_duration.wf(),
            creation_time.wf(),
        ensures
            match start_error(*event, self.solver_params) {
                Some(expected) => (r matches Err(stats) && stats@ == start_failure(
                    id,
                    creation_time,
                    *event,
                    expected.text(),
                )),
                None => (r matches Ok(spawn) && {
                    &&& spawn.sequence_number == event.sequence_number.value()
                    &&& params_view(spawn.params@) == params_view(event.data_values@)
                    &&& spawn.executor.wf()
                    &&& spawn.executor.id == id
                    &&& spawn.executor.creation_time == creation_time
                    &&& spawn.executor.tick_duration == self.tick_duration
                    &&& spawn.executor.state == ExecutorState::Created
                    &&& spawn.executor.app@ == spawn.executor.solver.spec_app()
                    &&& spawn.executor.config().deadline == Ok::<Deadline, Seq<char>>(
                        Deadline::Within(spawn.executor.solver.time_limit),
                    )
                    &&& spawn.executor.solver.built_from_named(
                        event.data_values@,
                        self.solver_params,
                        Some(
                            Release {
                                proxy_address: event.proxy_address,
                                sequence_number: event.sequence_number,
                            },
                        ),
                    )
                    &&& spawn.executor.retries_commit
                }),
            },
    {
        let solver = match LimitOrderSolver::from_proxy_pushed(event, &self.solver_params) {
            Ok(solver) => solver,
            Err(error) => {
                return Err(Self::failure(event, creation_time, id, error.to_string()));
            },
        };
        let sequence_number = match event.sequence_number.to_u32() {
            Some(n) => n,
            None => {
                let error = SolverError::ParamError("sequence number out of range".to_owned());
                return Err(Self::failure(event, creation_time, id, error.to_string()));
            },
        };
        let executor = TimerRequestExecutor::new(solver, self.tick_duration, creation_time, id);
        Ok(Spawn { executor, sequence_number, params: clone_params(&event.data_values) })
    }
}

/// Whether an emitted record is the one that a decision asks for.
pub open spec fn stats_match(emitted: Option<TimerExecutorStats>, asked: Option<StatsView>) -> bool {
    match emitted {
        Some(stats) => asked == Some(stats@),
        None => asked.is_none(),
    }
}

} // verus!
