//! The scheduled-batch policy: the pending reports of a schedule are paid
//! out in one batch, at the next time of a cron schedule or as soon as the
//! batch is full.

use crate::clock::{cron_first_after, cron_next_after, format_utc, utc_text, MAX_CLOCK_SECS};
use crate::contracts_abi::{
    disbursal_views,
    CallPayload,
    CallPushed,
    CommitPlan,
    PlannedCall,
    ReturnValue,
    TxOutcome,
};
use crate::guard::{holder_after, GuardOp, TransactionGuard};
use crate::primitives::{pow2_256, Address, Amount};
use crate::reports_aggr::{
    amount_under,
    disbursals_of,
    only,
    restored,
    with_batch,
    without,
    LedgerKey,
    ReportsLedger,
};
use crate::solver::{
    guard_not_held,
    commit_message,
    commit_response,
    commit_succeeded,
    Deadline,
    ErrorView,
    Solver,
    SolverError,
    SolverParams,
    SolverResponse,
};
use crate::text::{decimal_text, join_text, u64_to_decimal};
use vstd::prelude::*;

verus! {

/// The application name of the policy.
pub const APP_SELECTOR: &'static str = "CLEANAPP.SCHEDULER";

/// The number of accounts at which a batch is paid out before its time,
/// where the application configures no other.
pub const MAX_BATCH_SIZE: usize = 10;

/// The gas limit of the commit's transaction, and of the release in it.
pub const COMMIT_GAS_LIMIT: u64 = 10_000_000;

/// The gas limit of the disbursement in a commit.
pub const DISBURSEMENT_GAS_LIMIT: u64 = 1_000_000;

/// Whether a poll step triggers the commit: the trigger time has passed and
/// something is pending, or the batch is full.
pub open spec fn poll_triggered(trigger: int, now: int, pending: nat, max_batch_size: nat) -> bool {
    (trigger <= now && pending > 0) || pending >= max_batch_size
}

/// The way a clock reading is written in the messages of a poll step: as
/// a date and time as far as the calendar reaches, as its number of
/// seconds from there on.
pub open spec fn clock_text(now: int) -> Seq<char> {
    if 0 <= now <= MAX_CLOCK_SECS {
        utc_text(now)
    } else {
        decimal_text(now as nat) + " seconds since the epoch"@
    }
}

/// The message of a poll step.
pub open spec fn poll_message(trigger: int, now: int, pending: nat, max_batch_size: nat) -> Seq<
    char,
> {
    if trigger <= now {
        if pending > 0 {
            "Triggered at "@ + clock_text(now)
        } else {
            "Not triggered, the pool is empty"@
        }
    } else {
        if pending >= max_batch_size {
            "Triggered at "@ + clock_text(now) + " as the batch is complete"@
        } else {
            "Not triggered yet, the schedule time wasn't reached yet"@
        }
    }
}

/// The seconds left until the trigger time, while a poll step waits for it.
pub open spec fn poll_remaining(trigger: int, now: int, pending: nat, max_batch_size: nat) -> int {
    if trigger > now && pending < max_batch_size {
        trigger - now
    } else {
        0
    }
}

/// A batch payout bound to the event that scheduled it.
#[derive(Debug, PartialEq, Eq)]
pub struct CleanAppSchedulerSolver {
    /// The sequence number of the deferred call to release.
    pub sequence_number: Amount,
    /// The sequence number that the release is expected to return.
    pub next_sequence_number: Amount,
    /// The laminated proxy that holds the deferred call.
    pub proxy_address: Address,
    /// The contract that verifies and executes the disbursement.
    pub kitn_disbursement_scheduler_address: Address,
    pub call_breaker_address: Address,
    /// The cron expression of the schedule.
    pub schedule_string: String,
    /// The next time of the schedule, in seconds since the Unix epoch, or
    /// why there is none.
    pub trigger_time: Result<i64, SolverError>,
    /// The schedule whose reports the solver pays out.
    pub schedule_key: Option<u64>,
    /// The number of accounts at which the batch is full.
    pub max_batch_size: usize,
}

impl CleanAppSchedulerSolver {
    /// The batch size is positive and the next sequence number follows the
    /// event's.
    pub open spec fn wf(&self) -> bool {
        &&& self.max_batch_size > 0
        &&& self.next_sequence_number.value() == self.sequence_number.value() + 1
    }

    /// Why no solver can be made, or `None` where one can: the clock
    /// reading is beyond the calendar, the expression is no schedule, the
    /// batch size is zero, or the sequence number is the last one.
    pub open spec fn construction_error(
        event: CallPushed,
        cron: Seq<char>,
        now_secs: u64,
        max_batch_size: usize,
    ) -> Option<ErrorView> {
        if now_secs > MAX_CLOCK_SECS {
            Some(ErrorView::ExecError("Solver execution error: clock out of range"@))
        } else if cron_next_after(cron, now_secs as int).is_none() {
            Some(ErrorView::ParamError("Missing schedule, the solver won't run"@))
        } else if max_batch_size == 0 {
            Some(ErrorView::ParamError("The maximum batch size is zero"@))
        } else if event.sequence_number.value() + 1 >= pow2_256() {
            Some(ErrorView::ParamError("The sequence number has no successor"@))
        } else {
            None
        }
    }

    /// Whether this is the solver of an event and a cron expression at the
    /// clock reading `now_secs`: its trigger time is the first time of the
    /// schedule after the reading, and each other field is what was given.
    pub open spec fn built_from(
        &self,
        event: CallPushed,
        params: SolverParams,
        proxy_address: Address,
        kitn_disbursement_scheduler_address: Address,
        cron: Seq<char>,
        now_secs: u64,
        schedule_key: Option<u64>,
        max_batch_size: usize,
    ) -> bool {
        &&& self.wf()
        &&& self.sequence_number == event.sequence_number
        &&& self.proxy_address == proxy_address
        &&& self.kitn_disbursement_scheduler_address == kitn_disbursement_scheduler_address
        &&& self.call_breaker_address == params.call_breaker_address
        &&& self.schedule_string@ == cron
        &&& self.schedule_key == schedule_key
        &&& self.max_batch_size == max_batch_size
        &&& match cron_next_after(cron, now_secs as int) {
            Some(Some(t)) => self.trigger_time == Ok::<i64, SolverError>(t as i64) && t
                == t as i64 && t > now_secs,
            Some(None) => (self.trigger_time matches Err(error) && error@
                == ErrorView::ParamError("Missing CRON parameter"@)),
            None => false,
        }
    }

    /// Makes the solver for an event and a cron expression, at the clock
    /// reading `now_secs`. The trigger time is the first time of the
    /// schedule after that reading. An expression that is no schedule, a
    /// batch size of zero or a sequence number without a successor is a
    /// parameter error, and a clock reading beyond the calendar an execution
    /// error; a schedule with no time left gives a solver without
    /// a trigger time, which no executor will run.
    pub fn new(
        event: &CallPushed,
        params: &SolverParams,
        proxy_address: Address,
        kitn_disbursement_scheduler_address: Address,
        cron: String,
        now_secs: u64,
        schedule_key: Option<u64>,
        max_batch_size: usize,
    ) -> (r: Result<CleanAppSchedulerSolver, SolverError>)
        ensures
            match Self::construction_error(*event, cron@, now_secs, max_batch_size) {
                Some(expected) => (r matches Err(error) && error@ == expected),
                None => (r matches Ok(solver) && solver.built_from(
                    *event,
                    *params,
                    proxy_address,
                    kitn_disbursement_scheduler_address,
                    cron@,
                    now_secs,
                    schedule_key,
                    max_batch_size,
                )),
            },
    {
        if now_secs > MAX_CLOCK_SECS {
            return Err(
                SolverError::ExecError("Solver execution error: clock out of range".to_owned()),
            );
        }
        let found = match cron_first_after(cron.as_str(), now_secs as i64) {
            Some(found) => found,
            None => {
                return Err(
                    SolverError::ParamError("Missing schedule, the solver won't run".to_owned()),
                );
            },
        };
        if max_batch_size == 0 {
            return Err(SolverError::ParamError("The maximum batch size is zero".to_owned()));
        }
        let next_sequence_number = match event.sequence_number.checked_add(Amount::from_u64(1)) {
            Some(next) => next,
            None => {
                return Err(
                    SolverError::ParamError("The sequence number has no successor".to_owned()),
                );
            },
        };
        let trigger_time = match found {
            Some(t) => Ok(t),
            None => Err(SolverError::ParamError("Missing CRON parameter".to_owned())),
        };
        Ok(
            CleanAppSchedulerSolver {
                sequence_number: event.sequence_number,
                next_sequence_number,
                proxy_address,
                kitn_disbursement_scheduler_address,
                call_breaker_address: params.call_breaker_address,
                schedule_string: cron,
                trigger_time,
                schedule_key,
                max_batch_size,
            },
        )
    }

    /// The application name of the policy.
    pub fn app(&self) -> (r: String)
        ensures
            r@ == APP_SELECTOR@,
    {
        APP_SELECTOR.to_owned()
    }

    /// The trigger time, or why there is none.
    pub fn schedule_time(&self) -> (r: Result<i64, SolverError>)
        ensures
            match self.trigger_time {
                Ok(t) => r == Ok::<i64, SolverError>(t),
                Err(error) => (r matches Err(copy) && copy@ == error@),
            },
    {
        match &self.trigger_time {
            Ok(t) => Ok(*t),
            Err(error) => Err(error.duplicate()),
        }
    }

    /// Evaluates the schedule once, on a clock reading and the ledger. The
    /// step triggers the commit when the trigger time has passed and the
    /// schedule has pending reports, or when the batch is full; an empty
    /// ledger never triggers. This holds of every clock reading. A solver
    /// without a trigger time, or a clock that could not be read, gives an
    /// error.
    pub fn exec_solver_step(&self, now: &Result<u64, String>, reports: &ReportsLedger) -> (r: Result<
        SolverResponse,
        SolverError,
    >)
        requires
            self.wf(),
        ensures
            self.trigger_time matches Err(missing) ==> (r matches Err(error) && error@
                == missing@),
            self.trigger_time is Ok ==> (match *now {
                Err(reason) => (r matches Err(error) && error@ == ErrorView::ExecError(
                    "Solver execution error: "@ + reason@,
                )),
                Ok(secs) => {
                    let trigger = self.trigger_time->Ok_0 as int;
                    let pending = reports.pending(self.schedule_key);
                    let max = self.max_batch_size as nat;
                    r matches Ok(response) && response.succeeded == poll_triggered(
                        trigger,
                        secs as int,
                        pending,
                        max,
                    ) && response.message@ == poll_message(trigger, secs as int, pending, max)
                        && response.remaining_secs == poll_remaining(
                        trigger,
                        secs as int,
                        pending,
                        max,
                    )
                },
            }),
    {
        let trigger = match &self.trigger_time {
            Ok(t) => *t,
            Err(error) => {
                return Err(error.duplicate());
            },
        };
        let secs = match now {
            Ok(secs) => *secs,
            Err(reason) => {
                return Err(
                    SolverError::ExecError(join_text("Solver execution error: ", reason.as_str())),
                );
            },
        };
        let pending = reports.count_for(self.schedule_key);
        let reached = trigger < 0 || trigger as u64 <= secs;
        if reached {
            if pending > 0 {
                let at = write_clock(secs);
                Ok(
                    SolverResponse {
                        succeeded: true,
                        message: join_text("Triggered at ", at.as_str()),
                        remaining_secs: 0,
                    },
                )
            } else {
                Ok(
                    SolverResponse {
                        succeeded: false,
                        message: "Not triggered, the pool is empty".to_owned(),
                        remaining_secs: 0,
                    },
                )
            }
        } else {
            if pending >= self.max_batch_size {
                let at = write_clock(secs);
                let head = join_text("Triggered at ", at.as_str());
                Ok(
                    SolverResponse {
                        succeeded: true,
                        message: join_text(head.as_str(), " as the batch is complete"),
                        remaining_secs: 0,
                    },
                )
            } else {
                Ok(
                    SolverResponse {
                        succeeded: false,
                        message: "Not triggered yet, the schedule time wasn't reached yet".to_owned(),
                        remaining_secs: trigger - secs as i64,
                    },
                )
            }
        }
    }

    /// The two calls of the commit: release the deferred call, then verify
    /// and execute the disbursement.
    pub open spec fn spec_calls(&self) -> Seq<PlannedCall> {
        seq![
            PlannedCall {
                amount: Amount { w0: 0, w1: 0, w2: 0, w3: 0 },
                addr: self.proxy_address,
                gas: COMMIT_GAS_LIMIT,
                payload: CallPayload::Pull { seq_number: self.sequence_number },
                salt: 0,
                skippable: false,
                verifiable: false,
                expose_return: false,
            },
            PlannedCall {
                amount: Amount { w0: 0, w1: 0, w2: 0, w3: 0 },
                addr: self.kitn_disbursement_scheduler_address,
                gas: DISBURSEMENT_GAS_LIMIT,
                payload: CallPayload::VerifySignature,
                salt: 0,
                skippable: false,
                verifiable: false,
                expose_return: false,
            },
        ]
    }

    /// Whether `plan` is the commit of this solver on a ledger: the two
    /// calls, what they are expected to return, and the payments of what
    /// is in flight for the schedule.
    pub open spec fn is_commit_plan(&self, reports: ReportsLedger, plan: CommitPlan) -> bool {
        &&& plan.calls@ == self.spec_calls()
        &&& plan.return_values@ == seq![
            ReturnValue::AfterPull { next_sequence_number: self.next_sequence_number },
            ReturnValue::Empty,
        ]
        &&& plan.order_of_execution@ == Seq::<u64>::empty()
        &&& plan.gas_limit == COMMIT_GAS_LIMIT
        &&& plan.flash_loan.is_none()
        &&& disbursal_views(plan.disbursals@) == disbursals_of(
            reports.flight_views(),
            self.schedule_key,
        )
    }

    /// Begins the commit of an executor: takes the transaction guard for
    /// it, takes the full current contents of the schedule's ledger out as
    /// the batch of the commit, and assembles the commit from the batch.
    /// What is reported from now on is pending anew and no part of this
    /// commit. While another commit holds the guard, none begins, and
    /// nothing changes.
    pub fn begin_commit(
        &self,
        reports: &mut ReportsLedger,
        guard: &mut TransactionGuard,
        executor: u128,
    ) -> (r: Option<CommitPlan>)
        requires
            old(reports).wf(),
        ensures
            final(reports).wf(),
            final(guard).holder == holder_after(old(guard).holder, GuardOp::Acquire(executor)),
            r.is_some() == old(guard).holder.is_none(),
            r.is_none() ==> *final(reports) == *old(reports),
            r matches Some(plan) ==> {
                &&& self.is_commit_plan(*final(reports), plan)
                &&& final(reports).pending_views() == without(
                    old(reports).pending_views(),
                    self.schedule_key,
                )
                &&& final(reports).flight_views() == old(reports).flight_views() + only(
                    old(reports).pending_views(),
                    self.schedule_key,
                )
                &&& final(reports).pending(self.schedule_key) == 0
                &&& forall|key: LedgerKey|
                    key.0 != self.schedule_key ==> (#[trigger] final(reports)@.contains_key(key)
                        == old(reports)@.contains_key(key) && amount_under(final(reports)@, key)
                        == amount_under(old(reports)@, key))
            },
    {
        if guard.try_acquire(executor) {
            reports.take_batch(self.schedule_key);
            Some(self.commit_plan(reports))
        } else {
            None
        }
    }

    /// Assembles the commit from what is in flight for the schedule: the
    /// two calls, what they are expected to return, and the payments of the
    /// disbursement.
    pub fn commit_plan(&self, reports: &ReportsLedger) -> (r: CommitPlan)
        ensures
            self.is_commit_plan(*reports, r),
    {
        let mut calls: Vec<PlannedCall> = Vec::new();
        calls.push(
            PlannedCall {
                amount: Amount::zero_words(),
                addr: self.proxy_address,
                gas: COMMIT_GAS_LIMIT,
                payload: CallPayload::Pull { seq_number: self.sequence_number },
                salt: 0,
                skippable: false,
                verifiable: false,
                expose_return: false,
            },
        );
        calls.push(
            PlannedCall {
                amount: Amount::zero_words(),
                addr: self.kitn_disbursement_scheduler_address,
                gas: DISBURSEMENT_GAS_LIMIT,
                payload: CallPayload::VerifySignature,
                salt: 0,
                skippable: false,
                verifiable: false,
                expose_return: false,
            },
        );
        let mut return_values: Vec<ReturnValue> = Vec::new();
        return_values.push(
            ReturnValue::AfterPull { next_sequence_number: self.next_sequence_number },
        );
        return_values.push(ReturnValue::Empty);
        assert(calls@ =~= self.spec_calls());
        assert(return_values@ =~= seq![
            ReturnValue::AfterPull { next_sequence_number: self.next_sequence_number },
            ReturnValue::Empty,
        ]);
        CommitPlan {
            calls,
            return_values,
            order_of_execution: Vec::new(),
            gas_limit: COMMIT_GAS_LIMIT,
            flash_loan: None,
            disbursals: reports.batch(self.schedule_key),
        }
    }

    /// Ends the commit of the executor that holds the transaction guard:
    /// gives the guard back, however the submission ended, and turns the
    /// end of the submission into the commit's result. Where the commit
    /// succeeded, the batch that it took is paid out and leaves the ledger;
    /// what was reported since stays pending. After any other end the batch
    /// is pending again, on top of what was reported since. For an executor
    /// that does not hold the guard nothing is done, and the result is an
    /// execution error.
    pub fn final_exec(
        &self,
        reports: &mut ReportsLedger,
        guard: &mut TransactionGuard,
        executor: u128,
        outcome: &TxOutcome,
    ) -> (r: Result<SolverResponse, SolverError>)
        requires
            old(reports).wf(),
        ensures
            final(reports).wf(),
            old(guard).holder != Some(executor) ==> {
                &&& *final(guard) == *old(guard)
                &&& *final(reports) == *old(reports)
                &&& r matches Err(error) && error@ == ErrorView::ExecError(guard_not_held())
            },
            old(guard).holder == Some(executor) ==> {
                &&& final(guard).holder.is_none()
                &&& outcome is Failed ==> (r matches Err(error) && error@ == ErrorView::ExecError(
                    commit_message(*outcome),
                ))
                &&& !(outcome is Failed) ==> (r matches Ok(response) && response.succeeded
                    == commit_succeeded(*outcome) && response.message@ == commit_message(
                    *outcome,
                ) && response.remaining_secs == 0)
                &&& final(reports).flight_views() == without(
                    old(reports).flight_views(),
                    self.schedule_key,
                )
                &&& commit_succeeded(*outcome) ==> final(reports).entries == old(reports).entries
                &&& !commit_succeeded(*outcome) ==> final(reports)@ == restored(
                    old(reports)@,
                    old(reports).flight_views(),
                    self.schedule_key,
                ) && final(reports).pending_views() == with_batch(
                    old(reports).pending_views(),
                    old(reports).flight_views(),
                    self.schedule_key,
                )
            },
    {
        if !guard.is_held_by(executor) {
            return Err(SolverError::ExecError("The transaction guard is not held".to_owned()));
        }
        guard.release(executor);
        let result = commit_response(outcome);
        let succeeded = match &result {
            Ok(response) => response.succeeded,
            Err(_) => false,
        };
        if succeeded {
            reports.settle(self.schedule_key);
        } else {
            reports.restore(self.schedule_key);
        }
        result
    }
}

/// Writes a clock reading for a message.
pub fn write_clock(secs: u64) -> (r: String)
    ensures
        r@ == clock_text(secs as int),
{
    if secs <= MAX_CLOCK_SECS {
        format_utc(secs as i64)
    } else {
        let digits = u64_to_decimal(secs);
        join_text(digits.as_str(), " seconds since the epoch")
    }
}

impl Solver for CleanAppSchedulerSolver {
    open spec fn spec_app(&self) -> Seq<char> {
        APP_SELECTOR@
    }

    open spec fn spec_deadline(&self) -> Result<Deadline, ErrorView> {
        match self.trigger_time {
            Ok(t) => Ok(Deadline::At(t)),
            Err(error) => Err(error@),
        }
    }

    open spec fn spec_retries_commit(&self) -> bool {
        false
    }

    open spec fn inv(&self) -> bool {
        self.wf()
    }

    fn app(&self) -> (r: String) {
        APP_SELECTOR.to_owned()
    }

    fn deadline(&self) -> (r: Result<Deadline, SolverError>) {
        match &self.trigger_time {
            Ok(t) => Ok(Deadline::At(*t)),
            Err(error) => Err(error.duplicate()),
        }
    }

    fn retries_commit(&self) -> (r: bool) {
        false
    }
}

/// Once the trigger time has come, a schedule with anything pending
/// triggers.
pub proof fn lemma_triggers_at_trigger_time(
    trigger: int,
    now: int,
    pending: nat,
    max_batch_size: nat,
)
    requires
        now >= trigger,
        pending > 0,
    ensures
        poll_triggered(trigger, now, pending, max_batch_size),
        poll_remaining(trigger, now, pending, max_batch_size) == 0,
{
}

/// A schedule with nothing pending does not trigger, whatever the time: a
/// batch of nothing is never committed.
pub proof fn lemma_empty_ledger_never_triggers(trigger: int, now: int, max_batch_size: nat)
    requires
        max_batch_size > 0,
    ensures
        !poll_triggered(trigger, now, 0, max_batch_size),
        now >= trigger ==> poll_remaining(trigger, now, 0, max_batch_size) == 0,
{
}

/// A full batch triggers, whatever the time.
pub proof fn lemma_full_batch_triggers(trigger: int, now: int, pending: nat, max_batch_size: nat)
    requires
        pending >= max_batch_size,
    ensures
        poll_triggered(trigger, now, pending, max_batch_size),
        poll_remaining(trigger, now, pending, max_batch_size) == 0,
{
}

} // verus!
