//! The listener for scheduled batches: it admits the events that queue a
//! disbursement, keeps the schedule of the last event that named one, and
//! makes the executor of each event it admits.

use crate::clock::{cron_next_after, MAX_CLOCK_SECS};
use crate::contracts_abi::{AdditionalData, CallPushed};
use crate::primitives::{Address, TimeSpan};
use crate::solver::{Deadline, Solver, SolverParams};
use crate::solvers::cleanapp_scheduler::CleanAppSchedulerSolver;
use crate::stats::{clone_params, params_view};
use crate::timer_executor::{ExecutorState, Spawn, TimerRequestExecutor};
use vstd::prelude::*;

verus! {

/// The name of the parameter that carries the cron expression.
pub const CRON_PARAM: &'static str = "CRON";

/// The number of calls in an event that queues a disbursement.
pub const CLEANAPP_CALLS: usize = 3;

/// The value of the last of the first `upto` parameters that is called
/// `name`; empty where none is.
pub open spec fn last_named(data: Seq<AdditionalData>, name: Seq<char>, upto: int) -> Seq<char>
    decreases upto,
{
    if upto <= 0 || upto > data.len() {
        Seq::empty()
    } else if data[upto - 1].name@ == name {
        data[upto - 1].value@
    } else {
        last_named(data, name, upto - 1)
    }
}

/// The cron expression that a list of parameters carries; empty where it
/// carries none.
pub open spec fn cron_of(data: Seq<AdditionalData>) -> Seq<char> {
    last_named(data, CRON_PARAM@, data.len() as int)
}

/// The parameters that an event runs with: its own, or the kept ones where
/// it has none.
pub open spec fn effective_data(kept: Seq<AdditionalData>, incoming: Seq<AdditionalData>) -> Seq<
    AdditionalData,
> {
    if incoming.len() > 0 {
        incoming
    } else {
        kept
    }
}

/// Whether the parameters of an event are kept for the events after it:
/// they are where the event has parameters and they carry a cron expression.
pub open spec fn keeps_data(incoming: Seq<AdditionalData>) -> bool {
    incoming.len() > 0 && cron_of(incoming).len() > 0
}

/// Finds the cron expression in a list of parameters: the value of the last
/// parameter called `CRON`.
pub fn find_cron(data: &Vec<AdditionalData>) -> (r: String)
    ensures
        r@ == cron_of(data@),
{
    let wanted = CRON_PARAM.to_owned();
    let mut cron = String::new();
    let mut i: usize = 0;
    while i < data.len()
        invariant
            i <= data.len(),
            wanted@ == CRON_PARAM@,
            cron@ == last_named(data@, CRON_PARAM@, i as int),
        decreases data.len() - i,
    {
        if data[i].name == wanted {
            cron = data[i].value.clone();
        }
        i += 1;
    }
    cron
}

/// The listener of one laminated proxy.
#[derive(Clone, Debug, PartialEq, Eq)]
pub struct LaminatorListener {
    /// The laminated proxy whose events the listener takes.
    pub laminated_proxy_address: Address,
    /// The contract that executes disbursements.
    pub kitn_disbursement_scheduler_address: Address,
    /// The static parameters of the solvers.
    pub solver_params: SolverParams,
    /// The time between two polls of an executor.
    pub tick_duration: TimeSpan,
    /// The schedule whose reports the solvers pay out.
    pub schedule_key: Option<u64>,
    /// The number of accounts at which a batch is full.
    pub max_batch_size: usize,
    /// The parameters of the last event that carried a cron expression.
    pub params: Vec<AdditionalData>,
}

impl LaminatorListener {
    /// Makes a listener that has seen no event yet.
    pub fn new(
        laminated_proxy_address: Address,
        kitn_disbursement_scheduler_address: Address,
        solver_params: SolverParams,
        tick_duration: TimeSpan,
        schedule_key: Option<u64>,
        max_batch_size: usize,
    ) -> (r: LaminatorListener)
        ensures
            r.laminated_proxy_address == laminated_proxy_address,
            r.kitn_disbursement_scheduler_address == kitn_disbursement_scheduler_address,
            r.solver_params == solver_params,
            r.tick_duration == tick_duration,
            r.schedule_key == schedule_key,
            r.max_batch_size == max_batch_size,
            r.params@.len() == 0,
    {
        LaminatorListener {
            laminated_proxy_address,
            kitn_disbursement_scheduler_address,
            solver_params,
            tick_duration,
            schedule_key,
            max_batch_size,
            params: Vec::new(),
        }
    }

    /// Whether an event queues a disbursement: it has three calls, and the
    /// first goes to the disbursement contract.
    pub open spec fn admits(&self, event: CallPushed) -> bool {
        event.call_objs@.len() == CLEANAPP_CALLS && event.call_objs@[0].addr@
            == self.kitn_disbursement_scheduler_address@
    }

    /// Whether an event queues a disbursement.
    pub fn is_cleanapp_event(&self, event: &CallPushed) -> (r: bool)
        ensures
            r == self.admits(*event),
    {
        if event.call_objs.len() != CLEANAPP_CALLS {
            return false;
        }
        event.call_objs[0].addr == self.kitn_disbursement_scheduler_address
    }

    /// Whether the listener makes an executor for an event at the clock
    /// reading `now_secs`: the event is admitted, the parameters it runs
    /// with carry a cron expression that is a schedule, and the solver can
    /// be made.
    pub open spec fn spawns(&self, event: CallPushed, now_secs: u64) -> bool {
        let cron = cron_of(effective_data(self.params@, event.data@));
        &&& self.admits(event)
        &&& cron.len() > 0
        &&& now_secs <= MAX_CLOCK_SECS
        &&& cron_next_after(cron, now_secs as int).is_some()
        &&& self.max_batch_size > 0
        &&& event.sequence_number.value() <= u32::MAX
    }

    /// Takes one event. An event that is not admitted is skipped. An
    /// admitted event with parameters runs with them, and they are kept if
    /// they carry a cron expression; one without parameters runs with the
    /// kept ones. Where the parameters carry a cron expression, the solver
    /// is made and its executor is given back, ready to be started; where
    /// the solver cannot be made, the event is dropped.
    pub fn listen(&mut self, event: CallPushed, now_secs: u64, creation_time: TimeSpan, id: u128) -> (r:
        Option<Spawn<CleanAppSchedulerSolver>>)
        requires
            old(self).tick_duration.wf(),
            creation_time.wf(),
        ensures
            final(self).laminated_proxy_address == old(self).laminated_proxy_address,
            final(self).kitn_disbursement_scheduler_address == old(
                self,
            ).kitn_disbursement_scheduler_address,
            final(self).solver_params == old(self).solver_params,
            final(self).tick_duration == old(self).tick_duration,
            final(self).schedule_key == old(self).schedule_key,
            final(self).max_batch_size == old(self).max_batch_size,
            params_view(final(self).params@) == (if old(self).admits(event) && keeps_data(
                event.data@,
            ) {
                params_view(event.data@)
            } else {
                params_view(old(self).params@)
            }),
            r.is_some() == old(self).spawns(event, now_secs),
            r matches Some(spawn) ==> {
                let data = effective_data(old(self).params@, event.data@);
                &&& spawn.sequence_number == event.sequence_number.value()
                &&& params_view(spawn.params@) == params_view(data)
                &&& spawn.executor.wf()
                &&& spawn.executor.id == id
                &&& spawn.executor.creation_time == creation_time
                &&& spawn.executor.tick_duration == old(self).tick_duration
                &&& spawn.executor.state == ExecutorState::Created
                &&& spawn.executor.solver.built_from(
                    event,
                    old(self).solver_params,
                    old(self).laminated_proxy_address,
                    old(self).kitn_disbursement_scheduler_address,
                    cron_of(data),
                    now_secs,
                    old(self).schedule_key,
                    old(self).max_batch_size,
                )
                &&& spawn.executor.app@ == spawn.executor.solver.spec_app()
                &&& spawn.executor.config().deadline == (match spawn.executor.solver.spec_deadline() {
                    Ok(deadline) => Ok::<Deadline, Seq<char>>(deadline),
                    Err(error) => Err::<Deadline, Seq<char>>(error.text()),
                })
                &&& spawn.executor.retries_commit == false
            },
    {
        if !self.is_cleanapp_event(&event) {
            return None;
        }
        let cron: String;
        let params: Vec<AdditionalData>;
        if event.data.len() > 0 {
            cron = find_cron(&event.data);
            if cron.as_str().unicode_len() > 0 {
                self.params = clone_params(&event.data);
            }
            params = clone_params(&event.data);
            proof {
                lemma_cron_of_view(event.data@, params@);
            }
        } else {
            params = clone_params(&self.params);
            cron = find_cron(&params);
            proof {
                lemma_cron_of_view(old(self).params@, params@);
            }
        }
        if cron.as_str().unicode_len() == 0 {
            return None;
        }
        let sequence_number = match event.sequence_number.to_u32() {
            Some(n) => n,
            None => {
                return None;
            },
        };
        let solver = match CleanAppSchedulerSolver::new(
            &event,
            &self.solver_params,
            self.laminated_proxy_address,
            self.kitn_disbursement_scheduler_address,
            cron,
            now_secs,
            self.schedule_key,
            self.max_batch_size,
        ) {
            Ok(solver) => solver,
            Err(_) => {
                return None;
            },
        };
        let executor = TimerRequestExecutor::new(solver, self.tick_duration, creation_time, id);
        Some(Spawn { executor, sequence_number, params })
    }
}

/// An event whose parameters name no cron expression gets no executor:
/// neither its own parameters, nor the kept ones where it has none.
pub proof fn lemma_no_cron_spawns_nothing(
    listener: LaminatorListener,
    event: CallPushed,
    now_secs: u64,
)
    requires
        ({
            let data = effective_data(listener.params@, event.data@);
            forall|i: int| 0 <= i < data.len() ==> (#[trigger] data[i]).name@ != CRON_PARAM@
        }),
    ensures
        !listener.spawns(event, now_secs),
{
    let data = effective_data(listener.params@, event.data@);
    lemma_unnamed_is_empty(data, data.len() as int);
}

/// Parameters of other names give the empty value for a name.
proof fn lemma_unnamed_is_empty(data: Seq<AdditionalData>, upto: int)
    requires
        0 <= upto <= data.len(),
        forall|i: int| 0 <= i < data.len() ==> (#[trigger] data[i]).name@ != CRON_PARAM@,
    ensures
        last_named(data, CRON_PARAM@, upto).len() == 0,
    decreases upto,
{
    if upto > 0 {
        lemma_unnamed_is_empty(data, upto - 1);
    }
}

/// Lists of parameters with the same names and values carry the same cron
/// expression.
pub proof fn lemma_cron_of_view(a: Seq<AdditionalData>, b: Seq<AdditionalData>)
    requires
        params_view(a) == params_view(b),
    ensures
        cron_of(a) == cron_of(b),
{
    assert(b.len() == params_view(b).len());
    lemma_last_named_view(a, b, a.len() as int);
}

/// Lists of parameters with the same names and values give the same value
/// for a name.
proof fn lemma_last_named_view(a: Seq<AdditionalData>, b: Seq<AdditionalData>, upto: int)
    requires
        params_view(a) == params_view(b),
        a.len() == b.len(),
        0 <= upto <= a.len(),
    ensures
        last_named(a, CRON_PARAM@, upto) == last_named(b, CRON_PARAM@, upto),
    decreases upto,
{
    if upto > 0 {
        assert(params_view(a)[upto - 1] == params_view(b)[upto - 1]);
        lemma_last_named_view(a, b, upto - 1);
    }
}

} // verus!
