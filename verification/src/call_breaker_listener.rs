//! The listener for user objectives: it routes each event by its selector
//! to the parameters of an application, and makes the executor of each
//! event whose solver can be made.

use crate::contracts_abi::{AdditionalData, MevTimeData, UserObjectivePushed};
use crate::primitives::{Address, Hash32, TimeSpan};
use crate::solver::{contract_address, Deadline, ErrorView, Solver, SolverError, SolverParams};
use crate::solvers::limit_order::{
    kind_of,
    lemma_missing_parameter_fails,
    LimitOrderSolver,
    ParamKind,
    FLASH_LOAN_NAME,
    SWAP_POOL_NAME,
};
use crate::stats::params_view;
use crate::text::{hex_encode, hex_text};
use crate::timer_executor::{ExecutorState, Spawn, TimerRequestExecutor};
use vstd::prelude::*;

verus! {

/// The parameters of the application with a selector.
#[derive(Clone, Debug, PartialEq, Eq)]
pub struct SolverEntry {
    pub app_id: Hash32,
    pub params: SolverParams,
}

/// The position of the first entry with this selector, from `from` on.
pub open spec fn entry_index_from(table: Seq<SolverEntry>, app_id: Seq<u8>, from: int) -> Option<int>
    decreases table.len() - from,
{
    if from < 0 || from >= table.len() {
        None
    } else if table[from].app_id@ == app_id {
        Some(from)
    } else {
        entry_index_from(table, app_id, from + 1)
    }
}

/// The position of the entry that an event with this selector is routed to.
pub open spec fn entry_index(table: Seq<SolverEntry>, app_id: Seq<u8>) -> Option<int> {
    entry_index_from(table, app_id, 0)
}

/// The parameters of an event as they are written into status records:
/// each key and value in hexadecimal notation.
pub open spec fn audit_view(data: Seq<MevTimeData>) -> Seq<(Seq<char>, Seq<char>)> {
    Seq::new(data.len(), |i: int| (hex_text(data[i].key@), hex_text(data[i].value@)))
}

/// Writes the parameters of an event for the status records.
pub fn audit_params(data: &Vec<MevTimeData>) -> (r: Vec<AdditionalData>)
    ensures
        params_view(r@) == audit_view(data@),
{
    let mut list: Vec<AdditionalData> = Vec::new();
    let mut i: usize = 0;
    while i < data.len()
        invariant
            i <= data.len(),
            list@.len() == i,
            forall|j: int|
                0 <= j < i ==> list@[j].name@ == hex_text(data@[j].key@) && list@[j].value@
                    == hex_text(data@[j].value@),
        decreases data.len() - i,
    {
        let name = hex_encode(&data[i].key.bytes);
        let value = hex_encode(data[i].value.as_slice());
        list.push(AdditionalData { name, value });
        i += 1;
    }
    list
}

/// Why no executor is made for an event under an application's parameters,
/// or `None` where one is: the solver cannot be made, or the sequence
/// number is beyond 32 bits.
pub open spec fn spawn_error(event: UserObjectivePushed, params: SolverParams) -> Option<ErrorView> {
    match LimitOrderSolver::construction_error(event, params) {
        Some(error) => Some(error),
        None => if event.sequence_number.value() > u32::MAX {
            Some(ErrorView::ParamError("sequence number out of range"@))
        } else {
            None
        },
    }
}

/// Makes the solver of an event and its executor. A sequence number beyond
/// 32 bits is a parameter error, for the status records cannot hold it.
pub fn spawn_limit_order(
    event: &UserObjectivePushed,
    params: &SolverParams,
    tick_duration: TimeSpan,
    creation_time: TimeSpan,
    id: u128,
) -> (r: Result<Spawn<LimitOrderSolver>, SolverError>)
    requires
        tick_duration.wf(),
        creation_time.wf(),
    ensures
        match spawn_error(*event, *params) {
            Some(expected) => (r matches Err(error) && error@ == expected),
            None => (r matches Ok(spawn) && {
                &&& spawn.sequence_number == event.sequence_number.value()
                &&& params_view(spawn.params@) == audit_view(event.mev_time_data@)
                &&& spawn.executor.wf()
                &&& spawn.executor.id == id
                &&& spawn.executor.creation_time == creation_time
                &&& spawn.executor.tick_duration == tick_duration
                &&& spawn.executor.state == ExecutorState::Created
                &&& spawn.executor.solver.built_from(*event, *params)
                &&& spawn.executor.app@ == spawn.executor.solver.spec_app()
                &&& spawn.executor.config().deadline == Ok::<Deadline, Seq<char>>(
                    Deadline::Within(spawn.executor.solver.time_limit),
                )
                &&& spawn.executor.retries_commit
            }),
        },
{
    let solver = match LimitOrderSolver::new(event, params) {
        Ok(solver) => solver,
        Err(error) => {
            return Err(error);
        },
    };
    let sequence_number = match event.sequence_number.to_u32() {
        Some(n) => n,
        None => {
            return Err(SolverError::ParamError("sequence number out of range".to_owned()));
        },
    };
    let executor = TimerRequestExecutor::new(solver, tick_duration, creation_time, id);
    Ok(Spawn { executor, sequence_number, params: audit_params(&event.mev_time_data) })
}

/// The listener of one call breaker.
#[derive(Clone, Debug, PartialEq, Eq)]
pub struct CallBreakerListener {
    /// The call breaker whose events the listener takes.
    pub call_breaker_address: Address,
    /// The applications that the listener serves, by selector.
    pub solvers_params: Vec<SolverEntry>,
    /// The time between two polls of an executor.
    pub tick_duration: TimeSpan,
}

impl CallBreakerListener {
    /// Makes a listener.
    pub fn new(
        call_breaker_address: Address,
        solvers_params: Vec<SolverEntry>,
        tick_duration: TimeSpan,
    ) -> (r: CallBreakerListener)
        ensures
            r.call_breaker_address == call_breaker_address,
            r.solvers_params == solvers_params,
            r.tick_duration == tick_duration,
    {
        CallBreakerListener { call_breaker_address, solvers_params, tick_duration }
    }

    /// Finds the entry that an event with this selector is routed to.
    pub fn find_entry(&self, app_id: &Hash32) -> (r: Option<usize>)
        ensures
            match r {
                Some(i) => entry_index(self.solvers_params@, app_id@) == Some(i as int) && i
                    < self.solvers_params@.len(),
                None => entry_index(self.solvers_params@, app_id@).is_none(),
            },
    {
        let mut i: usize = 0;
        while i < self.solvers_params.len()
            invariant
                i <= self.solvers_params.len(),
                entry_index(self.solvers_params@, app_id@) == entry_index_from(
                    self.solvers_params@,
                    app_id@,
                    i as int,
                ),
            decreases self.solvers_params.len() - i,
        {
            if self.solvers_params[i].app_id == *app_id {
                return Some(i);
            }
            i += 1;
        }
        None
    }

    /// Whether the listener makes an executor for an event: the event's
    /// selector is in the table, and the solver of the event can be made
    /// from the parameters found there.
    pub open spec fn spawns(&self, event: UserObjectivePushed) -> bool {
        match entry_index(self.solvers_params@, event.app_id@) {
            Some(i) => spawn_error(event, self.solvers_params@[i].params).is_none(),
            None => false,
        }
    }

    /// Takes one event. An event whose selector is not in the table is
    /// skipped. For the others the solver is made and its executor is given
    /// back, ready to be started; where the solver cannot be made, the
    /// event is dropped.
    pub fn listen(&self, event: &UserObjectivePushed, creation_time: TimeSpan, id: u128) -> (r:
        Option<Spawn<LimitOrderSolver>>)
        requires
            self.tick_duration.wf(),
            creation_time.wf(),
        ensures
            r.is_some() == self.spawns(*event),
            r matches Some(spawn) ==> {
                let i = entry_index(self.solvers_params@, event.app_id@).unwrap();
                &&& spawn.sequence_number == event.sequence_number.value()
                &&& params_view(spawn.params@) == audit_view(event.mev_time_data@)
                &&& spawn.executor.wf()
                &&& spawn.executor.id == id
                &&& spawn.executor.creation_time == creation_time
                &&& spawn.executor.tick_duration == self.tick_duration
                &&& spawn.executor.state == ExecutorState::Created
                &&& spawn.executor.solver.built_from(*event, self.solvers_params@[i].params)
                &&& spawn.executor.app@ == spawn.executor.solver.spec_app()
                &&& spawn.executor.config().deadline == Ok::<Deadline, Seq<char>>(
                    Deadline::Within(spawn.executor.solver.time_limit),
                )
                &&& spawn.executor.retries_commit
            },
    {
        let i = match self.find_entry(&event.app_id) {
            Some(i) => i,
            None => {
                return None;
            },
        };
        match spawn_limit_order(
            event,
            &self.solvers_params[i].params,
            self.tick_duration,
            creation_time,
            id,
        ) {
            Ok(spawn) => Some(spawn),
            Err(_) => None,
        }
    }
}

/// An event that gives no value for one of the five parameters of a limit
/// order gets no executor.
pub proof fn lemma_missing_parameter_spawns_nothing(
    listener: CallBreakerListener,
    event: UserObjectivePushed,
    kind: ParamKind,
)
    requires
        forall|i: int|
            0 <= i < event.mev_time_data@.len() ==> kind_of(
                #[trigger] event.mev_time_data@[i].key@,
            ) != Some(kind),
    ensures
        !listener.spawns(event),
{
    match entry_index(listener.solvers_params@, event.app_id@) {
        Some(i) => {
            let params = listener.solvers_params@[i].params;
            lemma_missing_parameter_fails(
                event.mev_time_data@,
                kind,
                contract_address(params.extra_contract_addresses@, FLASH_LOAN_NAME@),
                contract_address(params.extra_contract_addresses@, SWAP_POOL_NAME@),
            );
        },
        None => {},
    }
}

} // verus!
