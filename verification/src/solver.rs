//! The protocol that every solver policy follows: identify, declare a
//! deadline, poll a condition, commit once.

use crate::contracts_abi::TxOutcome;
use crate::primitives::{Address, Hash32, TimeSpan};
use crate::text::{decimal_text, hash_text, hash_to_text, join_text, u64_to_decimal};
use vstd::prelude::*;

verus! {

/// The address of an auxiliary contract, under its logical name.
#[derive(Clone, Debug, PartialEq, Eq)]
pub struct ContractAddress {
    pub name: String,
    pub address: Address,
}

/// The static parameters of one application, shared by all its solvers.
#[derive(Clone, Debug, PartialEq, Eq)]
pub struct SolverParams {
    pub call_breaker_address: Address,
    pub solver_address: Address,
    pub extra_contract_addresses: Vec<ContractAddress>,
    /// Liquidity of the given token that a commit provides, in whole units.
    pub give_liquidity: u64,
    /// Liquidity of the taken token that a commit provides, in whole units.
    pub take_liquidity: u64,
    /// Whether a commit is bundled with a flash loan of that liquidity.
    pub with_flash_loan: bool,
}

/// The outcome of one poll step or of a commit.
#[derive(Clone, Debug, PartialEq, Eq)]
pub struct SolverResponse {
    pub succeeded: bool,
    pub message: String,
    pub remaining_secs: i64,
}

/// Why a solver could not be made or could not do its step.
#[derive(Clone, Debug, PartialEq, Eq)]
pub enum SolverError {
    /// The event's selector is not the policy's.
    MisleadingSelector(Hash32),
    /// An event parameter is missing or malformed.
    ParamError(String),
    /// A downstream read or write failed.
    ExecError(String),
}

/// When a solver's executor stops waiting.
#[derive(Clone, Copy, Debug, PartialEq, Eq, Structural)]
pub enum Deadline {
    /// A fixed span after the executor's start.
    Within(TimeSpan),
    /// A computed trigger time, in seconds since the Unix epoch.
    At(i64),
}

/// What an error says, as plain values.
pub enum ErrorView {
    MisleadingSelector(Seq<u8>),
    ParamError(Seq<char>),
    ExecError(Seq<char>),
}

impl ErrorView {
    /// The text that describes the error.
    pub open spec fn text(self) -> Seq<char> {
        match self {
            ErrorView::MisleadingSelector(id) => "UnknownSelector: "@ + hash_text(id),
            ErrorView::ParamError(s) => "Parameter error, \""@ + s + "\""@,
            ErrorView::ExecError(s) => "Execution error, "@ + s,
        }
    }
}

impl View for SolverError {
    type V = ErrorView;

    open spec fn view(&self) -> ErrorView {
        match self {
            SolverError::MisleadingSelector(id) => ErrorView::MisleadingSelector(id@),
            SolverError::ParamError(s) => ErrorView::ParamError(s@),
            SolverError::ExecError(s) => ErrorView::ExecError(s@),
        }
    }
}

impl SolverError {
    /// The text that describes this error.
    pub open spec fn text(self) -> Seq<char> {
        self@.text()
    }

    /// Describes this error in words.
    pub fn to_string(&self) -> (r: String)
        ensures
            r@ == self.text(),
    {
        match self {
            SolverError::MisleadingSelector(id) => {
                let short = hash_to_text(id);
                join_text("UnknownSelector: ", short.as_str())
            },
            SolverError::ParamError(s) => {
                let head = join_text("Parameter error, \"", s.as_str());
                join_text(head.as_str(), "\"")
            },
            SolverError::ExecError(s) => join_text("Execution error, ", s.as_str()),
        }
    }

    /// Copies this error.
    pub fn duplicate(&self) -> (r: SolverError)
        ensures
            r@ == self@,
    {
        match self {
            SolverError::MisleadingSelector(id) => SolverError::MisleadingSelector(*id),
            SolverError::ParamError(s) => SolverError::ParamError(s.clone()),
            SolverError::ExecError(s) => SolverError::ExecError(s.clone()),
        }
    }
}

/// The address listed under `name` from position `from` on: that of the
/// first such entry.
pub open spec fn contract_address_from(
    entries: Seq<ContractAddress>,
    name: Seq<char>,
    from: int,
) -> Option<Address>
    decreases entries.len() - from,
{
    if from < 0 || from >= entries.len() {
        None
    } else if entries[from].name@ == name {
        Some(entries[from].address)
    } else {
        contract_address_from(entries, name, from + 1)
    }
}

/// The address listed under `name`, if any.
pub open spec fn contract_address(entries: Seq<ContractAddress>, name: Seq<char>) -> Option<
    Address,
> {
    contract_address_from(entries, name, 0)
}

/// Looks up the address of an auxiliary contract by its logical name.
pub fn find_contract(entries: &Vec<ContractAddress>, name: &str) -> (r: Option<Address>)
    ensures
        r == contract_address(entries@, name@),
{
    let wanted = name.to_owned();
    let mut i: usize = 0;
    while i < entries.len()
        invariant
            i <= entries.len(),
            wanted@ == name@,
            contract_address(entries@, name@) == contract_address_from(entries@, name@, i as int),
        decreases entries.len() - i,
    {
        if entries[i].name == wanted {
            return Some(entries[i].address);
        }
        i += 1;
    }
    None
}

/// Whether a commit whose submission ended as `outcome` succeeded: the
/// transaction was mined with a status other than zero.
pub open spec fn commit_succeeded(outcome: TxOutcome) -> bool {
    outcome matches TxOutcome::Status(status) && status != 0
}

/// The message of the response to a commit whose submission ended as
/// `outcome`.
pub open spec fn commit_message(outcome: TxOutcome) -> Seq<char> {
    match outcome {
        TxOutcome::Failed(reason) => "Final execution error: "@ + reason@,
        TxOutcome::Unconfirmed => "transaction status wasn't received"@,
        TxOutcome::Status(status) => "Transaction status: "@ + decimal_text(status as nat),
    }
}

/// Turns the end of a commit's submission into the commit's result: an
/// execution error where the submission failed, else a response that
/// succeeded exactly where the transaction was mined with a status other
/// than zero.
pub fn commit_response(outcome: &TxOutcome) -> (r: Result<SolverResponse, SolverError>)
    ensures
        outcome is Failed ==> (r matches Err(error) && error@ == ErrorView::ExecError(
            commit_message(*outcome),
        )),
        !(outcome is Failed) ==> (r matches Ok(response) && response.succeeded
            == commit_succeeded(*outcome) && response.message@ == commit_message(*outcome)
            && response.remaining_secs == 0),
{
    match outcome {
        TxOutcome::Failed(reason) => Err(
            SolverError::ExecError(join_text("Final execution error: ", reason.as_str())),
        ),
        TxOutcome::Unconfirmed => Ok(
            SolverResponse {
                succeeded: false,
                message: "transaction status wasn't received".to_owned(),
                remaining_secs: 0,
            },
        ),
        TxOutcome::Status(status) => {
            let digits = u64_to_decimal(*status);
            Ok(
                SolverResponse {
                    succeeded: *status != 0,
                    message: join_text("Transaction status: ", digits.as_str()),
                    remaining_secs: 0,
                },
            )
        },
    }
}

/// The message of the error that ends a commit whose executor does not hold
/// the transaction guard.
pub open spec fn guard_not_held() -> Seq<char> {
    "The transaction guard is not held"@
}

/// What every solver policy tells its executor.
pub trait Solver {
    /// The application name of the policy.
    spec fn spec_app(&self) -> Seq<char>;

    /// The deadline of this solver, or why it has none.
    spec fn spec_deadline(&self) -> Result<Deadline, ErrorView>;

    /// Whether an executor goes back to polling after a commit that failed.
    spec fn spec_retries_commit(&self) -> bool;

    /// What holds of every solver that construction gave.
    spec fn inv(&self) -> bool;

    /// The stable application name, used for routing and for tagging status
    /// records.
    fn app(&self) -> (r: String)
        ensures
            r@ == self.spec_app(),
    ;

    /// The deadline of this solver; an error aborts the executor's start.
    fn deadline(&self) -> (r: Result<Deadline, SolverError>)
        requires
            self.inv(),
        ensures
            match r {
                Ok(deadline) => self.spec_deadline() == Ok::<Deadline, ErrorView>(deadline),
                Err(error) => self.spec_deadline() == Err::<Deadline, ErrorView>(error@),
            },
            r matches Ok(Deadline::Within(limit)) ==> limit.wf(),
    ;

    /// Whether an executor goes back to polling after a commit that failed,
    /// instead of ending as failed.
    fn retries_commit(&self) -> (r: bool)
        ensures
            r == self.spec_retries_commit(),
    ;
}

} // verus!
