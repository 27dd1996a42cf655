//! What the ledger's contracts exchange with a solver: the events that
//! queue deferred calls, and the calls a commit sends back. Everything is
//! held as plain values; turning them into bytes is the payload codec's job.

use crate::big_amount::BigAmount;
use crate::primitives::{Address, Amount, Hash32};
use vstd::prelude::*;

verus! {

/// A named parameter of an event, as text.
#[derive(Clone, Debug, PartialEq, Eq)]
pub struct AdditionalData {
    pub name: String,
    pub value: String,
}

/// A parameter of an event, keyed by the selector of its name.
#[derive(Clone, Debug, PartialEq, Eq)]
pub struct MevTimeData {
    pub key: Hash32,
    pub value: Vec<u8>,
}

/// One call of a deferred call sequence, as the event reports it.
#[derive(Clone, Debug, PartialEq, Eq)]
pub struct CallObject {
    pub amount: Amount,
    pub addr: Address,
    pub gas: Amount,
    pub callvalue: Vec<u8>,
}

/// A deferred call sequence was pushed to a laminated proxy.
#[derive(Clone, Debug, PartialEq, Eq)]
pub struct CallPushed {
    pub call_objs: Vec<CallObject>,
    pub sequence_number: Amount,
    pub data: Vec<AdditionalData>,
}

/// A deferred call sequence was pushed to a proxy, for the application
/// with a selector, with parameters by name.
#[derive(Clone, Debug, PartialEq, Eq)]
pub struct ProxyPushed {
    pub proxy_address: Address,
    pub selector: Hash32,
    pub sequence_number: Amount,
    pub data_values: Vec<AdditionalData>,
}

/// A user objective was pushed to the call breaker.
#[derive(Clone, Debug, PartialEq, Eq)]
pub struct UserObjectivePushed {
    pub app_id: Hash32,
    pub sequence_number: Amount,
    pub mev_time_data: Vec<MevTimeData>,
}

/// What a call of a commit asks of its target contract.
#[derive(Clone, Copy, Debug, PartialEq, Eq)]
pub enum CallPayload {
    /// Let `spender` move up to `amount` of the target token.
    Approve { spender: Address, amount: Amount },
    /// Put liquidity into the pool on behalf of `provider`.
    ProvideLiquidity { provider: Address, amount_0_in: Amount, amount_1_in: Amount },
    /// Fail unless the price moved by at most this percentage.
    CheckSlippage { max_deviation_percentage: Amount },
    /// Take the liquidity out of the pool again.
    WithdrawLiquidity { provider: Address, amount_0_out: Amount, amount_1_out: Amount },
    /// Release the deferred call with this sequence number.
    Pull { seq_number: Amount },
    /// Verify and execute the disbursement that the commit carries.
    VerifySignature,
}

/// One call of a commit.
#[derive(Clone, Copy, Debug, PartialEq, Eq)]
pub struct PlannedCall {
    pub amount: Amount,
    pub addr: Address,
    pub gas: u64,
    pub payload: CallPayload,
    pub salt: u64,
    pub skippable: bool,
    pub verifiable: bool,
    pub expose_return: bool,
}

/// The value that a call of a commit is expected to return.
#[derive(Clone, Copy, Debug, PartialEq, Eq)]
pub enum ReturnValue {
    /// Nothing.
    Empty,
    /// A boolean.
    Bool(bool),
    /// What releasing a deferred call gives back: nothing, the next sequence
    /// number, nothing.
    AfterPull { next_sequence_number: Amount },
    /// What releasing the deferred call of an order gives back: nothing,
    /// then true.
    AfterOrderPull,
}

/// A flash loan to bundle with a commit.
#[derive(Clone, Copy, Debug, PartialEq, Eq)]
pub struct FlashLoanData {
    pub provider: Address,
    pub amount_a: Amount,
    pub amount_b: Amount,
}

/// One payment of a disbursement.
#[derive(Clone, Debug, PartialEq, Eq)]
pub struct Disbursal {
    pub receiver: Address,
    pub amount: BigAmount,
}

/// What a payment says, as plain values.
pub struct DisbursalView {
    pub receiver: Address,
    pub amount: nat,
}

impl View for Disbursal {
    type V = DisbursalView;

    open spec fn view(&self) -> DisbursalView {
        DisbursalView { receiver: self.receiver, amount: self.amount.value() }
    }
}

/// What each payment says.
pub open spec fn disbursal_views(payments: Seq<Disbursal>) -> Seq<DisbursalView> {
    Seq::new(payments.len(), |i: int| payments[i]@)
}

/// The single transaction of a commit: its calls, the order in which the
/// ledger runs them, what each is expected to return, and what goes with
/// them.
#[derive(Clone, Debug, PartialEq, Eq)]
pub struct CommitPlan {
    pub calls: Vec<PlannedCall>,
    pub return_values: Vec<ReturnValue>,
    pub order_of_execution: Vec<u64>,
    pub gas_limit: u64,
    pub flash_loan: Option<FlashLoanData>,
    pub disbursals: Vec<Disbursal>,
}

/// How the submission of a commit ended.
#[derive(Clone, Debug, PartialEq, Eq)]
pub enum TxOutcome {
    /// Sending the transaction, or waiting for its receipt, failed.
    Failed(String),
    /// No receipt came, or it carried no status.
    Unconfirmed,
    /// The transaction was mined with this status; zero means it failed.
    Status(u64),
}

} // verus!
