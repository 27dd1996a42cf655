//! The executor that only watches a time limit: it reports that it runs on
//! every tick, and that it timed out once its limit has passed.

use crate::contracts_abi::AdditionalData;
use crate::primitives::TimeSpan;
use crate::stats::{ExecStatus, StatsView, Status, TimerExecutorStats, TransactionStatus};
use vstd::prelude::*;

verus! {

/// What a flash liquidity request asks for. Price and slippage are decimal
/// numbers, kept as they are written.
#[derive(Clone, Debug, PartialEq, Eq)]
pub struct FlashLiquidityParams {
    pub token: String,
    pub price: String,
    pub slippage: String,
    pub time_limit: TimeSpan,
}

/// What a status record of such an executor says, as plain values.
pub struct FlashLiquidityStatsView {
    pub id: u128,
    pub creation_time: TimeSpan,
    pub status: ExecStatus,
    pub token: Seq<char>,
    pub price: Seq<char>,
    pub slippage: Seq<char>,
    pub time_limit: TimeSpan,
    pub elapsed: TimeSpan,
    pub remaining: TimeSpan,
}

/// The status record of an executor that watches a time limit.
#[derive(Clone, Debug, PartialEq, Eq)]
pub struct FlashLiquidityStats {
    pub id: u128,
    pub creation_time: TimeSpan,
    pub status: ExecStatus,
    pub params: FlashLiquidityParams,
    pub elapsed: TimeSpan,
    pub remaining: TimeSpan,
}

impl View for FlashLiquidityStats {
    type V = FlashLiquidityStatsView;

    open spec fn view(&self) -> FlashLiquidityStatsView {
        FlashLiquidityStatsView {
            id: self.id,
            creation_time: self.creation_time,
            status: self.status,
            token: self.params.token@,
            price: self.params.price@,
            slippage: self.params.slippage@,
            time_limit: self.params.time_limit,
            elapsed: self.elapsed,
            remaining: self.remaining,
        }
    }
}

/// The lifecycle status that an aggregator files a record under.
pub open spec fn filed_under(status: ExecStatus) -> Status {
    match status {
        ExecStatus::RUNNING => Status::Running,
        ExecStatus::COMPLETED => Status::Succeeded,
        ExecStatus::TIMEOUT => Status::Timeout,
    }
}

impl FlashLiquidityStats {
    /// This record in the form that an aggregator keeps: the request's
    /// token, price and slippage become its parameters; it names no
    /// application, sequence number or message, and no commit was made.
    pub open spec fn spec_record(&self) -> StatsView {
        StatsView {
            id: self.id,
            sequence_number: 0,
            app: Seq::empty(),
            creation_time: self.creation_time,
            status: filed_under(self.status),
            transaction_status: TransactionStatus::NotExecuted,
            message: Seq::empty(),
            params: seq![
                ("token"@, self.params.token@),
                ("price"@, self.params.price@),
                ("slippage"@, self.params.slippage@),
            ],
            elapsed: self.elapsed,
            remaining: self.remaining,
        }
    }

    /// Writes this record in the form that an aggregator keeps.
    pub fn to_record(&self) -> (r: TimerExecutorStats)
        ensures
            r@ == self.spec_record(),
    {
        let status = match self.status {
            ExecStatus::RUNNING => Status::Running,
            ExecStatus::COMPLETED => Status::Succeeded,
            ExecStatus::TIMEOUT => Status::Timeout,
        };
        let mut params: Vec<AdditionalData> = Vec::new();
        params.push(AdditionalData { name: "token".to_owned(), value: self.params.token.clone() });
        params.push(AdditionalData { name: "price".to_owned(), value: self.params.price.clone() });
        params.push(
            AdditionalData { name: "slippage".to_owned(), value: self.params.slippage.clone() },
        );
        let r = TimerExecutorStats {
            id: self.id,
            sequence_number: 0,
            app: String::new(),
            creation_time: self.creation_time,
            status,
            transaction_status: TransactionStatus::NotExecuted,
            message: String::new(),
            params,
            elapsed: self.elapsed,
            remaining: self.remaining,
        };
        assert(r@.params =~= self.spec_record().params);
        r
    }
}

/// The status after `elapsed`: running while the elapsed time is below the
/// limit, timed out from then on.
pub open spec fn status_after(time_limit: TimeSpan, elapsed: TimeSpan) -> ExecStatus {
    if elapsed.total_nanos() < time_limit.total_nanos() {
        ExecStatus::RUNNING
    } else {
        ExecStatus::TIMEOUT
    }
}

/// The executor of one request.
#[derive(Clone, Copy, Debug, PartialEq, Eq)]
pub struct TimerExecutor {
    /// The executor's identity, for monitoring.
    pub id: u128,
    /// When the executor was made, since the Unix epoch.
    pub creation_time: TimeSpan,
    /// The time between two records.
    pub tick_duration: TimeSpan,
}

impl TimerExecutor {
    /// Makes an executor.
    pub fn new(tick_duration: TimeSpan, creation_time: TimeSpan, id: u128) -> (r: TimerExecutor)
        ensures
            r.id == id,
            r.creation_time == creation_time,
            r.tick_duration == tick_duration,
    {
        TimerExecutor { id, creation_time, tick_duration }
    }

    /// The record that the executor emits after `elapsed`. While it runs, it
    /// has the distance to the limit left; once it has timed out, nothing.
    pub open spec fn spec_stats(
        &self,
        params: FlashLiquidityParams,
        elapsed: TimeSpan,
    ) -> FlashLiquidityStatsView {
        let status = status_after(params.time_limit, elapsed);
        FlashLiquidityStatsView {
            id: self.id,
            creation_time: self.creation_time,
            status,
            token: params.token@,
            price: params.price@,
            slippage: params.slippage@,
            time_limit: params.time_limit,
            elapsed,
            remaining: if status == ExecStatus::RUNNING {
                params.time_limit.spec_abs_diff(elapsed)
            } else {
                TimeSpan { secs: 0, nanos: 0 }
            },
        }
    }

    /// Decides once, after `elapsed`: gives back the record to emit. The
    /// executor goes on, after a sleep of one tick, exactly while the
    /// record says that it runs.
    pub fn execute(&self, params: &FlashLiquidityParams, elapsed: TimeSpan) -> (r:
        FlashLiquidityStats)
        requires
            params.time_limit.wf(),
            elapsed.wf(),
        ensures
            r@ == self.spec_stats(*params, elapsed),
    {
        let status = if elapsed.lt(params.time_limit) {
            ExecStatus::RUNNING
        } else {
            ExecStatus::TIMEOUT
        };
        self.send_stats(status, elapsed, params)
    }

    /// Makes the record of a status.
    fn send_stats(&self, status: ExecStatus, elapsed: TimeSpan, params: &FlashLiquidityParams) -> (r:
        FlashLiquidityStats)
        requires
            params.time_limit.wf(),
            elapsed.wf(),
        ensures
            r.id == self.id,
            r.creation_time == self.creation_time,
            r.status == status,
            r.params.token@ == params.token@,
            r.params.price@ == params.price@,
            r.params.slippage@ == params.slippage@,
            r.params.time_limit == params.time_limit,
            r.elapsed == elapsed,
            r.remaining == (if status == ExecStatus::RUNNING {
                params.time_limit.spec_abs_diff(elapsed)
            } else {
                TimeSpan { secs: 0, nanos: 0 }
            }),
    {
        let remaining = match status {
            ExecStatus::RUNNING => params.time_limit.abs_diff(elapsed),
            _ => TimeSpan { secs: 0, nanos: 0 },
        };
        FlashLiquidityStats {
            id: self.id,
            creation_time: self.creation_time,
            status,
            params: FlashLiquidityParams {
                token: params.token.clone(),
                price: params.price.clone(),
                slippage: params.slippage.clone(),
                time_limit: params.time_limit,
            },
            elapsed,
            remaining,
        }
    }
}

} // verus!
