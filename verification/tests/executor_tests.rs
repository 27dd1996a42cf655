use stxn_solver::codec::selector;
use stxn_solver::contracts_abi::{
    AdditionalData, CallPushed, MevTimeData, ProxyPushed, UserObjectivePushed,
};
use stxn_solver::primitives::{Address, Amount, TimeSpan};
use stxn_solver::solver::{ContractAddress, Deadline, SolverError, SolverParams, SolverResponse};
use stxn_solver::solvers::cleanapp_scheduler::CleanAppSchedulerSolver;
use stxn_solver::solvers::limit_order::{LimitOrderSolver, APP_SELECTOR};
use stxn_solver::stats::{Status, TimerExecutorStats, TransactionStatus};
use stxn_solver::timer_executor::{
    ExecutorAction, ExecutorInput, ExecutorOutput, ExecutorState, TimerExecutorFrame,
    TimerRequestExecutor,
};

fn address(n: u8) -> Address {
    Address { bytes: [n; 20] }
}

fn word(n: u64) -> Vec<u8> {
    let mut out = vec![0u8; 24];
    out.extend_from_slice(&n.to_be_bytes());
    out
}

fn abi_string(text: &str) -> Vec<u8> {
    let mut out = word(32);
    out.extend_from_slice(&word(text.len() as u64));
    out.extend_from_slice(text.as_bytes());
    while out.len() % 32 != 0 {
        out.push(0);
    }
    out
}

fn entry(name: &str, value: Vec<u8>) -> MevTimeData {
    MevTimeData { key: selector(name).unwrap(), value }
}

fn limit_event(time_limit: &str) -> UserObjectivePushed {
    UserObjectivePushed {
        app_id: selector(APP_SELECTOR).unwrap(),
        sequence_number: Amount::from_u64(42),
        mev_time_data: vec![
            entry("give_token", vec![0xAA; 20]),
            entry("take_token", vec![0xBB; 20]),
            entry("buy_price", word(100)),
            entry("slippage", word(3)),
            entry("time_limit", abi_string(time_limit)),
        ],
    }
}

fn params() -> SolverParams {
    SolverParams {
        call_breaker_address: address(1),
        solver_address: address(2),
        extra_contract_addresses: vec![
            ContractAddress { name: "FLASH_LOAN".to_string(), address: address(3) },
            ContractAddress { name: "SWAP_POOL".to_string(), address: address(4) },
        ],
        give_liquidity: 1000,
        take_liquidity: 100,
        with_flash_loan: false,
    }
}

fn limit_executor(time_limit: &str) -> TimerRequestExecutor<LimitOrderSolver> {
    let solver = LimitOrderSolver::new(&limit_event(time_limit), &params()).unwrap();
    TimerRequestExecutor::new(solver, TimeSpan::from_secs(1), TimeSpan::new(1_700_000_000, 5), 77)
}

fn scheduler(cron: &str) -> CleanAppSchedulerSolver {
    CleanAppSchedulerSolver::new(
        &CallPushed { call_objs: vec![], sequence_number: Amount::from_u64(7), data: vec![] },
        &params(),
        address(10),
        address(11),
        cron.to_string(),
        1_700_000_000,
        None,
        10,
    )
    .unwrap()
}

fn scheduler_executor(cron: &str) -> TimerRequestExecutor<CleanAppSchedulerSolver> {
    TimerRequestExecutor::new(
        scheduler(cron),
        TimeSpan::from_secs(1),
        TimeSpan::new(1_700_000_000, 5),
        78,
    )
}

fn audit() -> Vec<AdditionalData> {
    vec![AdditionalData { name: "CRON".to_string(), value: "0 * * * * *".to_string() }]
}

fn start() -> ExecutorInput {
    ExecutorInput::Start { sequence_number: 42, params: audit() }
}

fn secs(n: u64) -> TimeSpan {
    TimeSpan::from_secs(n)
}

fn ok(succeeded: bool, message: &str, remaining_secs: i64) -> Result<SolverResponse, SolverError> {
    Ok(SolverResponse { succeeded, message: message.to_string(), remaining_secs })
}

fn record(
    id: u128,
    app: &str,
    status: Status,
    transaction_status: TransactionStatus,
    message: &str,
    elapsed: TimeSpan,
    remaining: TimeSpan,
) -> TimerExecutorStats {
    TimerExecutorStats {
        id,
        sequence_number: 42,
        app: app.to_string(),
        creation_time: TimeSpan { secs: 1_700_000_000, nanos: 5 },
        status,
        transaction_status,
        message: message.to_string(),
        params: audit(),
        elapsed,
        remaining,
    }
}

const LIMIT: &str = "FLASHLIQUIDITY.LIMITORDER";
const SCHEDULER: &str = "CLEANAPP.SCHEDULER";

#[test]
fn a_new_executor_waits_to_be_started() {
    let mut executor = limit_executor("5 minutes");
    assert_eq!(executor.state, ExecutorState::Created);
    assert_eq!(executor.id, 77);
    assert_eq!(executor.app, LIMIT);
    assert_eq!(executor.deadline, Ok(Deadline::Within(secs(300))));
    assert!(executor.retries_commit);
    assert_eq!(executor.tick_duration, secs(1));
    // Nothing but the start moves it.
    for input in [
        ExecutorInput::Tick { elapsed: secs(1) },
        ExecutorInput::Step { result: ok(true, "m", 0), elapsed: secs(1) },
        ExecutorInput::Commit { result: ok(true, "m", 0), elapsed: secs(1) },
    ] {
        assert_eq!(
            executor.execute(input),
            ExecutorOutput { stats: None, action: ExecutorAction::Stop }
        );
        assert_eq!(executor.state, ExecutorState::Created);
    }
}

#[test]
fn the_start_leads_to_the_first_poll() {
    let mut executor = limit_executor("5 minutes");
    assert_eq!(
        executor.execute(start()),
        ExecutorOutput { stats: None, action: ExecutorAction::Poll }
    );
    assert_eq!(executor.state, ExecutorState::Polling);
    assert_eq!(executor.sequence_number, 42);
    assert_eq!(executor.params, audit());
}

#[test]
fn a_time_limit_of_nothing_times_out_at_the_start() {
    let mut executor = limit_executor("0s");
    assert_eq!(
        executor.execute(start()),
        ExecutorOutput {
            stats: Some(record(
                77,
                LIMIT,
                Status::Timeout,
                TransactionStatus::NotExecuted,
                "",
                secs(0),
                secs(0)
            )),
            action: ExecutorAction::Stop,
        }
    );
    assert_eq!(executor.state, ExecutorState::Timeout);
}

#[test]
fn a_solver_without_a_deadline_fails_at_the_start() {
    let mut executor = scheduler_executor("0 0 0 1 1 * 2020");
    assert_eq!(
        executor.execute(start()),
        ExecutorOutput {
            stats: Some(record(
                78,
                SCHEDULER,
                Status::Failed,
                TransactionStatus::NotExecuted,
                "Parameter error, \"Missing CRON parameter\"",
                secs(0),
                secs(0)
            )),
            action: ExecutorAction::Stop,
        }
    );
    assert_eq!(executor.state, ExecutorState::Failed);
    assert_eq!(
        executor.execute(ExecutorInput::Tick { elapsed: secs(1) }),
        ExecutorOutput { stats: None, action: ExecutorAction::Stop }
    );
}

#[test]
fn an_unmet_condition_is_polled_again_after_a_sleep() {
    let mut executor = limit_executor("5 minutes");
    executor.execute(start());
    assert_eq!(
        executor.execute(ExecutorInput::Step {
            result: ok(false, "too high", 0),
            elapsed: TimeSpan::new(10, 250),
        }),
        ExecutorOutput {
            stats: Some(record(
                77,
                LIMIT,
                Status::Running,
                TransactionStatus::StepPending,
                "too high",
                TimeSpan::new(10, 250),
                TimeSpan::new(289, 999_999_750)
            )),
            action: ExecutorAction::Sleep,
        }
    );
    assert_eq!(executor.state, ExecutorState::Polling);
    assert_eq!(executor.last_message, "too high");
    assert_eq!(executor.last_transaction_status, TransactionStatus::StepPending);
    assert_eq!(
        executor.execute(ExecutorInput::Tick { elapsed: secs(11) }),
        ExecutorOutput { stats: None, action: ExecutorAction::Poll }
    );
}

#[test]
fn a_step_that_failed_is_recorded_and_tried_again() {
    let mut executor = limit_executor("5 minutes");
    executor.execute(start());
    executor.execute(ExecutorInput::Step { result: ok(false, "too high", 0), elapsed: secs(1) });
    assert_eq!(
        executor.execute(ExecutorInput::Step {
            result: Err(SolverError::ExecError("no route".to_string())),
            elapsed: secs(2),
        }),
        ExecutorOutput {
            stats: Some(record(
                77,
                LIMIT,
                Status::Running,
                TransactionStatus::StepFailed,
                "Execution error, no route",
                secs(2),
                secs(298)
            )),
            action: ExecutorAction::Sleep,
        }
    );
    assert_eq!(executor.state, ExecutorState::Polling);
    assert_eq!(executor.last_message, "too high");
    assert_eq!(executor.last_transaction_status, TransactionStatus::StepFailed);
}

#[test]
fn the_deadline_ends_the_polling_with_the_last_message() {
    let mut executor = limit_executor("5 minutes");
    executor.execute(start());
    executor.execute(ExecutorInput::Step { result: ok(false, "too high", 0), elapsed: secs(1) });
    assert_eq!(
        executor.execute(ExecutorInput::Tick { elapsed: TimeSpan::new(299, 999_999_999) }),
        ExecutorOutput { stats: None, action: ExecutorAction::Poll }
    );
    assert_eq!(
        executor.execute(ExecutorInput::Tick { elapsed: secs(300) }),
        ExecutorOutput {
            stats: Some(record(
                77,
                LIMIT,
                Status::Timeout,
                TransactionStatus::StepPending,
                "too high",
                secs(300),
                secs(0)
            )),
            action: ExecutorAction::Stop,
        }
    );
    assert_eq!(executor.state, ExecutorState::Timeout);
    // A terminal state takes nothing more.
    assert_eq!(
        executor.execute(ExecutorInput::Step { result: ok(true, "m", 0), elapsed: secs(301) }),
        ExecutorOutput { stats: None, action: ExecutorAction::Stop }
    );
    assert_eq!(executor.execute(start()), ExecutorOutput { stats: None, action: ExecutorAction::Stop });
    assert_eq!(executor.state, ExecutorState::Timeout);
}

#[test]
fn a_met_condition_leads_to_the_commit() {
    let mut executor = limit_executor("5 minutes");
    executor.execute(start());
    assert_eq!(
        executor.execute(ExecutorInput::Step { result: ok(true, "met", 0), elapsed: secs(3) }),
        ExecutorOutput {
            stats: Some(record(
                77,
                LIMIT,
                Status::Running,
                TransactionStatus::TransactionPending,
                "met",
                secs(3),
                secs(297)
            )),
            action: ExecutorAction::Commit,
        }
    );
    assert_eq!(executor.state, ExecutorState::Committing);
    // While the commit is under way, nothing but its result is taken.
    assert_eq!(
        executor.execute(ExecutorInput::Tick { elapsed: secs(400) }),
        ExecutorOutput { stats: None, action: ExecutorAction::Commit }
    );
    assert_eq!(
        executor.execute(ExecutorInput::Step { result: ok(true, "met", 0), elapsed: secs(4) }),
        ExecutorOutput { stats: None, action: ExecutorAction::Commit }
    );
    assert_eq!(executor.state, ExecutorState::Committing);
    assert_eq!(
        executor.execute(ExecutorInput::Commit {
            result: ok(true, "Transaction status: 1", 0),
            elapsed: secs(5),
        }),
        ExecutorOutput {
            stats: Some(record(
                77,
                LIMIT,
                Status::Succeeded,
                TransactionStatus::Succeeded,
                "Transaction status: 1",
                secs(5),
                secs(0)
            )),
            action: ExecutorAction::Stop,
        }
    );
    assert_eq!(executor.state, ExecutorState::Succeeded);
}

#[test]
fn a_retrying_policy_goes_back_to_polling_after_a_failed_commit() {
    let mut executor = limit_executor("5 minutes");
    executor.execute(start());
    executor.execute(ExecutorInput::Step { result: ok(true, "met", 0), elapsed: secs(3) });
    assert_eq!(
        executor.execute(ExecutorInput::Commit {
            result: ok(false, "Transaction status: 0", 0),
            elapsed: secs(5),
        }),
        ExecutorOutput {
            stats: Some(record(
                77,
                LIMIT,
                Status::Running,
                TransactionStatus::TransactionPending,
                "Transaction status: 0",
                secs(5),
                secs(295)
            )),
            action: ExecutorAction::Sleep,
        }
    );
    assert_eq!(executor.state, ExecutorState::Polling);
    executor.execute(ExecutorInput::Tick { elapsed: secs(6) });
    executor.execute(ExecutorInput::Step { result: ok(true, "met", 0), elapsed: secs(6) });
    assert_eq!(
        executor.execute(ExecutorInput::Commit {
            result: Err(SolverError::ExecError("reverted".to_string())),
            elapsed: secs(7),
        }),
        ExecutorOutput {
            stats: Some(record(
                77,
                LIMIT,
                Status::Running,
                TransactionStatus::TransactionFailed,
                "Execution error, reverted",
                secs(7),
                secs(293)
            )),
            action: ExecutorAction::Sleep,
        }
    );
    assert_eq!(executor.state, ExecutorState::Polling);
    assert_eq!(
        executor.execute(ExecutorInput::Tick { elapsed: secs(300) }),
        ExecutorOutput {
            stats: Some(record(
                77,
                LIMIT,
                Status::Timeout,
                TransactionStatus::TransactionFailed,
                "met",
                secs(300),
                secs(0)
            )),
            action: ExecutorAction::Stop,
        }
    );
}

#[test]
fn a_policy_that_does_not_retry_fails_after_a_failed_commit() {
    for failed in [ok(false, "Transaction status: 0", 0), Err(SolverError::ExecError("x".to_string()))]
    {
        let message = match &failed {
            Ok(response) => response.message.clone(),
            Err(error) => error.to_string(),
        };
        let mut executor = scheduler_executor("0 * * * * *");
        assert_eq!(executor.deadline, Ok(Deadline::At(1_700_000_040)));
        assert!(!executor.retries_commit);
        assert_eq!(
            executor.execute(start()),
            ExecutorOutput { stats: None, action: ExecutorAction::Poll }
        );
        assert_eq!(
            executor.execute(ExecutorInput::Step {
                result: ok(false, "Not triggered yet", 40),
                elapsed: secs(0),
            }),
            ExecutorOutput {
                stats: Some(record(
                    78,
                    SCHEDULER,
                    Status::Running,
                    TransactionStatus::StepPending,
                    "Not triggered yet",
                    secs(0),
                    secs(40)
                )),
                action: ExecutorAction::Sleep,
            }
        );
        // A trigger time never times out by itself.
        assert_eq!(
            executor.execute(ExecutorInput::Tick { elapsed: secs(1_000_000) }),
            ExecutorOutput { stats: None, action: ExecutorAction::Poll }
        );
        assert_eq!(
            executor
                .execute(ExecutorInput::Step { result: ok(true, "Triggered", 0), elapsed: secs(41) })
                .action,
            ExecutorAction::Commit
        );
        assert_eq!(
            executor.execute(ExecutorInput::Commit { result: failed, elapsed: secs(42) }),
            ExecutorOutput {
                stats: Some(record(
                    78,
                    SCHEDULER,
                    Status::Failed,
                    TransactionStatus::TransactionFailed,
                    &message,
                    secs(42),
                    secs(0)
                )),
                action: ExecutorAction::Stop,
            }
        );
        assert_eq!(executor.state, ExecutorState::Failed);
    }
}

#[test]
fn the_frame_makes_executors_or_records_why_not() {
    let pair = |n: &str, v: &str| AdditionalData { name: n.to_string(), value: v.to_string() };
    let data = vec![
        pair("give_token", "0xaaaaaaaaaaaaaaaaaaaaaaaaaaaaaaaaaaaaaaaa"),
        pair("take_token", "0xbbbbbbbbbbbbbbbbbbbbbbbbbbbbbbbbbbbbbbbb"),
        pair("amount", "5"),
        pair("buy_price", "100"),
        pair("slippage", "3"),
        pair("time_limit", "1 minute"),
    ];
    let event = ProxyPushed {
        proxy_address: address(9),
        selector: selector(APP_SELECTOR).unwrap(),
        sequence_number: Amount::from_u64(42),
        data_values: data.clone(),
    };
    let frame = TimerExecutorFrame::new(params(), 2, 1_500_000_000);
    assert_eq!(frame.tick_duration, TimeSpan { secs: 3, nanos: 500_000_000 });
    let made = frame.start_executor(&event, TimeSpan::from_secs(9), 5).unwrap();
    assert_eq!(made.sequence_number, 42);
    assert_eq!(made.params, data);
    assert_eq!(made.executor.id, 5);
    assert_eq!(made.executor.creation_time, TimeSpan::from_secs(9));
    assert_eq!(made.executor.tick_duration, TimeSpan { secs: 3, nanos: 500_000_000 });
    assert_eq!(made.executor.state, ExecutorState::Created);
    assert_eq!(made.executor.solver.time_limit, secs(60));
    assert_eq!(made.executor.solver.buy_price, Amount::from_u64(100));
    assert_eq!(
        made.executor.solver.release,
        Some(stxn_solver::solvers::limit_order::Release {
            proxy_address: address(9),
            sequence_number: Amount::from_u64(42),
        })
    );

    let failure = |event: &ProxyPushed, sequence_number: u32, message: &str| TimerExecutorStats {
        id: 6,
        sequence_number,
        app: String::new(),
        creation_time: TimeSpan::from_secs(9),
        status: Status::Failed,
        transaction_status: TransactionStatus::NotExecuted,
        message: message.to_string(),
        params: event.data_values.clone(),
        elapsed: secs(0),
        remaining: secs(0),
    };
    let mut missing = event.clone();
    missing.data_values.truncate(1);
    assert_eq!(
        frame.start_executor(&missing, TimeSpan::from_secs(9), 6).unwrap_err(),
        failure(
            &missing,
            42,
            "Parameter error, \"Error in the parameter take_token: missing or malformed\""
        )
    );
    let mut other = event.clone();
    other.selector = stxn_solver::primitives::Hash32 { bytes: [0x5A; 32] };
    assert_eq!(
        frame.start_executor(&other, TimeSpan::from_secs(9), 6).unwrap_err(),
        failure(&other, 42, "UnknownSelector: 0x5a5a…5a5a")
    );
    let mut far = event.clone();
    far.sequence_number = Amount { w0: 0, w1: 1, w2: 0, w3: 0 };
    assert_eq!(
        frame.start_executor(&far, TimeSpan::from_secs(9), 6).unwrap_err(),
        failure(&far, 0, "Parameter error, \"sequence number out of range\"")
    );
}
