use stxn_solver::codec::selector;
use stxn_solver::call_breaker_listener::{CallBreakerListener, SolverEntry};
use stxn_solver::contracts_abi::{
    AdditionalData, CallObject, CallPushed, MevTimeData, TxOutcome, UserObjectivePushed,
};
use stxn_solver::guard::TransactionGuard;
use stxn_solver::laminator_listener::LaminatorListener;
use stxn_solver::primitives::{Address, Amount, TimeSpan};
use stxn_solver::reports_aggr::{aggregate_report, Report, ReportsLedger};
use stxn_solver::solver::{ContractAddress, SolverParams};
use stxn_solver::solvers::limit_order::APP_SELECTOR;
use stxn_solver::stats::{
    get_stats_json, StatsMap, Status, TimerExecutorStats, TransactionStatus,
};
use stxn_solver::timer_executor::{ExecutorAction, ExecutorInput, ExecutorState};

const NOW: u64 = 1_700_000_000;

fn address(n: u8) -> Address {
    Address { bytes: [n; 20] }
}

fn params() -> SolverParams {
    SolverParams {
        call_breaker_address: address(1),
        solver_address: address(2),
        extra_contract_addresses: vec![
            ContractAddress { name: "FLASH_LOAN".to_string(), address: address(3) },
            ContractAddress { name: "SWAP_POOL".to_string(), address: address(4) },
        ],
        give_liquidity: 1000,
        take_liquidity: 100,
        with_flash_loan: false,
    }
}

fn word(n: u64) -> Vec<u8> {
    let mut out = vec![0u8; 24];
    out.extend_from_slice(&n.to_be_bytes());
    out
}

fn abi_string(text: &str) -> Vec<u8> {
    let mut out = word(32);
    out.extend_from_slice(&word(text.len() as u64));
    out.extend_from_slice(text.as_bytes());
    while out.len() % 32 != 0 {
        out.push(0);
    }
    out
}

/// The scheduled batch from the event to the final record: the first poll
/// at the trigger time finds a ledger with entries, the commit is made once,
/// its receipt says success, and the ledger is empty afterwards.
#[test]
fn a_scheduled_batch_is_paid_out_once() {
    let mut listener =
        LaminatorListener::new(address(20), address(21), params(), TimeSpan::from_secs(1), None, 10);
    let call = |addr| CallObject {
        amount: Amount::zero(),
        addr,
        gas: Amount::from_u64(1),
        callvalue: vec![],
    };
    let event = CallPushed {
        call_objs: vec![call(address(21)), call(address(22)), call(address(23))],
        sequence_number: Amount::from_u64(3),
        data: vec![AdditionalData { name: "CRON".to_string(), value: "0 * * * * *".to_string() }],
    };
    let mut ledger = ReportsLedger::new();
    aggregate_report(&mut ledger, Report {
            account: address(50),
            amount: Amount::from_u64(5),
            schedule_key: None,
        });
    let mut guard = TransactionGuard::new();
    let mut stats = StatsMap::new();
    let mut emitted: Vec<TimerExecutorStats> = Vec::new();

    let spawn = listener.listen(event, NOW, TimeSpan::from_secs(NOW), 1).unwrap();
    let mut executor = spawn.executor;
    let mut output = executor.execute(ExecutorInput::Start {
        sequence_number: spawn.sequence_number,
        params: spawn.params,
    });
    let mut clock = NOW + 40; // the next minute boundary
    let mut commits = 0;
    let mut polls = 0;
    while output.action != ExecutorAction::Stop {
        let elapsed = TimeSpan::from_secs(clock - NOW);
        output = match output.action {
            ExecutorAction::Poll => {
                polls += 1;
                let result = executor.solver.exec_solver_step(&Ok(clock), &ledger);
                executor.execute(ExecutorInput::Step { result, elapsed })
            }
            ExecutorAction::Commit => {
                commits += 1;
                let plan =
                    executor.solver.begin_commit(&mut ledger, &mut guard, executor.id).unwrap();
                assert_eq!(plan.disbursals.len(), 1);
                assert!(guard.is_held());
                let result = executor.solver.final_exec(
                    &mut ledger,
                    &mut guard,
                    executor.id,
                    &TxOutcome::Status(1),
                );
                executor.execute(ExecutorInput::Commit { result, elapsed })
            }
            ExecutorAction::Sleep => {
                clock += 1;
                executor.execute(ExecutorInput::Tick { elapsed: TimeSpan::from_secs(clock - NOW) })
            }
            ExecutorAction::Stop => unreachable!(),
        };
        if let Some(record) = &output.stats {
            emitted.push(record.duplicate());
            stats.insert(record.duplicate());
        }
    }
    assert_eq!(polls, 1);
    assert_eq!(commits, 1);
    assert_eq!(executor.state, ExecutorState::Succeeded);
    assert_eq!(ledger, ReportsLedger::new());
    assert!(!guard.is_held());
    assert_eq!(emitted.len(), 2);
    assert_eq!(emitted[0].status, Status::Running);
    assert_eq!(emitted[0].transaction_status, TransactionStatus::TransactionPending);
    assert_eq!(emitted[0].message, "Triggered at 2023-11-14 22:14:00 UTC");
    let last = emitted.last().unwrap();
    assert_eq!(last.status, Status::Succeeded);
    assert_eq!(last.transaction_status, TransactionStatus::Succeeded);
    assert_eq!(last.message, "Transaction status: 1");
    assert_eq!(last.sequence_number, 3);
    assert_eq!(last.app, "CLEANAPP.SCHEDULER");
    assert_eq!(get_stats_json(&stats, &vec![Status::Succeeded]), vec![last.duplicate()]);
    assert_eq!(get_stats_json(&stats, &vec![Status::Running]), vec![]);
}

/// The limit order with a price asked for of 100, and price readings of
/// 120, 120 and 95: two records say that the step is pending before the
/// tick that triggers.
#[test]
fn a_limit_order_waits_for_its_price() {
    let listener = CallBreakerListener::new(
        address(1),
        vec![SolverEntry { app_id: selector(APP_SELECTOR).unwrap(), params: params() }],
        TimeSpan::from_secs(1),
    );
    let entry = |name: &str, value: Vec<u8>| MevTimeData { key: selector(name).unwrap(), value };
    let event = UserObjectivePushed {
        app_id: selector(APP_SELECTOR).unwrap(),
        sequence_number: Amount::from_u64(8),
        mev_time_data: vec![
            entry("give_token", vec![0xAA; 20]),
            entry("take_token", vec![0xBB; 20]),
            entry("buy_price", word(100)),
            entry("slippage", word(3)),
            entry("time_limit", abi_string("1 minute")),
        ],
    };
    let spawn = listener.listen(&event, TimeSpan::from_secs(NOW), 2).unwrap();
    let mut executor = spawn.executor;
    let mut output = executor.execute(ExecutorInput::Start {
        sequence_number: spawn.sequence_number,
        params: spawn.params,
    });
    let prices = [120u64, 120, 95];
    let mut tick = 0usize;
    let mut emitted: Vec<TimerExecutorStats> = Vec::new();
    let mut commits = 0;
    while output.action != ExecutorAction::Stop {
        let elapsed = TimeSpan::from_secs(tick as u64);
        output = match output.action {
            ExecutorAction::Poll => {
                let result =
                    executor.solver.exec_solver_step(&Ok(Amount::from_u64(prices[tick])));
                executor.execute(ExecutorInput::Step { result, elapsed })
            }
            ExecutorAction::Commit => {
                commits += 1;
                let mut guard = TransactionGuard::new();
                assert!(executor.solver.begin_commit(&mut guard, executor.id).is_some());
                let result =
                    executor.solver.final_exec(&mut guard, executor.id, &TxOutcome::Status(1));
                assert!(!guard.is_held());
                executor.execute(ExecutorInput::Commit { result, elapsed })
            }
            ExecutorAction::Sleep => {
                tick += 1;
                executor.execute(ExecutorInput::Tick { elapsed: TimeSpan::from_secs(tick as u64) })
            }
            ExecutorAction::Stop => unreachable!(),
        };
        if let Some(record) = &output.stats {
            emitted.push(record.duplicate());
        }
    }
    assert_eq!(tick, 2);
    assert_eq!(commits, 1);
    let kinds: Vec<(Status, TransactionStatus)> =
        emitted.iter().map(|r| (r.status, r.transaction_status)).collect();
    assert_eq!(
        kinds,
        vec![
            (Status::Running, TransactionStatus::StepPending),
            (Status::Running, TransactionStatus::StepPending),
            (Status::Running, TransactionStatus::TransactionPending),
            (Status::Succeeded, TransactionStatus::Succeeded),
        ]
    );
    assert_eq!(emitted[0].message, "The current price 120 is higher than the desired 100");
    assert_eq!(emitted[0].remaining, TimeSpan::from_secs(60));
    assert_eq!(emitted[1].remaining, TimeSpan::from_secs(59));
    assert_eq!(emitted[2].message, "Price conditions are met");
    assert_eq!(emitted[2].remaining, TimeSpan::from_secs(58));
    assert_eq!(emitted[3].remaining, TimeSpan::zero());
    assert_eq!(executor.state, ExecutorState::Succeeded);
}

/// A limit order whose price never comes times out at its limit.
#[test]
fn a_limit_order_times_out_when_the_price_stays_high() {
    let listener = CallBreakerListener::new(
        address(1),
        vec![SolverEntry { app_id: selector(APP_SELECTOR).unwrap(), params: params() }],
        TimeSpan::from_secs(1),
    );
    let entry = |name: &str, value: Vec<u8>| MevTimeData { key: selector(name).unwrap(), value };
    let event = UserObjectivePushed {
        app_id: selector(APP_SELECTOR).unwrap(),
        sequence_number: Amount::from_u64(8),
        mev_time_data: vec![
            entry("give_token", vec![0xAA; 20]),
            entry("take_token", vec![0xBB; 20]),
            entry("buy_price", word(100)),
            entry("slippage", word(3)),
            entry("time_limit", abi_string("3s")),
        ],
    };
    let spawn = listener.listen(&event, TimeSpan::from_secs(NOW), 2).unwrap();
    let mut executor = spawn.executor;
    let mut output = executor.execute(ExecutorInput::Start {
        sequence_number: spawn.sequence_number,
        params: spawn.params,
    });
    let mut tick = 0u64;
    let mut statuses = Vec::new();
    while output.action != ExecutorAction::Stop {
        output = match output.action {
            ExecutorAction::Poll => {
                let result = executor.solver.exec_solver_step(&Ok(Amount::from_u64(120)));
                executor.execute(ExecutorInput::Step { result, elapsed: TimeSpan::from_secs(tick) })
            }
            ExecutorAction::Sleep => {
                tick += 1;
                executor.execute(ExecutorInput::Tick { elapsed: TimeSpan::from_secs(tick) })
            }
            _ => unreachable!(),
        };
        if let Some(record) = &output.stats {
            statuses.push((record.status, record.transaction_status));
        }
    }
    assert_eq!(tick, 3);
    assert_eq!(
        statuses,
        vec![
            (Status::Running, TransactionStatus::StepPending),
            (Status::Running, TransactionStatus::StepPending),
            (Status::Running, TransactionStatus::StepPending),
            (Status::Timeout, TransactionStatus::StepPending),
        ]
    );
    assert_eq!(executor.state, ExecutorState::Timeout);
}
