use stxn_solver::flash_liquidity::{FlashLiquidityParams, FlashLiquidityStats, TimerExecutor};
use stxn_solver::primitives::TimeSpan;
use stxn_solver::stats::{
    clone_params, filter_passes, get_stats_json, run_stats_receive, ExecStatus, StatsMap, Status,
    TimerExecutorStats, TransactionStatus,
};
use stxn_solver::contracts_abi::AdditionalData;

fn record(id: u128, created: u64, status: Status, message: &str) -> TimerExecutorStats {
    TimerExecutorStats {
        id,
        sequence_number: id as u32,
        app: "APP".to_string(),
        creation_time: TimeSpan::from_secs(created),
        status,
        transaction_status: TransactionStatus::StepPending,
        message: message.to_string(),
        params: vec![AdditionalData { name: "k".to_string(), value: "v".to_string() }],
        elapsed: TimeSpan::from_secs(1),
        remaining: TimeSpan::from_secs(2),
    }
}

#[test]
fn the_latest_record_of_an_executor_wins() {
    let mut map = StatsMap::new();
    map.insert(record(1, 10, Status::Running, "first"));
    map.insert(record(2, 20, Status::Running, "other"));
    map.insert(record(1, 10, Status::Succeeded, "second"));
    assert_eq!(
        map.records,
        vec![record(1, 10, Status::Succeeded, "second"), record(2, 20, Status::Running, "other")]
    );
}

#[test]
fn records_come_out_in_the_order_of_creation() {
    let mut map = StatsMap::new();
    run_stats_receive(vec![
        record(3, 30, Status::Running, "c"),
        record(1, 10, Status::Failed, "a"),
        record(4, 10, Status::Timeout, "d"),
        record(2, 20, Status::Succeeded, "b"),
        record(3, 30, Status::Timeout, "c2"),
    ], &mut map);
    assert_eq!(
        get_stats_json(&map, &vec![]),
        vec![
            record(1, 10, Status::Failed, "a"),
            record(4, 10, Status::Timeout, "d"),
            record(2, 20, Status::Succeeded, "b"),
            record(3, 30, Status::Timeout, "c2"),
        ]
    );
    // A record that comes with another creation time moves to its place.
    map.insert(record(1, 25, Status::Running, "moved"));
    assert_eq!(
        get_stats_json(&map, &vec![]),
        vec![
            record(4, 10, Status::Timeout, "d"),
            record(2, 20, Status::Succeeded, "b"),
            record(1, 25, Status::Running, "moved"),
            record(3, 30, Status::Timeout, "c2"),
        ]
    );
}

#[test]
fn a_filter_lets_the_listed_statuses_pass() {
    let mut map = StatsMap::new();
    run_stats_receive(vec![
        record(1, 10, Status::Failed, "a"),
        record(2, 20, Status::Succeeded, "b"),
        record(3, 30, Status::Timeout, "c"),
        record(4, 40, Status::Running, "d"),
    ], &mut map);
    assert_eq!(
        get_stats_json(&map, &vec![Status::Running]),
        vec![record(4, 40, Status::Running, "d")]
    );
    assert_eq!(
        get_stats_json(&map, &vec![Status::Timeout, Status::Failed]),
        vec![record(1, 10, Status::Failed, "a"), record(3, 30, Status::Timeout, "c")]
    );
    assert_eq!(get_stats_json(&map, &vec![]).len(), 4);
    assert_eq!(get_stats_json(&StatsMap::new(), &vec![Status::Running]), vec![]);
    assert!(filter_passes(&vec![], Status::Failed));
    assert!(filter_passes(&vec![Status::Failed], Status::Failed));
    assert!(!filter_passes(&vec![Status::Running, Status::Timeout], Status::Failed));
}

#[test]
fn receiving_nothing_changes_nothing() {
    let mut map = StatsMap::new();
    map.insert(record(1, 10, Status::Running, "a"));
    let before = map.clone();
    run_stats_receive(vec![], &mut map);
    assert_eq!(map, before);
}

#[test]
fn only_a_running_status_is_not_terminal() {
    assert!(!Status::Running.is_terminal());
    assert!(Status::Succeeded.is_terminal());
    assert!(Status::Failed.is_terminal());
    assert!(Status::Timeout.is_terminal());
}

#[test]
fn records_and_parameters_are_copied_as_they_are() {
    let r = record(1, 10, Status::Running, "a");
    assert_eq!(r.duplicate(), r);
    assert_eq!(clone_params(&r.params), r.params);
    assert_eq!(clone_params(&vec![]), vec![]);
}

#[test]
fn an_executor_with_a_time_limit_runs_until_the_limit() {
    let params = FlashLiquidityParams {
        token: "USDC".to_string(),
        price: "2500".to_string(),
        slippage: "0.5".to_string(),
        time_limit: TimeSpan::from_secs(120),
    };
    let executor = TimerExecutor::new(TimeSpan::from_secs(1), TimeSpan::from_secs(1000), 9);
    assert_eq!(
        executor.execute(&params, TimeSpan::new(30, 500)),
        FlashLiquidityStats {
            id: 9,
            creation_time: TimeSpan::from_secs(1000),
            status: ExecStatus::RUNNING,
            params: params.clone(),
            elapsed: TimeSpan::new(30, 500),
            remaining: TimeSpan::new(89, 999_999_500),
        }
    );
    for elapsed in [120u64, 121, 1_000_000] {
        assert_eq!(
            executor.execute(&params, TimeSpan::from_secs(elapsed)),
            FlashLiquidityStats {
                id: 9,
                creation_time: TimeSpan::from_secs(1000),
                status: ExecStatus::TIMEOUT,
                params: params.clone(),
                elapsed: TimeSpan::from_secs(elapsed),
                remaining: TimeSpan::zero(),
            }
        );
    }
}

#[test]
fn a_time_limit_record_is_filed_like_the_others() {
    let params = FlashLiquidityParams {
        token: "USDT".to_string(),
        price: "2503".to_string(),
        slippage: "0.31".to_string(),
        time_limit: TimeSpan::from_secs(60),
    };
    let executor = TimerExecutor::new(TimeSpan::from_secs(1), TimeSpan::from_secs(1000), 9);
    let running = executor.execute(&params, TimeSpan::from_secs(10)).to_record();
    let pair = |n: &str, v: &str| AdditionalData { name: n.to_string(), value: v.to_string() };
    assert_eq!(
        running,
        TimerExecutorStats {
            id: 9,
            sequence_number: 0,
            app: String::new(),
            creation_time: TimeSpan::from_secs(1000),
            status: Status::Running,
            transaction_status: TransactionStatus::NotExecuted,
            message: String::new(),
            params: vec![pair("token", "USDT"), pair("price", "2503"), pair("slippage", "0.31")],
            elapsed: TimeSpan::from_secs(10),
            remaining: TimeSpan::from_secs(50),
        }
    );
    let timed_out = executor.execute(&params, TimeSpan::from_secs(60)).to_record();
    assert_eq!(timed_out.status, Status::Timeout);
    let mut map = StatsMap::new();
    run_stats_receive(vec![running, timed_out.duplicate()], &mut map);
    assert_eq!(get_stats_json(&map, &vec![Status::Running]), vec![]);
    assert_eq!(get_stats_json(&map, &vec![]), vec![timed_out]);
}
