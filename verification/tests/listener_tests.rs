use stxn_solver::call_breaker_listener::{audit_params, CallBreakerListener, SolverEntry};
use stxn_solver::codec::selector;
use stxn_solver::contracts_abi::{
    AdditionalData, CallObject, CallPushed, MevTimeData, UserObjectivePushed,
};
use stxn_solver::laminator_listener::{find_cron, LaminatorListener};
use stxn_solver::primitives::{Address, Amount, TimeSpan};
use stxn_solver::solver::{ContractAddress, SolverParams};
use stxn_solver::solvers::limit_order::APP_SELECTOR;
use stxn_solver::timer_executor::ExecutorState;

const NOW: u64 = 1_700_000_000;

fn address(n: u8) -> Address {
    Address { bytes: [n; 20] }
}

fn params() -> SolverParams {
    SolverParams {
        call_breaker_address: address(1),
        solver_address: address(2),
        extra_contract_addresses: vec![
            ContractAddress { name: "FLASH_LOAN".to_string(), address: address(3) },
            ContractAddress { name: "SWAP_POOL".to_string(), address: address(4) },
        ],
        give_liquidity: 1000,
        take_liquidity: 100,
        with_flash_loan: false,
    }
}

fn call(addr: Address) -> CallObject {
    CallObject { amount: Amount::zero(), addr, gas: Amount::from_u64(1), callvalue: vec![] }
}

fn data(pairs: &[(&str, &str)]) -> Vec<AdditionalData> {
    pairs
        .iter()
        .map(|(n, v)| AdditionalData { name: n.to_string(), value: v.to_string() })
        .collect()
}

fn pushed(first: Address, calls: usize, seq: u64, pairs: &[(&str, &str)]) -> CallPushed {
    let mut call_objs = vec![call(first)];
    while call_objs.len() < calls {
        call_objs.push(call(address(99)));
    }
    call_objs.truncate(calls);
    CallPushed { call_objs, sequence_number: Amount::from_u64(seq), data: data(pairs) }
}

fn listener() -> LaminatorListener {
    LaminatorListener::new(address(20), address(21), params(), TimeSpan::from_secs(1), None, 10)
}

#[test]
fn only_events_that_queue_a_disbursement_are_admitted() {
    let l = listener();
    assert!(l.is_cleanapp_event(&pushed(address(21), 3, 1, &[])));
    assert!(!l.is_cleanapp_event(&pushed(address(22), 3, 1, &[])));
    assert!(!l.is_cleanapp_event(&pushed(address(21), 2, 1, &[])));
    assert!(!l.is_cleanapp_event(&pushed(address(21), 4, 1, &[])));
    assert!(!l.is_cleanapp_event(&CallPushed {
        call_objs: vec![],
        sequence_number: Amount::zero(),
        data: vec![],
    }));
}

#[test]
fn the_cron_expression_is_the_last_value_called_cron() {
    assert_eq!(find_cron(&data(&[("CRON", "a"), ("X", "b"), ("CRON", "c")])), "c");
    assert_eq!(find_cron(&data(&[("cron", "a")])), "");
    assert_eq!(find_cron(&vec![]), "");
}

#[test]
fn an_admitted_event_with_a_schedule_gets_an_executor() {
    let mut l = listener();
    let event = pushed(address(21), 3, 5, &[("CRON", "0 * * * * *"), ("NOTE", "n")]);
    let spawn = l.listen(event.clone(), NOW, TimeSpan::from_secs(NOW), 1).unwrap();
    assert_eq!(spawn.sequence_number, 5);
    assert_eq!(spawn.params, event.data);
    assert_eq!(spawn.executor.id, 1);
    assert_eq!(spawn.executor.state, ExecutorState::Created);
    assert_eq!(spawn.executor.app, "CLEANAPP.SCHEDULER");
    assert_eq!(spawn.executor.solver.trigger_time, Ok(1_700_000_040));
    assert_eq!(spawn.executor.solver.sequence_number, Amount::from_u64(5));
    assert_eq!(spawn.executor.solver.proxy_address, address(20));
    assert_eq!(spawn.executor.solver.kitn_disbursement_scheduler_address, address(21));
    assert_eq!(l.params, event.data);
}

#[test]
fn an_event_without_parameters_runs_with_the_kept_ones() {
    let mut l = listener();
    let first = pushed(address(21), 3, 5, &[("CRON", "0 * * * * *")]);
    assert!(l.listen(first.clone(), NOW, TimeSpan::from_secs(NOW), 1).is_some());
    let follow_up = pushed(address(21), 3, 6, &[]);
    let spawn = l.listen(follow_up, NOW + 100, TimeSpan::from_secs(NOW + 100), 2).unwrap();
    assert_eq!(spawn.sequence_number, 6);
    assert_eq!(spawn.params, first.data);
    assert_eq!(spawn.executor.solver.schedule_string, "0 * * * * *");
    assert_eq!(spawn.executor.solver.trigger_time, Ok(1_700_000_160));
    assert_eq!(l.params, first.data);
    // Parameters without a cron expression are not kept, and get no executor.
    let other = pushed(address(21), 3, 7, &[("NOTE", "n")]);
    assert!(l.listen(other, NOW, TimeSpan::from_secs(NOW), 3).is_none());
    assert_eq!(l.params, first.data);
    // A new schedule takes the place of the kept one.
    let second = pushed(address(21), 3, 8, &[("CRON", "30 * * * * *")]);
    assert!(l.listen(second.clone(), NOW, TimeSpan::from_secs(NOW), 4).is_some());
    assert_eq!(l.params, second.data);
}

#[test]
fn events_that_give_no_solver_are_dropped() {
    let mut l = listener();
    // Nothing kept yet and nothing in the event: no schedule.
    assert!(l.listen(pushed(address(21), 3, 1, &[]), NOW, TimeSpan::from_secs(NOW), 1).is_none());
    // Not admitted: skipped, and its parameters are not kept.
    let foreign = pushed(address(22), 3, 1, &[("CRON", "0 * * * * *")]);
    assert!(l.listen(foreign, NOW, TimeSpan::from_secs(NOW), 2).is_none());
    assert_eq!(l.params, vec![]);
    // What is no schedule gives no solver; the parameters are kept all the same.
    let broken = pushed(address(21), 3, 1, &[("CRON", "* * * * *")]);
    assert!(l.listen(broken.clone(), NOW, TimeSpan::from_secs(NOW), 3).is_none());
    assert_eq!(l.params, broken.data);
    // A sequence number beyond 32 bits cannot be recorded.
    let far = pushed(address(21), 3, u32::MAX as u64 + 1, &[("CRON", "0 * * * * *")]);
    assert!(l.listen(far, NOW, TimeSpan::from_secs(NOW), 4).is_none());
    let near = pushed(address(21), 3, u32::MAX as u64, &[("CRON", "0 * * * * *")]);
    assert!(l.listen(near, NOW, TimeSpan::from_secs(NOW), 5).is_some());
    // A clock beyond the calendar gives no solver.
    let late = pushed(address(21), 3, 1, &[("CRON", "0 * * * * *")]);
    assert!(l.listen(late, 8_210_266_790_400, TimeSpan::from_secs(NOW), 6).is_none());
    // A batch size of zero gives no solver.
    let mut zero = LaminatorListener::new(
        address(20),
        address(21),
        params(),
        TimeSpan::from_secs(1),
        None,
        0,
    );
    let event = pushed(address(21), 3, 1, &[("CRON", "0 * * * * *")]);
    assert!(zero.listen(event, NOW, TimeSpan::from_secs(NOW), 7).is_none());
}

fn word(n: u64) -> Vec<u8> {
    let mut out = vec![0u8; 24];
    out.extend_from_slice(&n.to_be_bytes());
    out
}

fn abi_string(text: &str) -> Vec<u8> {
    let mut out = word(32);
    out.extend_from_slice(&word(text.len() as u64));
    out.extend_from_slice(text.as_bytes());
    while out.len() % 32 != 0 {
        out.push(0);
    }
    out
}

fn objective(app: &str, seq: u64, with_price: bool) -> UserObjectivePushed {
    let mut mev_time_data = vec![
        MevTimeData { key: selector("give_token").unwrap(), value: vec![0xAA; 20] },
        MevTimeData { key: selector("take_token").unwrap(), value: vec![0xBB; 20] },
        MevTimeData { key: selector("slippage").unwrap(), value: word(3) },
        MevTimeData { key: selector("time_limit").unwrap(), value: abi_string("5 minutes") },
    ];
    if with_price {
        mev_time_data.push(MevTimeData { key: selector("buy_price").unwrap(), value: word(100) });
    }
    UserObjectivePushed {
        app_id: selector(app).unwrap(),
        sequence_number: Amount::from_u64(seq),
        mev_time_data,
    }
}

fn breaker_listener() -> CallBreakerListener {
    CallBreakerListener::new(
        address(1),
        vec![
            SolverEntry { app_id: selector("SOMETHING.ELSE").unwrap(), params: params() },
            SolverEntry { app_id: selector(APP_SELECTOR).unwrap(), params: params() },
        ],
        TimeSpan::from_secs(2),
    )
}

#[test]
fn events_are_routed_by_their_selector() {
    let l = breaker_listener();
    assert_eq!(l.find_entry(&selector(APP_SELECTOR).unwrap()), Some(1));
    assert_eq!(l.find_entry(&selector("SOMETHING.ELSE").unwrap()), Some(0));
    assert_eq!(l.find_entry(&selector("UNKNOWN").unwrap()), None);
    let spawn = l.listen(&objective(APP_SELECTOR, 9, true), TimeSpan::from_secs(NOW), 11).unwrap();
    assert_eq!(spawn.sequence_number, 9);
    assert_eq!(spawn.executor.id, 11);
    assert_eq!(spawn.executor.tick_duration, TimeSpan::from_secs(2));
    assert_eq!(spawn.executor.state, ExecutorState::Created);
    assert_eq!(spawn.executor.app, "FLASHLIQUIDITY.LIMITORDER");
    assert_eq!(spawn.executor.solver.buy_price, Amount::from_u64(100));
    assert!(spawn.executor.retries_commit);
}

#[test]
fn events_of_unknown_or_other_applications_get_no_executor() {
    let l = breaker_listener();
    assert!(l.listen(&objective("UNKNOWN", 9, true), TimeSpan::from_secs(NOW), 1).is_none());
    // In the table, but no limit order.
    assert!(l.listen(&objective("SOMETHING.ELSE", 9, true), TimeSpan::from_secs(NOW), 2).is_none());
}

#[test]
fn an_event_that_misses_a_parameter_gets_no_executor() {
    let l = breaker_listener();
    assert!(l.listen(&objective(APP_SELECTOR, 9, false), TimeSpan::from_secs(NOW), 1).is_none());
    let far = objective(APP_SELECTOR, u32::MAX as u64 + 1, true);
    assert!(l.listen(&far, TimeSpan::from_secs(NOW), 2).is_none());
}

#[test]
fn parameters_are_written_in_hexadecimal_for_the_records() {
    let entries = vec![
        MevTimeData { key: stxn_solver::primitives::Hash32 { bytes: [0xAB; 32] }, value: vec![0x00, 0x0F, 0xF0, 0x9a] },
        MevTimeData { key: stxn_solver::primitives::Hash32 { bytes: [0x01; 32] }, value: vec![] },
    ];
    assert_eq!(
        audit_params(&entries),
        vec![
            AdditionalData { name: "ab".repeat(32), value: "000ff09a".to_string() },
            AdditionalData { name: "01".repeat(32), value: String::new() },
        ]
    );
}
