use payroll_escrow::{Address, Error, PayrollEscrowContract, StreamData};

fn id(key: &str) -> Address {
    Address::from_str(key)
}

fn stream(rate: u64, duration: u64, total: u64, now: u64) -> StreamData {
    StreamData::start(id("from"), id("to"), rate, duration, total, now).unwrap()
}

#[test]
fn start_fills_every_field() {
    let s = stream(10, 100, 1000, 40);
    assert_eq!(
        s,
        StreamData {
            from: id("from"),
            to: id("to"),
            rate_per_sec: 10,
            start_time: 40,
            end_time: 140,
            last_withdrawal: 40,
            total_deposited: 1000,
            total_withdrawn: 0,
            active: true,
        }
    );
}

#[test]
fn start_refuses_zero_terms() {
    let start = |rate, duration, total| StreamData::start(id("from"), id("to"), rate, duration, total, 0);
    assert_eq!(start(0, 1, 1), Err(Error::InvalidAmount));
    assert_eq!(start(1, 0, 1), Err(Error::InvalidAmount));
    assert_eq!(start(1, 1, 0), Err(Error::InvalidAmount));
    assert_eq!(start(0, 0, 0), Err(Error::InvalidAmount));
    assert!(start(1, 1, 1).is_ok());
}

#[test]
fn start_does_not_compare_the_total_with_rate_times_duration() {
    let s = stream(10, 100, 5, 0);
    assert_eq!(s.total_deposited, 5);
    assert_eq!(s.end_time, 100);
    let s = stream(1, 1, u64::MAX, u64::MAX - 1);
    assert_eq!(s.end_time, u64::MAX);
}

#[test]
fn stream_scenario() {
    let mut s = stream(10, 100, 1000, 0);
    assert_eq!(s.withdraw(&id("to"), 0), Ok(0));
    assert!(s.active);
    assert_eq!(s.total_withdrawn, 0);

    assert_eq!(s.withdraw(&id("to"), 50), Ok(500));
    assert_eq!(s.total_withdrawn, 500);
    assert_eq!(s.last_withdrawal, 50);
    assert!(s.active);

    assert_eq!(s.withdraw(&id("to"), 110), Ok(500));
    assert_eq!(s.total_withdrawn, 1000);
    assert_eq!(s.last_withdrawal, 110);
    assert!(!s.active);

    assert_eq!(s.withdraw(&id("to"), 200), Err(Error::StreamInactive));
}

#[test]
fn stream_scenario_through_the_contract() {
    let mut contract = PayrollEscrowContract::initialize(id("admin"));
    assert_eq!(contract.start_stream(id("from"), id("to"), 10, 100, 1000, 0), Ok(1));
    assert_eq!(contract.withdraw_stream(1, id("to"), 0), Ok(0));
    assert!(contract.get_stream_status(1).unwrap().active);
    assert_eq!(contract.withdraw_stream(1, id("to"), 50), Ok(500));
    let status = contract.get_stream_status(1).unwrap();
    assert_eq!(status.total_withdrawn, 500);
    assert!(status.active);
    assert_eq!(contract.withdraw_stream(1, id("to"), 110), Ok(500));
    let status = contract.get_stream_status(1).unwrap();
    assert_eq!(status.total_withdrawn, 1000);
    assert!(!status.active);
    assert_eq!(contract.withdraw_stream(1, id("to"), 111), Err(Error::StreamInactive));
    assert_eq!(contract.get_stream_status(2), Err(Error::StreamNotFound));
}

#[test]
fn second_withdrawal_pays_elapsed_time_times_rate() {
    let mut s = stream(7, 1000, 1_000_000, 10);
    assert_eq!(s.withdraw(&id("to"), 13), Ok(21));
    assert_eq!(s.withdraw(&id("to"), 113), Ok(700));
    assert_eq!(s.total_withdrawn, 721);
    assert_eq!(s.withdraw(&id("to"), 114), Ok(7));
}

#[test]
fn withdrawing_twice_at_the_same_time_pays_once() {
    let mut s = stream(10, 100, 1000, 0);
    assert_eq!(s.withdraw(&id("to"), 30), Ok(300));
    let after_first = s.clone();
    assert_eq!(s.withdraw(&id("to"), 30), Ok(0));
    assert_eq!(s, after_first);
}

#[test]
fn withdrawing_twice_at_the_time_of_exhaustion_is_refused_the_second_time() {
    let mut s = stream(10, 100, 1000, 0);
    assert_eq!(s.withdraw(&id("to"), 100), Ok(1000));
    assert!(!s.active);
    let after_first = s.clone();
    assert_eq!(s.withdraw(&id("to"), 100), Err(Error::StreamInactive));
    assert_eq!(s, after_first);
}

#[test]
fn accrual_goes_on_past_the_end_time_up_to_the_cap() {
    let mut s = stream(1, 10, 100, 0);
    assert_eq!(s.end_time, 10);
    assert_eq!(s.withdraw(&id("to"), 60), Ok(60));
    assert!(s.active);
    assert_eq!(s.withdraw(&id("to"), 1000), Ok(40));
    assert!(!s.active);
}

#[test]
fn earlier_time_accrues_nothing() {
    let mut s = stream(10, 100, 1000, 50);
    let before = s.clone();
    assert_eq!(s.withdraw(&id("to"), 49), Ok(0));
    assert_eq!(s.withdraw(&id("to"), 0), Ok(0));
    assert_eq!(s, before);
}

#[test]
fn huge_accrual_is_capped_at_what_is_left() {
    let mut s = stream(u64::MAX, 1, u64::MAX, 0);
    assert_eq!(s.withdraw(&id("to"), u64::MAX), Ok(u64::MAX));
    assert!(!s.active);
    let mut s = stream(1 << 40, 1, 12345, 0);
    assert_eq!(s.withdraw(&id("to"), 1 << 40), Ok(12345));
    assert_eq!(s.total_withdrawn, 12345);
}

#[test]
fn only_the_receiver_withdraws() {
    let mut s = stream(10, 100, 1000, 0);
    let before = s.clone();
    assert_eq!(s.withdraw(&id("from"), 50), Err(Error::NotAuthorized));
    assert_eq!(s.withdraw(&id("stranger"), 50), Err(Error::NotAuthorized));
    assert_eq!(s, before);
    assert_eq!(s.withdraw(&id("to"), 50), Ok(500));
}

#[test]
fn inactive_is_reported_before_the_caller_is_looked_at() {
    let mut s = stream(10, 100, 100, 0);
    assert_eq!(s.withdraw(&id("to"), 10), Ok(100));
    assert_eq!(s.withdraw(&id("stranger"), 20), Err(Error::StreamInactive));
}

#[test]
fn withdrawn_never_decreases_nor_exceeds_the_deposit() {
    let mut s = stream(3, 100, 100, 5);
    let mut seen: u64 = 0;
    for (caller, now) in
        [("to", 5u64), ("x", 9), ("to", 9), ("to", 7), ("to", 20), ("from", 90), ("to", 30), ("to", 31), ("to", 400)]
    {
        let _ = s.withdraw(&id(caller), now);
        assert!(s.total_withdrawn >= seen);
        assert!(s.total_withdrawn <= s.total_deposited);
        assert_eq!(s.active, s.total_withdrawn < s.total_deposited);
        seen = s.total_withdrawn;
    }
    assert_eq!(s.total_withdrawn, 100);
    assert!(!s.active);
}
