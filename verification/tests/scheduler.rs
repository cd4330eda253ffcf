use mcping::connection::{Connection, State, MAX_TICKS_SKIPPED};
use mcping::error::Error;
use mcping::scheduler::{
    classify, keep_after_first_contact, Scheduler, SchedulerAction, TICK_SLEEP_TIME,
};
use mcping::write::{write_string, write_var_int};

const JSON: &str = "{\"version\":{\"name\":\"1.19.3\",\"protocol\":761}}";

fn handshake_bytes(next_state: u64) -> Vec<u8> {
    let mut payload = Vec::new();
    write_var_int(&mut payload, 761);
    write_string(&mut payload, "localhost");
    payload.extend_from_slice(&25565u16.to_be_bytes());
    write_var_int(&mut payload, next_state);
    let mut out = Vec::new();
    write_var_int(&mut out, 1 + payload.len() as u64);
    write_var_int(&mut out, 0);
    out.extend_from_slice(&payload);
    out
}

fn ping_bytes(payload: u64) -> Vec<u8> {
    let mut out = vec![0x09u8, 0x01];
    out.extend_from_slice(&payload.to_be_bytes());
    out
}

fn scheduler_with_status_connection() -> Scheduler {
    let mut scheduler = Scheduler::new();
    scheduler.add_connection(Connection::new());
    let report = scheduler.tick_connection(0, &handshake_bytes(1), JSON);
    assert!(!report.evicted);
    assert_eq!(scheduler.connection_state(0), State::Status);
    scheduler
}

#[test]
fn classification_table() {
    assert_eq!(classify(&Ok(())), SchedulerAction::Keep);
    assert_eq!(classify(&Err(Error::NoPacketToReceive)), SchedulerAction::Keep);
    assert_eq!(classify(&Err(Error::ConnectionAborted("done"))), SchedulerAction::Evict);
    assert_eq!(classify(&Err(Error::TimedOut)), SchedulerAction::Evict);
    assert_eq!(classify(&Err(Error::IO)), SchedulerAction::KeepAndReport);
    assert_eq!(classify(&Err(Error::VarIntTooBig)), SchedulerAction::KeepAndReport);
    assert_eq!(
        classify(&Err(Error::UnknownPacket(State::Status, 2))),
        SchedulerAction::KeepAndReport
    );
}

#[test]
fn first_contact_admission() {
    assert!(keep_after_first_contact(&Ok(())));
    assert!(keep_after_first_contact(&Err(Error::NoPacketToReceive)));
    assert!(!keep_after_first_contact(&Err(Error::IO)));
    assert!(!keep_after_first_contact(&Err(Error::UnknownNextState(9))));
}

#[test]
fn status_request_keeps_connection_in_live_set() {
    let mut scheduler = scheduler_with_status_connection();
    let report = scheduler.tick_connection(0, &[0x01, 0x00], JSON);
    assert!(!report.evicted);
    assert_eq!(report.error, None);
    assert_eq!(scheduler.connection_count(), 1);
    let mut expected = Vec::new();
    let mut string_field = Vec::new();
    write_string(&mut string_field, JSON);
    write_var_int(&mut expected, 1 + string_field.len() as u64);
    write_var_int(&mut expected, 0);
    expected.extend_from_slice(&string_field);
    assert_eq!(report.output, expected);
}

#[test]
fn ping_evicts_connection_after_pong_is_produced() {
    let mut scheduler = scheduler_with_status_connection();
    let report = scheduler.tick_connection(0, &ping_bytes(12345), JSON);
    assert!(report.evicted);
    assert_eq!(report.error, None);
    assert_eq!(scheduler.connection_count(), 0);
    let mut expected = vec![0x09u8, 0x01];
    expected.extend_from_slice(&12345u64.to_be_bytes());
    assert_eq!(report.output, expected);
}

#[test]
fn unknown_id_is_reported_and_kept() {
    let mut scheduler = scheduler_with_status_connection();
    let report = scheduler.tick_connection(0, &[0x01, 0x02], JSON);
    assert!(!report.evicted);
    assert_eq!(report.error, Some(Error::UnknownPacket(State::Status, 2)));
    assert_eq!(scheduler.connection_count(), 1);
    assert_eq!(scheduler.connection_skipped_ticks(0), 1);
}

#[test]
fn hundred_empty_ticks_evict_with_timeout() {
    let mut scheduler = scheduler_with_status_connection();
    for tick in 1..MAX_TICKS_SKIPPED {
        let report = scheduler.tick_connection(0, &[], JSON);
        assert!(!report.evicted, "evicted early on tick {}", tick);
        assert_eq!(report.error, None);
        assert_eq!(scheduler.connection_skipped_ticks(0), tick);
    }
    let report = scheduler.tick_connection(0, &[], JSON);
    assert!(report.evicted);
    assert_eq!(report.error, None);
    assert_eq!(scheduler.connection_count(), 0);
}

#[test]
fn eviction_preserves_the_other_connections() {
    let mut scheduler = Scheduler::new();
    scheduler.add_connection(Connection::new());
    scheduler.add_connection(Connection::new());
    scheduler.add_connection(Connection::new());
    scheduler.tick_connection(1, &handshake_bytes(1), JSON);
    let report = scheduler.tick_connection(1, &ping_bytes(1), JSON);
    assert!(report.evicted);
    assert_eq!(scheduler.connection_count(), 2);
    assert_eq!(scheduler.connection_state(0), State::Handshake);
    assert_eq!(scheduler.connection_state(1), State::Handshake);
}

#[test]
fn pacing_sleeps_the_remainder_of_the_period() {
    let mut scheduler = Scheduler::new();
    assert_eq!(scheduler.pass_sleep(10), TICK_SLEEP_TIME - 10);
    assert_eq!(scheduler.pass_sleep(0), TICK_SLEEP_TIME);
}

#[test]
fn pacing_overrun_sleeps_zero_and_carries_the_debt() {
    let mut scheduler = Scheduler::new();
    assert_eq!(scheduler.pass_sleep(60), 0);
    assert_eq!(scheduler.pass_sleep(45), 0);
    assert_eq!(scheduler.pass_sleep(40), 5);
    assert_eq!(scheduler.pass_sleep(50), 0);
    assert_eq!(scheduler.pass_sleep(49), 1);
}
