use dao_emissions::error::ErrorCode;
use dao_emissions::schedule::{EmissionSchedule, EmissionScheduleItem};

fn item(start_unix_ts: i64, emissions_per_epoch: u64) -> EmissionScheduleItem {
    EmissionScheduleItem { start_unix_ts, emissions_per_epoch }
}

fn two_step_schedule() -> EmissionSchedule {
    EmissionSchedule::new(vec![item(0, 100), item(1000, 50)]).unwrap()
}

#[test]
fn rate_between_entries_comes_from_the_earlier_one() {
    let s = two_step_schedule();
    assert_eq!(s.rate_at(500), Ok(100));
}

#[test]
fn rate_after_last_entry_comes_from_it() {
    let s = two_step_schedule();
    assert_eq!(s.rate_at(1500), Ok(50));
}

#[test]
fn rate_before_all_entries_is_refused() {
    let s = two_step_schedule();
    assert_eq!(s.rate_at(-1), Err(ErrorCode::NoEmissionsScheduled));
}

#[test]
fn rate_at_entry_boundaries() {
    let s = two_step_schedule();
    assert_eq!(s.rate_at(0), Ok(100));
    assert_eq!(s.rate_at(999), Ok(100));
    assert_eq!(s.rate_at(1000), Ok(50));
}

#[test]
fn empty_schedule_has_no_rate() {
    let s = EmissionSchedule::new(Vec::new()).unwrap();
    assert_eq!(s.len(), 0);
    assert_eq!(s.rate_at(0), Err(ErrorCode::NoEmissionsScheduled));
}

#[test]
fn unordered_schedule_is_refused() {
    let r = EmissionSchedule::new(vec![item(1000, 50), item(0, 100)]);
    assert_eq!(r.err(), Some(ErrorCode::InvalidSchedule));
}

#[test]
fn equal_start_times_are_refused() {
    let r = EmissionSchedule::new(vec![item(0, 100), item(0, 50)]);
    assert_eq!(r.err(), Some(ErrorCode::InvalidSchedule));
}

#[test]
fn single_entry_schedule() {
    let s = EmissionSchedule::new(vec![item(-50, 7)]).unwrap();
    assert_eq!(s.rate_at(-50), Ok(7));
    assert_eq!(s.rate_at(i64::MAX), Ok(7));
    assert_eq!(s.rate_at(-51), Err(ErrorCode::NoEmissionsScheduled));
    assert_eq!(s.item_at(0), item(-50, 7));
}
