use bank_of_sol::errors::ErrorCode;
use bank_of_sol::types::clock::Clock;
use bank_of_sol::types::epoch::Epoch;
use bank_of_sol::types::epoch::HOUR;

fn raw(epoch: &Epoch) -> (u64, i64, u64, bool, u64) {
    (epoch.index, epoch.timestamp, epoch.slot, epoch.above_peg, epoch.base_rate)
}

#[test]
fn hour_is_3600_seconds() {
    assert_eq!(HOUR, 3600);
}

#[test]
fn epoch_init_starts_at_index_zero() {
    let epoch = Epoch::init(&Clock { slot: 12, unix_timestamp: 1_000 });
    assert_eq!(raw(&epoch), (0, 1_000, 12, true, 0));
}

#[test]
fn epoch_advance_before_the_hour_fails() {
    let epoch = Epoch::init(&Clock { slot: 12, unix_timestamp: 1_000 });
    let early = Clock { slot: 20, unix_timestamp: 1_000 + 3_599 };
    assert_eq!(epoch.advance(&early, false, 7).unwrap_err(), ErrorCode::EpochNotAdvanceable);
    let same = Clock { slot: 12, unix_timestamp: 1_000 };
    assert_eq!(epoch.advance(&same, false, 7).unwrap_err(), ErrorCode::EpochNotAdvanceable);
    let before = Clock { slot: 1, unix_timestamp: -5 };
    assert_eq!(epoch.advance(&before, false, 7).unwrap_err(), ErrorCode::EpochNotAdvanceable);
}

#[test]
fn epoch_advance_exactly_at_the_hour_succeeds() {
    let epoch = Epoch::init(&Clock { slot: 12, unix_timestamp: 1_000 });
    let next = epoch.advance(&Clock { slot: 99, unix_timestamp: 4_600 }, false, 250_000).unwrap();
    assert_eq!(raw(&next), (1, 4_600, 99, false, 250_000));
    // The epoch advanced from is left as it was.
    assert_eq!(raw(&epoch), (0, 1_000, 12, true, 0));
}

#[test]
fn epoch_advance_after_the_hour_increments_by_one_each_time() {
    let mut epoch = Epoch::init(&Clock { slot: 0, unix_timestamp: 0 });
    for step in 1..=5i64 {
        let clock = Clock { slot: step as u64, unix_timestamp: step * 10_000 };
        epoch = epoch.advance(&clock, step % 2 == 0, step as u64).unwrap();
        assert_eq!(raw(&epoch), (step as u64, step * 10_000, step as u64, step % 2 == 0, step as u64));
    }
}

#[test]
fn epoch_advance_near_the_end_of_time_fails_without_wrapping() {
    let epoch = Epoch { index: 4, timestamp: i64::MAX - 10, slot: 1, above_peg: true, base_rate: 0 };
    let clock = Clock { slot: 2, unix_timestamp: i64::MAX };
    assert_eq!(epoch.advance(&clock, true, 0).unwrap_err(), ErrorCode::EpochNotAdvanceable);
}

#[test]
fn epoch_advance_at_the_last_index_is_an_overflow() {
    let epoch = Epoch { index: u64::MAX, timestamp: 0, slot: 1, above_peg: true, base_rate: 0 };
    let clock = Clock { slot: 2, unix_timestamp: 3_600 };
    assert_eq!(epoch.advance(&clock, true, 0).unwrap_err(), ErrorCode::MathOverflow);
    let early = Clock { slot: 2, unix_timestamp: 3_599 };
    assert_eq!(epoch.advance(&early, true, 0).unwrap_err(), ErrorCode::EpochNotAdvanceable);
}
