use usage_tracker::{
    ActivityClock, EventBridge, InputKind, TickAction, UsageAccumulator, UsageLogEntry,
    IDLE_CUTOFF_MICROS, MAX_INSTANT_MICROS, MIN_INSTANT_MICROS, MOVE_SPACING_MICROS,
};

const SEC: i64 = 1_000_000;

/// A store that refuses every append, standing in for a storage error.
fn failing_append(_entry: &UsageLogEntry) -> Result<(), String> {
    Err("disk full".to_string())
}

#[test]
fn empty_store_then_activity_counts_three_seconds() {
    let mut acc = UsageAccumulator::resume(None, 0);
    assert_eq!(acc.total(), 0);
    let mut clock = ActivityClock::new(0);
    clock.record_activity_at(0);
    clock.record_activity_at(3 * SEC);
    let action = acc.tick_at(clock.peek(), 5 * SEC);
    assert_eq!(action, TickAction::Append(3 * SEC as u64));
    assert_eq!(acc.total(), 3_000_000);
    let entry = UsageLogEntry::at(acc.total(), 5 * SEC).unwrap();
    assert_eq!(entry.total_micros, 3_000_000);
    let seconds = entry.total_micros as f64 / 1e6;
    assert!((seconds - 3.0).abs() < 1e-9);
    assert!((seconds / 3600.0 - 3.0 / 3600.0).abs() < 1e-12);
}

#[test]
fn long_idle_tick_adds_nothing() {
    let mut acc = UsageAccumulator::resume(Some(42), 0);
    let clock = ActivityClock::new(-30 * SEC);
    let action = acc.tick_at(clock.peek(), 30 * SEC);
    assert_eq!(action, TickAction::Idle);
    assert_eq!(acc.total(), 42);
    assert_eq!(acc.last_tick(), 30 * SEC);
}

#[test]
fn failed_append_keeps_in_memory_total() {
    let mut acc = UsageAccumulator::resume(None, 0);
    let action = acc.tick_at(3 * SEC, 5 * SEC);
    let total = match action {
        TickAction::Append(t) => t,
        TickAction::Idle => panic!("the tick should have counted"),
    };
    let entry = UsageLogEntry::at(total, 5 * SEC).unwrap();
    assert!(failing_append(&entry).is_err());
    assert_eq!(acc.total(), 3_000_000);
    // the next counted tick carries the whole total forward
    let action = acc.tick_at(7 * SEC, 10 * SEC);
    assert_eq!(action, TickAction::Append(5_000_000));
}

#[test]
fn gap_inside_window_adds_exactly_the_gap() {
    let mut acc = UsageAccumulator::resume(Some(1_000), 10 * SEC);
    let action = acc.tick_at(10 * SEC + 2_345_678, 15 * SEC);
    assert_eq!(acc.total(), 1_000 + 2_345_678);
    assert_eq!(action, TickAction::Append(2_346_678));
}

#[test]
fn sub_second_gap_counts() {
    let mut acc = UsageAccumulator::resume(None, 0);
    acc.tick_at(1, 5 * SEC);
    assert_eq!(acc.total(), 1);
}

#[test]
fn gap_at_cutoff_or_not_positive_adds_nothing() {
    let mut acc = UsageAccumulator::resume(Some(5), 0);
    assert_eq!(acc.tick_at(IDLE_CUTOFF_MICROS, 5 * SEC), TickAction::Idle);
    assert_eq!(acc.total(), 5);
    // last activity equal to the previous tick
    assert_eq!(acc.tick_at(5 * SEC, 10 * SEC), TickAction::Idle);
    // last activity before the previous tick
    assert_eq!(acc.tick_at(SEC, 15 * SEC), TickAction::Idle);
    assert_eq!(acc.total(), 5);
    // just under the cutoff counts
    assert_eq!(
        acc.tick_at(15 * SEC + IDLE_CUTOFF_MICROS - 1, 20 * SEC),
        TickAction::Append(5 + IDLE_CUTOFF_MICROS as u64 - 1)
    );
}

#[test]
fn total_never_decreases_over_ticks() {
    let mut acc = UsageAccumulator::resume(None, 0);
    let ticks = [(2 * SEC, 5 * SEC), (0, 10 * SEC), (12 * SEC, 15 * SEC), (40 * SEC, 20 * SEC), (21 * SEC, 25 * SEC)];
    let mut previous = acc.total();
    for (activity, now) in ticks {
        acc.tick_at(activity, now);
        assert!(acc.total() >= previous);
        previous = acc.total();
    }
    assert_eq!(acc.total(), (2 + 2 + 1) as u64 * SEC as u64);
}

#[test]
fn total_saturates_at_the_largest_value() {
    let mut acc = UsageAccumulator::resume(Some(u64::MAX - 1), 0);
    assert_eq!(acc.tick_at(5 * SEC, 5 * SEC), TickAction::Append(u64::MAX));
    assert_eq!(acc.total(), u64::MAX);
}

#[test]
fn restart_seeds_from_last_entry_or_zero() {
    let acc = UsageAccumulator::resume(Some(3_600_000_000), 0);
    assert_eq!(acc.total(), 3_600_000_000);
    let acc = UsageAccumulator::resume(None, 0);
    assert_eq!(acc.total(), 0);
    assert_eq!(usage_tracker::seed_total(Some(17)), 17);
    assert_eq!(usage_tracker::seed_total(None), 0);
    let started = UsageAccumulator::start(Some(9));
    assert_eq!(started.total(), 9);
    assert!(started.last_tick() > 0);
}

#[test]
fn clock_keeps_last_applied_update() {
    let mut clock = ActivityClock::new(100);
    assert!(clock.record_activity_at(150));
    assert!(clock.record_activity_at(150));
    assert!(!clock.record_activity_at(120));
    assert_eq!(clock.peek(), 150);
    assert!(clock.record_activity_at(400));
    assert!(!clock.record_activity_at(399));
    assert_eq!(clock.peek(), 400);
}

#[test]
fn clock_record_now_moves_forward() {
    let mut clock = ActivityClock::new(0);
    assert!(clock.record_activity());
    let first = clock.peek();
    assert!(first > 0);
    clock.record_activity();
    assert!(clock.peek() >= first);
    assert!(ActivityClock::start().peek() > 0);
}

#[test]
fn pointer_moves_are_coalesced() {
    let mut bridge = EventBridge::new(0);
    let mut clock = ActivityClock::new(0);
    let times = [100_000, 500_000, 849_999, 850_000, 1_000_000, 1_699_999, 1_700_000, 1_800_000];
    let counted: Vec<i64> = times
        .iter()
        .copied()
        .filter(|t| bridge.on_input_at(InputKind::PointerMove, *t, &mut clock))
        .collect();
    assert_eq!(counted, vec![850_000, 1_700_000]);
    assert_eq!(clock.peek(), 1_700_000);
    for pair in counted.windows(2) {
        assert!(pair[1] - pair[0] >= MOVE_SPACING_MICROS);
    }
}

#[test]
fn buttons_and_wheel_always_count() {
    let mut bridge = EventBridge::new(0);
    let mut clock = ActivityClock::new(0);
    assert!(bridge.on_input_at(InputKind::ButtonPress, 10, &mut clock));
    assert!(bridge.on_input_at(InputKind::ButtonRelease, 11, &mut clock));
    assert!(bridge.on_input_at(InputKind::Wheel, 12, &mut clock));
    assert!(bridge.on_input_at(InputKind::Wheel, 13, &mut clock));
    assert_eq!(clock.peek(), 13);
    // they leave the move coalescing as it was
    assert!(!bridge.admit_at(InputKind::PointerMove, 849_999));
    assert!(bridge.admit_at(InputKind::PointerMove, 850_000));
}

#[test]
fn other_events_never_count() {
    let mut bridge = EventBridge::new(0);
    let mut clock = ActivityClock::new(5);
    assert!(!bridge.on_input_at(InputKind::Other, 10 * SEC, &mut clock));
    assert_eq!(clock.peek(), 5);
    assert!(!EventBridge::start().admit_at(InputKind::Other, i64::MAX));
}

#[test]
fn on_input_now_records_activity() {
    let mut bridge = EventBridge::new(0);
    let mut clock = ActivityClock::new(0);
    assert!(bridge.on_input(InputKind::ButtonPress, &mut clock));
    assert!(clock.peek() > 0);
}

#[test]
fn tick_now_reads_the_clock() {
    let mut acc = UsageAccumulator::resume(None, 0);
    let clock = ActivityClock::new(0);
    assert_eq!(acc.tick(&clock), TickAction::Idle);
    assert!(acc.last_tick() > 0);
    assert_eq!(acc.total(), 0);
}

#[test]
fn entry_timestamp_is_naive_utc_text() {
    let entry = UsageLogEntry::at(7, 0).unwrap();
    assert_eq!(entry.timestamp, "1970-01-01 00:00:00");
    assert_eq!(entry.total_micros, 7);
    let entry = UsageLogEntry::at(3, 1_662_921_288_500_000).unwrap();
    assert_eq!(entry.timestamp, "2022-09-11 18:34:48.500");
    let entry = UsageLogEntry::at(3, 1_000_444).unwrap();
    assert_eq!(entry.timestamp, "1970-01-01 00:00:01.000444");
}

#[test]
fn entry_outside_date_range_is_none() {
    assert!(UsageLogEntry::at(1, i64::MAX).is_none());
    assert!(UsageLogEntry::at(1, i64::MIN).is_none());
    assert!(UsageLogEntry::at(1, MAX_INSTANT_MICROS + 1).is_none());
    assert!(UsageLogEntry::at(1, MIN_INSTANT_MICROS - 1).is_none());
}

#[test]
fn entry_at_range_ends_and_before_epoch() {
    let entry = UsageLogEntry::at(2, MAX_INSTANT_MICROS).unwrap();
    assert_eq!(entry.timestamp, "+262142-12-31 23:59:59.999999");
    let entry = UsageLogEntry::at(2, MIN_INSTANT_MICROS).unwrap();
    assert_eq!(entry.timestamp, "-262143-01-01 00:00:00");
    let entry = UsageLogEntry::at(2, -2_208_936_075_000_000).unwrap();
    assert_eq!(entry.timestamp, "1900-01-01 14:38:45");
}

#[test]
fn entry_now_always_built() {
    let entry = UsageLogEntry::now(11);
    assert_eq!(entry.total_micros, 11);
    assert!(entry.timestamp.starts_with("20"));
}

#[test]
fn each_append_carries_every_counted_gap() {
    let mut acc = UsageAccumulator::resume(Some(1_000_000), 0);
    let mut appended = Vec::new();
    let ticks = [(2 * SEC, 5 * SEC), (6 * SEC + 250_000, 10 * SEC), (3 * SEC, 15 * SEC), (19 * SEC, 20 * SEC)];
    for (i, (activity, now)) in ticks.iter().enumerate() {
        if let TickAction::Append(total) = acc.tick_at(*activity, *now) {
            let entry = UsageLogEntry::at(total, *now).unwrap();
            // the first counted tick's append fails; only later ones reach the store
            if i == 0 {
                assert!(failing_append(&entry).is_err());
            } else {
                appended.push(entry.total_micros);
            }
        }
    }
    assert_eq!(appended, vec![1_000_000 + 2 * SEC as u64 + 1_250_000, 1_000_000 + 2 * SEC as u64 + 1_250_000 + 4 * SEC as u64]);
    assert_eq!(acc.total(), 8_250_000);
}
