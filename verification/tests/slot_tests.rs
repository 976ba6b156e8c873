use bundle_relay::slot::{
    LeaderGate, SlotInfo, LEADER_POLL_INTERVAL_MS, LEADER_PROXIMITY_THRESHOLD,
};

fn info(current: u64, next: u64) -> SlotInfo {
    SlotInfo::new(current, next, "leader-identity".to_string(), "amsterdam".to_string()).unwrap()
}

#[test]
fn design_values() {
    assert_eq!(LEADER_PROXIMITY_THRESHOLD, 2);
    assert_eq!(LEADER_POLL_INTERVAL_MS, 500);
}

#[test]
fn slots_until_is_the_difference() {
    assert_eq!(info(100, 101).slots_until(), 1);
    assert_eq!(info(100, 110).slots_until(), 10);
    assert_eq!(info(7, 7).slots_until(), 0);
    assert_eq!(info(0, u64::MAX).slots_until(), u64::MAX);
}

#[test]
fn a_leader_slot_behind_the_current_slot_is_refused() {
    assert!(SlotInfo::new(100, 99, String::new(), String::new()).is_none());
    assert!(SlotInfo::new(100, 100, String::new(), String::new()).is_some());
}

#[test]
fn fields_are_kept() {
    let i = info(100, 104);
    assert_eq!(i.current_slot(), 100);
    assert_eq!(i.next_leader_slot(), 104);
    assert_eq!(i.next_leader_identity(), "leader-identity");
    assert_eq!(i.next_leader_region(), "amsterdam");
}

#[test]
fn one_slot_ahead_proceeds() {
    let i = info(100, 101);
    assert!(i.is_imminent(LEADER_PROXIMITY_THRESHOLD));
    assert_eq!(i.gate(LEADER_PROXIMITY_THRESHOLD, LEADER_POLL_INTERVAL_MS), LeaderGate::Proceed);
}

#[test]
fn ten_slots_ahead_polls_again() {
    let i = info(100, 110);
    assert!(!i.is_imminent(LEADER_PROXIMITY_THRESHOLD));
    assert_eq!(
        i.gate(LEADER_PROXIMITY_THRESHOLD, LEADER_POLL_INTERVAL_MS),
        LeaderGate::PollAgain { sleep_ms: 500 }
    );
}

#[test]
fn the_threshold_itself_proceeds() {
    assert_eq!(info(100, 102).gate(2, 500), LeaderGate::Proceed);
    assert_eq!(info(100, 103).gate(2, 500), LeaderGate::PollAgain { sleep_ms: 500 });
}
