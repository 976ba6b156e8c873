//! The leader scheduler probe: what the relay reports about the leader
//! schedule, and the rule that decides when the next leader slot is near
//! enough to submit.

use vstd::prelude::*;

verus! {

/// Largest distance, in slots, at which a bundle is submitted.
pub const LEADER_PROXIMITY_THRESHOLD: u64 = 2;

/// Pause between two polls of the leader schedule, in milliseconds.
pub const LEADER_POLL_INTERVAL_MS: u64 = 500;

/// One answer of the relay about the leader schedule.
///
/// A value is made once per probe and never changed. The next leader slot
/// is never behind the current slot. The distance between the two is
/// advisory: the relay's view can be stale by the time it arrives.
#[derive(Debug)]
pub struct SlotInfo {
    current_slot: u64,
    next_leader_slot: u64,
    next_leader_identity: String,
    next_leader_region: String,
}

/// An answer about the leader schedule as a mathematical value.
pub struct SlotInfoView {
    pub current_slot: u64,
    pub next_leader_slot: u64,
    pub next_leader_identity: Seq<char>,
    pub next_leader_region: Seq<char>,
}

/// What to do after one answer about the leader schedule.
#[derive(Clone, Copy, Debug, PartialEq, Eq, Structural)]
pub enum LeaderGate {
    /// The leader slot is near: go on to build and submit.
    Proceed,
    /// The leader slot is still far: sleep this many milliseconds, then
    /// ask again.
    PollAgain { sleep_ms: u64 },
}

impl SlotInfoView {
    /// The next leader slot is not behind the current slot.
    pub open spec fn well_formed(self) -> bool {
        self.current_slot <= self.next_leader_slot
    }

    /// The number of slots until the next leader slot.
    pub open spec fn slots_until(self) -> int {
        self.next_leader_slot - self.current_slot
    }

    /// Whether the next leader slot is at most `threshold` slots away.
    pub open spec fn is_imminent(self, threshold: u64) -> bool {
        self.slots_until() <= threshold
    }

    /// Submit where the leader slot is near, else poll again after
    /// `sleep_ms`.
    pub open spec fn gate(self, threshold: u64, sleep_ms: u64) -> LeaderGate {
        if self.is_imminent(threshold) {
            LeaderGate::Proceed
        } else {
            LeaderGate::PollAgain { sleep_ms }
        }
    }
}

impl View for SlotInfo {
    type V = SlotInfoView;

    closed spec fn view(&self) -> SlotInfoView {
        SlotInfoView {
            current_slot: self.current_slot,
            next_leader_slot: self.next_leader_slot,
            next_leader_identity: self.next_leader_identity@,
            next_leader_region: self.next_leader_region@,
        }
    }
}

impl SlotInfo {
    #[verifier::type_invariant]
    spec fn slots_in_order(self) -> bool {
        self.current_slot <= self.next_leader_slot
    }

    /// Makes an answer from the relay's four fields, or `None` where the
    /// next leader slot lies behind the current slot.
    pub fn new(
        current_slot: u64,
        next_leader_slot: u64,
        next_leader_identity: String,
        next_leader_region: String,
    ) -> (r: Option<SlotInfo>)
        ensures
            r is Some <==> current_slot <= next_leader_slot,
            r matches Some(info) ==> info@ == (SlotInfoView {
                current_slot,
                next_leader_slot,
                next_leader_identity: next_leader_identity@,
                next_leader_region: next_leader_region@,
            }),
    {
        if current_slot <= next_leader_slot {
            Some(SlotInfo { current_slot, next_leader_slot, next_leader_identity, next_leader_region })
        } else {
            None
        }
    }

    /// The slot the ledger is at.
    pub fn current_slot(&self) -> (r: u64)
        ensures
            r == self@.current_slot,
    {
        self.current_slot
    }

    /// The next slot in which a connected leader produces a block.
    pub fn next_leader_slot(&self) -> (r: u64)
        ensures
            r == self@.next_leader_slot,
    {
        self.next_leader_slot
    }

    /// The identity of that leader.
    pub fn next_leader_identity(&self) -> (r: &String)
        ensures
            r@ == self@.next_leader_identity,
    {
        &self.next_leader_identity
    }

    /// The region of the relay that the leader is connected to.
    pub fn next_leader_region(&self) -> (r: &String)
        ensures
            r@ == self@.next_leader_region,
    {
        &self.next_leader_region
    }

    /// The number of slots until the next leader slot.
    pub fn slots_until(&self) -> (r: u64)
        ensures
            self@.well_formed(),
            r == self@.slots_until(),
    {
        proof {
            use_type_invariant(self);
        }
        self.next_leader_slot - self.current_slot
    }

    /// Whether the next leader slot is at most `threshold` slots away.
    pub fn is_imminent(&self, threshold: u64) -> (r: bool)
        ensures
            self@.well_formed(),
            r == self@.is_imminent(threshold),
    {
        self.slots_until() <= threshold
    }

    /// Decides between submitting now and polling again after `sleep_ms`.
    pub fn gate(&self, threshold: u64, sleep_ms: u64) -> (r: LeaderGate)
        ensures
            self@.well_formed(),
            r == self@.gate(threshold, sleep_ms),
    {
        if self.is_imminent(threshold) {
            LeaderGate::Proceed
        } else {
            LeaderGate::PollAgain { sleep_ms }
        }
    }
}

/// A run proceeds exactly when the distance to the next leader slot is
/// within the threshold, and else polls again after the given pause.
pub proof fn lemma_gate_by_distance(info: SlotInfoView, threshold: u64, sleep_ms: u64)
    requires
        info.well_formed(),
    ensures
        info.gate(threshold, sleep_ms) == LeaderGate::Proceed <==> info.next_leader_slot
            - info.current_slot <= threshold,
        info.gate(threshold, sleep_ms) != LeaderGate::Proceed ==> info.gate(threshold, sleep_ms)
            == (LeaderGate::PollAgain { sleep_ms }),
{
}

} // verus!
