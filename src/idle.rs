//! The idle gate: while no input has arrived for longer than a threshold, capture
//! callbacks stop feeding the encoders. Instants are microseconds on the wall clock.
use crate::clock::now_utc;
use vstd::prelude::*;

verus! {

/// Microseconds in a second.
pub const MICROS_PER_SEC: u64 = 1000000;

/// Idle means: idling is enabled (a positive threshold) and more than `threshold_secs`
/// seconds have passed since the last input.
pub open spec fn idle_spec(threshold_secs: u64, last_input: u64, now: u64) -> bool {
    threshold_secs > 0 && now - last_input > threshold_secs * MICROS_PER_SEC
}

/// Time of the last input and the idle threshold in seconds; a zero threshold disables
/// idling.
#[derive(PartialEq, Eq, Structural, Clone, Copy, Debug)]
pub struct IdleGate {
    pub last_input: u64,
    pub threshold_secs: u64,
}

impl IdleGate {
    pub open spec fn idle_at(self, now: u64) -> bool {
        idle_spec(self.threshold_secs, self.last_input, now)
    }

    /// A gate whose clock starts at `now`.
    pub fn new(threshold_secs: u64, now: u64) -> (r: IdleGate)
        ensures
            r.last_input == now,
            r.threshold_secs == threshold_secs,
    {
        IdleGate { last_input: now, threshold_secs }
    }

    /// A gate whose clock starts now.
    pub fn start(threshold_secs: u64) -> (r: IdleGate)
        ensures
            r.threshold_secs == threshold_secs,
    {
        IdleGate::new(threshold_secs, now_utc())
    }

    /// Whether the pipeline is idle at `now`.
    pub fn is_idle(&self, now: u64) -> (r: bool)
        ensures
            r == self.idle_at(now),
    {
        if self.threshold_secs == 0 || now <= self.last_input {
            false
        } else {
            (now - self.last_input) as u128 > (self.threshold_secs as u128) * (
            MICROS_PER_SEC as u128)
        }
    }

    /// Whether a capture callback at `now` may hand its frame to the encoder queue.
    pub fn admits_capture(&self, now: u64) -> (r: bool)
        ensures
            r == !self.idle_at(now),
    {
        !self.is_idle(now)
    }

    /// Whether a capture callback may hand its frame on, against the wall clock.
    pub fn admits_capture_now(&self) -> (r: bool)
        ensures
            self.threshold_secs == 0 ==> r,
    {
        self.admits_capture(now_utc())
    }

    /// Notes an input at `now`.
    pub fn record_input(&mut self, now: u64)
        ensures
            final(self).last_input == now,
            final(self).threshold_secs == old(self).threshold_secs,
    {
        self.last_input = now;
    }

    /// Notes an input now.
    pub fn record_input_now(&mut self)
        ensures
            final(self).threshold_secs == old(self).threshold_secs,
    {
        self.record_input(now_utc());
    }
}

/// Idle gating: with a positive threshold, a capture after a silence longer than the
/// threshold is discarded; an input then re-enables captures at once and for the whole
/// threshold after it. A zero threshold never discards.
pub proof fn lemma_idle_gating(gate: IdleGate, now: u64, input_at: u64, later: u64)
    ensures
        gate.threshold_secs > 0 && now - gate.last_input > gate.threshold_secs * MICROS_PER_SEC
            ==> gate.idle_at(now),
        gate.threshold_secs == 0 ==> !gate.idle_at(now),
        input_at <= later <= input_at + gate.threshold_secs * MICROS_PER_SEC ==> !(IdleGate {
            last_input: input_at,
            ..gate
        }).idle_at(later),
{
}

} // verus!
