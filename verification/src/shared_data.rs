//! The in-process timestamp store.
//!
//! Two microsecond timestamps, one per packet direction, written by the
//! packet classifier and sampled by the decision loop. The store never
//! moves a field backwards: an update merges the new clock sample with
//! what is already recorded, so the fields are non-decreasing however the
//! updates are ordered. Recording a received packet resets the TX field
//! too: a fresh RX proves that an earlier TX made it out and was answered,
//! so both fields are republished as one value.

use vstd::prelude::*;

use crate::clock::get_now_truncated;

verus! {

/// The larger of two timestamps.
pub open spec fn spec_max(a: u64, b: u64) -> u64 {
    if a >= b {
        a
    } else {
        b
    }
}

/// Timestamps of the last received and last transmitted packet, in
/// microseconds.
#[derive(Clone, Copy, Debug)]
pub struct SharedData {
    pub last_rx_pkt: u64,
    pub last_tx_pkt: u64,
}

/// One write from the data path: a transmitted or a received packet seen
/// at the given clock sample.
pub enum StoreUpdate {
    Tx(u64),
    Rx(u64),
}

/// What one write does to the store. A TX write merges the sample into
/// the TX field; an RX write republishes both fields as one value, never
/// below either field or the sample.
pub open spec fn apply_update(s: SharedData, u: StoreUpdate) -> SharedData {
    match u {
        StoreUpdate::Tx(now) => SharedData {
            last_rx_pkt: s.last_rx_pkt,
            last_tx_pkt: spec_max(s.last_tx_pkt, now),
        },
        StoreUpdate::Rx(now) => SharedData {
            last_rx_pkt: spec_max(now, spec_max(s.last_tx_pkt, s.last_rx_pkt)),
            last_tx_pkt: spec_max(now, spec_max(s.last_tx_pkt, s.last_rx_pkt)),
        },
    }
}

/// The store after a whole sequence of writes.
pub open spec fn apply_updates(s: SharedData, us: Seq<StoreUpdate>) -> SharedData
    decreases us.len(),
{
    if us.len() == 0 {
        s
    } else {
        apply_update(apply_updates(s, us.drop_last()), us.last())
    }
}

impl SharedData {
    /// A store seeded with one clock sample in both fields, so that the
    /// initial skew is zero.
    pub fn new(now: u64) -> (r: SharedData)
        ensures
            r.last_rx_pkt == now,
            r.last_tx_pkt == now,
    {
        SharedData { last_rx_pkt: now, last_tx_pkt: now }
    }

    /// Record a transmitted packet.
    pub fn record_tx(&mut self, now: u64)
        ensures
            *final(self) == apply_update(*old(self), StoreUpdate::Tx(now)),
            final(self).last_tx_pkt == spec_max(old(self).last_tx_pkt, now),
            final(self).last_rx_pkt == old(self).last_rx_pkt,
    {
        if now > self.last_tx_pkt {
            self.last_tx_pkt = now;
        }
    }

    /// Record a received packet: publish one value to both fields.
    pub fn record_rx(&mut self, now: u64)
        ensures
            *final(self) == apply_update(*old(self), StoreUpdate::Rx(now)),
            final(self).last_rx_pkt == final(self).last_tx_pkt,
            final(self).last_rx_pkt == spec_max(
                now,
                spec_max(old(self).last_tx_pkt, old(self).last_rx_pkt),
            ),
    {
        let mut t = now;
        if self.last_tx_pkt > t {
            t = self.last_tx_pkt;
        }
        if self.last_rx_pkt > t {
            t = self.last_rx_pkt;
        }
        self.last_tx_pkt = t;
        self.last_rx_pkt = t;
    }

    /// The most recent published pair, as `(tx, rx)`.
    pub fn snapshot(&self) -> (r: (u64, u64))
        ensures
            r.0 == self.last_tx_pkt,
            r.1 == self.last_rx_pkt,
    {
        (self.last_tx_pkt, self.last_rx_pkt)
    }
}

impl Default for SharedData {
    /// A store seeded with the clock's current sample: both fields equal,
    /// so the initial skew is zero.
    fn default() -> (r: SharedData)
        ensures
            r.last_rx_pkt == r.last_tx_pkt,
    {
        let now = get_now_truncated();
        SharedData::new(now)
    }
}

/// Monotone timestamps: after any sequence of writes, neither field has
/// moved backwards.
pub proof fn lemma_timestamps_monotone(s: SharedData, us: Seq<StoreUpdate>)
    ensures
        apply_updates(s, us).last_rx_pkt >= s.last_rx_pkt,
        apply_updates(s, us).last_tx_pkt >= s.last_tx_pkt,
    decreases us.len(),
{
    if us.len() > 0 {
        lemma_timestamps_monotone(s, us.drop_last());
    }
}

/// RX resets TX: a store that just recorded a received packet holds the
/// same value in both fields.
pub proof fn lemma_rx_resets_tx(s: SharedData, now: u64)
    ensures
        apply_update(s, StoreUpdate::Rx(now)).last_tx_pkt == apply_update(
            s,
            StoreUpdate::Rx(now),
        ).last_rx_pkt,
{
}

} // verus!
