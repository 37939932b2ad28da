//! The decision state machine.
//!
//! A `Detector` is fed one `(tx, rx)` timestamp sample per polling period
//! and decides whether the network looks up or down. The skew between the
//! two timestamps is compared against a threshold expressed in the same
//! units as the samples; crossing it drives the `Ukn` / `Up` / `Down`
//! transitions and decides which events are published. Only transitions
//! are emitted (plus the first `Up` after `Ukn`), so consecutive duplicate
//! states are coalesced.

use vstd::prelude::*;

use crate::state::State;

verus! {

/// Absolute difference of two timestamps.
pub open spec fn spec_abs_diff(a: u64, b: u64) -> u64 {
    if a >= b {
        (a - b) as u64
    } else {
        (b - a) as u64
    }
}

/// Absolute difference of two timestamps.
pub fn abs_diff(a: u64, b: u64) -> (r: u64)
    ensures
        r == spec_abs_diff(a, b),
{
    if a >= b {
        a - b
    } else {
        b - a
    }
}

/// One transition of the outage state machine: from `cur`, on a sample
/// with the given skew, under the given threshold.
pub open spec fn spec_next_state(cur: State, skew: u64, threshold: u64) -> State {
    match cur {
        State::Ukn => if skew > threshold {
            State::Down
        } else {
            State::Up
        },
        State::Up => if skew > threshold {
            State::Down
        } else {
            State::Up
        },
        State::Down => if skew < threshold {
            State::Up
        } else {
            State::Down
        },
        State::Error => State::Error,
    }
}

/// What the transition from `cur` on the given skew publishes: every
/// transition out of `Ukn` is published (including the first `Up`),
/// afterwards only changes of state are.
pub open spec fn spec_emission(cur: State, skew: u64, threshold: u64) -> Option<State> {
    match cur {
        State::Ukn => Some(spec_next_state(cur, skew, threshold)),
        State::Up => if skew > threshold {
            Some(State::Down)
        } else {
            None
        },
        State::Down => if skew < threshold {
            Some(State::Up)
        } else {
            None
        },
        State::Error => None,
    }
}

/// The periodic sampler's state: the current verdict and the skew
/// threshold, in the units of the timestamp store it samples.
pub struct Detector {
    pub current: State,
    pub threshold: u64,
}

impl Detector {
    /// A fresh detector: no evidence yet.
    pub fn new(threshold: u64) -> (r: Detector)
        ensures
            r.current == State::Ukn,
            r.threshold == threshold,
    {
        Detector { current: State::Ukn, threshold }
    }

    /// Account one `(tx, rx)` sample: step the state machine on the skew
    /// and return the event to publish, if any.
    pub fn on_sample(&mut self, tx_pkt: u64, rx_pkt: u64) -> (emit: Option<State>)
        ensures
            final(self).threshold == old(self).threshold,
            final(self).current == spec_next_state(
                old(self).current,
                spec_abs_diff(tx_pkt, rx_pkt),
                old(self).threshold,
            ),
            emit == spec_emission(
                old(self).current,
                spec_abs_diff(tx_pkt, rx_pkt),
                old(self).threshold,
            ),
    {
        let skew = abs_diff(tx_pkt, rx_pkt);
        match self.current {
            State::Ukn => {
                if skew > self.threshold {
                    self.current = State::Down;
                    Some(State::Down)
                } else {
                    self.current = State::Up;
                    Some(State::Up)
                }
            },
            State::Up => {
                if skew > self.threshold {
                    self.current = State::Down;
                    Some(State::Down)
                } else {
                    None
                }
            },
            State::Down => {
                if skew < self.threshold {
                    self.current = State::Up;
                    Some(State::Up)
                } else {
                    None
                }
            },
            State::Error => None,
        }
    }
}

/// The state reached after feeding a whole sequence of skews to a fresh
/// detector.
pub open spec fn state_after(skews: Seq<u64>, threshold: u64) -> State
    decreases skews.len(),
{
    if skews.len() == 0 {
        State::Ukn
    } else {
        spec_next_state(state_after(skews.drop_last(), threshold), skews.last(), threshold)
    }
}

/// A published event as a (possibly empty) event sequence.
pub open spec fn emission_seq(e: Option<State>) -> Seq<State> {
    match e {
        Some(s) => seq![s],
        None => Seq::empty(),
    }
}

/// Everything the decision loop publishes on a sequence of skews: the
/// initial `Ukn` sent before the first sample, then each transition.
pub open spec fn events_after(skews: Seq<u64>, threshold: u64) -> Seq<State>
    decreases skews.len(),
{
    if skews.len() == 0 {
        seq![State::Ukn]
    } else {
        events_after(skews.drop_last(), threshold) + emission_seq(
            spec_emission(state_after(skews.drop_last(), threshold), skews.last(), threshold),
        )
    }
}

/// The skews of a sequence of `(tx, rx)` samples.
pub open spec fn skews_of(samples: Seq<(u64, u64)>) -> Seq<u64> {
    samples.map_values(|p: (u64, u64)| spec_abs_diff(p.0, p.1))
}

/// Replay a recorded sequence of `(tx, rx)` samples through a fresh
/// detector and return every event it publishes, the initial `Ukn`
/// included, in publication order.
pub fn replay(samples: &Vec<(u64, u64)>, threshold: u64) -> (events: Vec<State>)
    ensures
        events@ == events_after(skews_of(samples@), threshold),
{
    let mut detector = Detector::new(threshold);
    let mut events: Vec<State> = Vec::new();
    events.push(State::Ukn);
    proof {
        assert(skews_of(samples@.subrange(0, 0)) =~= Seq::<u64>::empty());
        assert(events@ =~= events_after(skews_of(samples@.subrange(0, 0)), threshold));
    }
    let mut i: usize = 0;
    while i < samples.len()
        invariant
            i <= samples.len(),
            detector.threshold == threshold,
            detector.current == state_after(skews_of(samples@.subrange(0, i as int)), threshold),
            events@ == events_after(skews_of(samples@.subrange(0, i as int)), threshold),
        decreases samples.len() - i,
    {
        let (tx_pkt, rx_pkt) = samples[i];
        proof {
            lemma_skews_step(samples@, i as int);
            assert(skews_of(samples@.subrange(0, i + 1)).drop_last() =~= skews_of(
                samples@.subrange(0, i as int),
            ));
        }
        let emit = detector.on_sample(tx_pkt, rx_pkt);
        if let Some(e) = emit {
            events.push(e);
        }
        i = i + 1;
    }
    proof {
        assert(samples@.subrange(0, samples@.len() as int) =~= samples@);
    }
    events
}

/// Skews of a one-longer prefix: the skews so far plus the new sample's.
proof fn lemma_skews_step(samples: Seq<(u64, u64)>, i: int)
    requires
        0 <= i < samples.len(),
    ensures
        skews_of(samples.subrange(0, i + 1)) == skews_of(samples.subrange(0, i)).push(
            spec_abs_diff(samples[i].0, samples[i].1),
        ),
{
    assert(skews_of(samples.subrange(0, i + 1)) =~= skews_of(samples.subrange(0, i)).push(
        spec_abs_diff(samples[i].0, samples[i].1),
    ));
}

/// The first event published is always `Ukn`.
pub proof fn lemma_initial_emission(skews: Seq<u64>, threshold: u64)
    ensures
        events_after(skews, threshold).len() >= 1,
        events_after(skews, threshold)[0] == State::Ukn,
    decreases skews.len(),
{
    if skews.len() > 0 {
        lemma_initial_emission(skews.drop_last(), threshold);
    }
}

/// On an idle-but-healthy data path — every sampled skew within the
/// threshold — the loop publishes exactly `Ukn` then `Up` and nothing else.
pub proof fn lemma_idle_healthy(skews: Seq<u64>, threshold: u64)
    requires
        skews.len() >= 1,
        forall|i: int| 0 <= i < skews.len() ==> skews[i] <= threshold,
    ensures
        state_after(skews, threshold) == State::Up,
        events_after(skews, threshold) == seq![State::Ukn, State::Up],
    decreases skews.len(),
{
    assert(skews.last() == skews[skews.len() - 1]);
    assert(skews.last() <= threshold);
    if skews.len() == 1 {
        let empty = Seq::<u64>::empty();
        assert(skews.drop_last() =~= empty);
        assert(state_after(empty, threshold) == State::Ukn);
        assert(events_after(empty, threshold) == seq![State::Ukn]);
        assert(spec_emission(State::Ukn, skews.last(), threshold) == Some(State::Up));
        assert(events_after(skews, threshold) =~= seq![State::Ukn, State::Up]);
    } else {
        lemma_idle_healthy(skews.drop_last(), threshold);
        assert(events_after(skews, threshold) =~= seq![State::Ukn, State::Up]);
    }
}

/// A fresh detector never reaches `Error` on its own: that state only
/// stands for a data-path failure reported from outside.
pub proof fn lemma_state_never_error(skews: Seq<u64>, threshold: u64)
    ensures
        state_after(skews, threshold) != State::Error,
    decreases skews.len(),
{
    if skews.len() > 0 {
        lemma_state_never_error(skews.drop_last(), threshold);
    }
}

/// The run leaves `Ukn` exactly with the first sample.
pub proof fn lemma_state_ukn_iff_empty(skews: Seq<u64>, threshold: u64)
    ensures
        state_after(skews, threshold) == State::Ukn <==> skews.len() == 0,
    decreases skews.len(),
{
    if skews.len() > 0 {
        lemma_state_ukn_iff_empty(skews.drop_last(), threshold);
        lemma_state_never_error(skews.drop_last(), threshold);
    }
}

/// Threshold monotonicity, as a simulation: on the same skew trace, at
/// every point where the detector with the larger threshold reports
/// `Down`, the detector with the smaller threshold reports `Down` too.
pub proof fn lemma_threshold_monotone(skews: Seq<u64>, t1: u64, t2: u64)
    requires
        t1 <= t2,
    ensures
        state_after(skews, t2) == State::Down ==> state_after(skews, t1) == State::Down,
    decreases skews.len(),
{
    if skews.len() > 0 {
        let prefix = skews.drop_last();
        lemma_threshold_monotone(prefix, t1, t2);
        lemma_state_never_error(prefix, t1);
        lemma_state_never_error(prefix, t2);
        lemma_state_ukn_iff_empty(prefix, t1);
        lemma_state_ukn_iff_empty(prefix, t2);
    }
}

/// `Down` is published at sample `i` exactly when that sample moves the
/// run into `Down`.
pub open spec fn down_at(skews: Seq<u64>, threshold: u64, i: int) -> bool {
    &&& 0 <= i < skews.len()
    &&& state_after(skews.subrange(0, i + 1), threshold) == State::Down
    &&& state_after(skews.subrange(0, i), threshold) != State::Down
}

/// `down_at` indeed characterizes the samples on which the loop publishes
/// a `Down` event.
pub proof fn lemma_down_at_is_emission(skews: Seq<u64>, threshold: u64, i: int)
    requires
        0 <= i < skews.len(),
    ensures
        down_at(skews, threshold, i) <==> spec_emission(
            state_after(skews.subrange(0, i), threshold),
            skews[i],
            threshold,
        ) == Some(State::Down),
{
    let p = skews.subrange(0, i + 1);
    assert(p.drop_last() =~= skews.subrange(0, i));
    assert(p.last() == skews[i]);
    lemma_state_never_error(skews.subrange(0, i), threshold);
}

/// A run that stands in `Down` got there by publishing `Down` at some
/// earlier sample.
pub proof fn lemma_down_has_transition(skews: Seq<u64>, threshold: u64)
    ensures
        state_after(skews, threshold) == State::Down ==> exists|j: int|
            down_at(skews, threshold, j),
    decreases skews.len(),
{
    if skews.len() > 0 && state_after(skews, threshold) == State::Down {
        let prefix = skews.drop_last();
        let n = skews.len() as int;
        assert(skews.subrange(0, n) =~= skews);
        assert(skews.subrange(0, n - 1) =~= prefix);
        if state_after(prefix, threshold) != State::Down {
            assert(down_at(skews, threshold, n - 1));
        } else {
            lemma_down_has_transition(prefix, threshold);
            let j = choose|j: int| down_at(prefix, threshold, j);
            assert(prefix.subrange(0, j + 1) =~= skews.subrange(0, j + 1));
            assert(prefix.subrange(0, j) =~= skews.subrange(0, j));
            assert(down_at(skews, threshold, j));
        }
    }
}

/// Raising the threshold never makes detection earlier: wherever the run
/// with the larger threshold publishes `Down`, the run with the smaller
/// threshold has already published `Down` at that sample or before it.
pub proof fn lemma_detection_not_earlier(skews: Seq<u64>, t1: u64, t2: u64, i: int)
    requires
        t1 <= t2,
        down_at(skews, t2, i),
    ensures
        exists|j: int| 0 <= j <= i && down_at(skews, t1, j),
{
    let p = skews.subrange(0, i + 1);
    lemma_threshold_monotone(p, t1, t2);
    lemma_down_has_transition(p, t1);
    let j = choose|j: int| down_at(p, t1, j);
    assert(p.subrange(0, j + 1) =~= skews.subrange(0, j + 1));
    assert(p.subrange(0, j) =~= skews.subrange(0, j));
    assert(down_at(skews, t1, j));
}

} // verus!
