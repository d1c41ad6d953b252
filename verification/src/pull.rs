//! Pull-mode subscription: delivery is buffered until an explicit `pull`.
//!
//! A pull subscriber never hands a sample to its handler except as a
//! direct consequence of a `pull` call: arrivals are buffered, and `pull`
//! drains the buffer, in arrival order, into the batch the handler then
//! receives.

use vstd::prelude::*;
use crate::types::KeyExpr;
use crate::types::Reliability;
use crate::types::Sample;

verus! {

/// The buffer after one more sample arrived.
pub open spec fn spec_arrival(pending: Seq<Sample>, sample: Sample) -> Seq<Sample> {
    pending.push(sample)
}

/// What one `pull` does: the batch handed to the handler, and the buffer
/// left behind.
pub open spec fn spec_drain(pending: Seq<Sample>) -> (Seq<Sample>, Seq<Sample>) {
    (pending, Seq::empty())
}

/// A handle bound to one pull-mode subscription. `pending` holds the
/// samples that arrived since the last drain, in arrival order.
#[derive(Debug, PartialEq, Eq)]
pub struct PullSubscriber {
    pub key_expr: KeyExpr,
    pub local: bool,
    pub reliability: Option<Reliability>,
    pub pending: Vec<Sample>,
}

impl PullSubscriber {
    /// A fresh pull subscription: nothing buffered, nothing delivered.
    pub fn new(key_expr: KeyExpr, local: bool, reliability: Option<Reliability>) -> (r:
        PullSubscriber)
        ensures
            r.key_expr == key_expr,
            r.local == local,
            r.reliability == reliability,
            r.pending@ == Seq::<Sample>::empty(),
    {
        PullSubscriber { key_expr, local, reliability, pending: Vec::new() }
    }

    /// One matching sample arrived. It is buffered and nothing reaches the
    /// handler: the signature offers no batch to deliver.
    pub fn buffer_sample(&mut self, sample: Sample)
        ensures
            final(self).pending@ == spec_arrival(old(self).pending@, sample),
            final(self).key_expr == old(self).key_expr,
            final(self).local == old(self).local,
            final(self).reliability == old(self).reliability,
    {
        self.pending.push(sample);
    }

    /// Drain the buffer: the returned batch is exactly what arrived since
    /// the last drain, in arrival order, and is what the handler receives;
    /// the buffer is left empty, so a second `pull` with nothing newly
    /// buffered delivers nothing.
    pub fn pull(&mut self) -> (batch: Vec<Sample>)
        ensures
            batch@ == spec_drain(old(self).pending@).0,
            final(self).pending@ == spec_drain(old(self).pending@).1,
            final(self).key_expr == old(self).key_expr,
            final(self).local == old(self).local,
            final(self).reliability == old(self).reliability,
    {
        let mut batch: Vec<Sample> = Vec::new();
        core::mem::swap(&mut batch, &mut self.pending);
        batch
    }
}

/// One step of the buffered-delivery discipline: a sample arrives, or the
/// handler pulls.
pub enum PullEvent {
    Arrival(Sample),
    Drain,
}

/// Everything the handler receives, in order, over a run of arrivals and
/// pulls that starts with `pending` buffered.
pub open spec fn deliveries_of(pending: Seq<Sample>, events: Seq<PullEvent>) -> Seq<Sample>
    decreases events.len(),
{
    if events.len() == 0 {
        Seq::empty()
    } else {
        match events[0] {
            PullEvent::Arrival(s) => deliveries_of(spec_arrival(pending, s), events.drop_first()),
            PullEvent::Drain => spec_drain(pending).0 + deliveries_of(
                spec_drain(pending).1,
                events.drop_first(),
            ),
        }
    }
}

/// The buffer left behind by such a run.
pub open spec fn pending_after(pending: Seq<Sample>, events: Seq<PullEvent>) -> Seq<Sample>
    decreases events.len(),
{
    if events.len() == 0 {
        pending
    } else {
        match events[0] {
            PullEvent::Arrival(s) => pending_after(spec_arrival(pending, s), events.drop_first()),
            PullEvent::Drain => pending_after(spec_drain(pending).1, events.drop_first()),
        }
    }
}

/// The events of a run in which the given samples arrive and nobody pulls.
pub open spec fn arrivals_only(samples: Seq<Sample>) -> Seq<PullEvent> {
    samples.map_values(|s: Sample| PullEvent::Arrival(s))
}

/// While no `pull` is called, published samples are not delivered to the
/// handler: they only accumulate in the buffer, in arrival order.
pub proof fn lemma_no_pull_no_delivery(pending: Seq<Sample>, samples: Seq<Sample>)
    ensures
        deliveries_of(pending, arrivals_only(samples)) == Seq::<Sample>::empty(),
        pending_after(pending, arrivals_only(samples)) == pending + samples,
    decreases samples.len(),
{
    let events = arrivals_only(samples);
    if samples.len() == 0 {
        assert(pending + samples =~= pending);
    } else {
        assert(events[0] == PullEvent::Arrival(samples[0]));
        assert(events.drop_first() =~= arrivals_only(samples.drop_first()));
        lemma_no_pull_no_delivery(spec_arrival(pending, samples[0]), samples.drop_first());
        assert(pending.push(samples[0]) + samples.drop_first() =~= pending + samples);
    }
}

/// A `pull` after a run of arrivals delivers exactly the samples buffered
/// when it was called — those that arrived, after what an earlier drain
/// had left — in arrival order; a second `pull` with nothing newly
/// buffered delivers nothing more.
pub proof fn lemma_pull_delivers_buffered(pending: Seq<Sample>, samples: Seq<Sample>)
    ensures
        deliveries_of(pending, arrivals_only(samples).push(PullEvent::Drain)) == pending + samples,
        deliveries_of(pending, arrivals_only(samples).push(PullEvent::Drain).push(PullEvent::Drain))
            == pending + samples,
    decreases samples.len(),
{
    if samples.len() == 0 {
        let one = arrivals_only(samples).push(PullEvent::Drain);
        let two = one.push(PullEvent::Drain);
        let drains1 = seq![PullEvent::Drain];
        let drains2 = seq![PullEvent::Drain, PullEvent::Drain];
        assert(arrivals_only(samples).len() == 0);
        assert(one =~= drains1);
        assert(two =~= drains2);
        assert(drains1[0] == PullEvent::Drain);
        assert(drains2[0] == PullEvent::Drain);
        assert(drains1.drop_first() =~= Seq::<PullEvent>::empty());
        assert(drains2.drop_first() =~= drains1);
        assert(deliveries_of(Seq::<Sample>::empty(), Seq::<PullEvent>::empty())
            == Seq::<Sample>::empty());
        assert(deliveries_of(pending, drains1) == pending + Seq::<Sample>::empty());
        assert(deliveries_of(Seq::<Sample>::empty(), drains1) == Seq::<Sample>::empty()
            + Seq::<Sample>::empty());
        assert(Seq::<Sample>::empty() + Seq::<Sample>::empty() =~= Seq::<Sample>::empty());
        assert(deliveries_of(pending, drains2) == pending + deliveries_of(
            Seq::<Sample>::empty(),
            drains1,
        ));
        assert(pending + Seq::<Sample>::empty() =~= pending + samples);
    } else {
        let one = arrivals_only(samples).push(PullEvent::Drain);
        let two = one.push(PullEvent::Drain);
        assert(one[0] == PullEvent::Arrival(samples[0]));
        assert(two[0] == PullEvent::Arrival(samples[0]));
        lemma_pull_delivers_buffered(spec_arrival(pending, samples[0]), samples.drop_first());
        assert(one.drop_first() =~= arrivals_only(samples.drop_first()).push(PullEvent::Drain));
        assert(two.drop_first() =~= arrivals_only(samples.drop_first()).push(
            PullEvent::Drain,
        ).push(PullEvent::Drain));
        assert(pending.push(samples[0]) + samples.drop_first() =~= pending + samples);
    }
}

} // verus!
