//! Packet arrivals: the `Packet` value itself, the arrival-source
//! capability, and the `Client` that turns an arrival source into an
//! at-most-one-packet-per-tick stream.

use vstd::prelude::*;

verus! {

/// An immutable packet: when it was generated (in ticks) and how long it is
/// (in bits).
#[derive(Clone, Copy, PartialEq, Eq, Structural, Debug)]
pub struct Packet {
    pub time_generated: u32,
    pub length: u32,
}

/// An arrival source: each call yields the number of ticks until the next
/// packet is generated. A return of zero is allowed; the client copes with
/// it by firing again on the following tick.
pub trait Generator {
    fn next_event(&mut self) -> u32;
}

/// An arrival source with a fixed inter-arrival interval, in ticks.
pub struct Deterministic {
    pub interval: u32,
}

impl Deterministic {
    pub fn new(interval: u32) -> (d: Deterministic)
        ensures
            d.interval == interval,
    {
        Deterministic { interval }
    }
}

impl Generator for Deterministic {
    fn next_event(&mut self) -> (r: u32)
        ensures
            r == final(self).interval,
            final(self).interval == old(self).interval,
    {
        self.interval
    }
}

/// Generates packets as dictated by the wrapped arrival source. `ticker`
/// counts down the ticks to the next arrival.
pub struct Client<G: Generator> {
    pub ticker: u32,
    pub packet_length: u32,
    pub generator: G,
}

impl<G: Generator> Client<G> {
    /// Whether the next `tick` call produces a packet: the ticker is about
    /// to run out.
    pub open spec fn fires(self) -> bool {
        self.ticker == 0 || self.ticker == 1
    }

    /// A client whose ticker is seeded from the arrival source.
    pub fn new(generator: G, packet_length: u32) -> (c: Self)
        ensures
            c.packet_length == packet_length,
    {
        let mut generator = generator;
        let ticker = generator.next_event();
        Client { ticker, packet_length, generator }
    }

    /// One time unit passes. Produces a packet stamped with `current_time`
    /// exactly when the ticker runs out this tick, reseeding the ticker from
    /// the arrival source; otherwise counts the ticker down by one.
    pub fn tick(&mut self, current_time: u32) -> (r: Option<Packet>)
        ensures
            final(self).packet_length == old(self).packet_length,
            old(self).fires() ==> r == Some(
                Packet { time_generated: current_time, length: old(self).packet_length },
            ),
            !old(self).fires() ==> r is None && final(self).ticker == old(self).ticker - 1,
    {
        if self.ticker == 0 {
            self.ticker = self.generator.next_event();
            return Some(Packet { time_generated: current_time, length: self.packet_length });
        }

        self.ticker -= 1;
        if self.ticker == 0 {
            self.ticker = self.generator.next_event();
            Some(Packet { time_generated: current_time, length: self.packet_length })
        } else {
            None
        }
    }
}

} // verus!
