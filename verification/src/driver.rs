//! The tick driver: per tick it steps every station (collecting the bitmap
//! of who placed bits on the medium), writes that bitmap into the medium's
//! head slot, advances the medium, and records a sojourn sample for every
//! packet completed.

use vstd::prelude::*;
use bit_vec::BitVec;
use crate::bitmap::{bits_of, bitvec_from_elem};
use crate::cbuffer::advance;
use crate::client::{Generator, Packet};
use crate::medium::{busy_in, Medium};
use crate::server::{Server, slots_ok, tick_transition};

verus! {

/// Station `k` took one `tick` step from `pre` to `post` this round: for
/// some backoff draw, the full per-station transition relation holds, with
/// the station's outgoing bit starting clear and ending as `own_bit`.
pub open spec fn station_stepped<G: Generator>(
    pre: Server<G>,
    post: Server<G>,
    ret: Option<Packet>,
    busy: bool,
    now: u32,
    own_bit: bool,
) -> bool {
    exists|slots: u32|
        #[trigger] slots_ok(slots, pre.state, pre.retries) && tick_transition(
            pre,
            post,
            ret,
            busy,
            now,
            false,
            own_bit,
            slots,
        )
}

/// One round of station steps at tick `now`: starting from the row `pre`
/// and a cleared outgoing bitmap, every station takes one step against the
/// head bitmap that `med` exposes, returning `rets[k]` and leaving its own
/// bit of the outgoing bitmap as `bits_out[k]`.
pub open spec fn round_rel<G: Generator>(
    pre: Seq<Server<G>>,
    post: Seq<Server<G>>,
    med: Medium,
    bits_out: Seq<bool>,
    rets: Seq<Option<Packet>>,
    now: u32,
) -> bool {
    &&& post.len() == pre.len()
    &&& rets.len() == pre.len()
    &&& bits_out.len() == pre.len()
    &&& forall|k: int|
        0 <= k < pre.len() ==> station_stepped(
            pre[k],
            post[k],
            rets[k],
            busy_in(med.head_bits(), k),
            now,
            #[trigger] bits_out[k],
        )
}

/// The medium's move that closes a round: the collected bitmap overwrites
/// the head slot, then the head advances one slot.
pub open spec fn medium_round(pre: Medium, post: Medium, bits_out: Seq<bool>) -> bool {
    &&& post.nodes() == pre.nodes()
    &&& post.slots() == pre.slots().update(pre.head(), bits_out)
    &&& post.head() == advance(pre.head(), pre.slots().len() as int)
}

/// The sojourn samples one round contributes, in station order: for each
/// completed packet, the ticks between its generation and `now`.
pub open spec fn round_samples(rets: Seq<Option<Packet>>, now: u32) -> Seq<u32>
    decreases rets.len(),
{
    if rets.len() == 0 {
        Seq::empty()
    } else {
        let rest = round_samples(rets.drop_last(), now);
        match rets.last() {
            Some(p) => rest.push((now - p.time_generated) as u32),
            None => rest,
        }
    }
}

proof fn lemma_round_samples_push(rets: Seq<Option<Packet>>, x: Option<Packet>, now: u32)
    ensures
        round_samples(rets.push(x), now) == match x {
            Some(p) => round_samples(rets, now).push((now - p.time_generated) as u32),
            None => round_samples(rets, now),
        },
{
    assert(rets.push(x).drop_last() =~= rets);
}

/// A complete `ticks`-tick history of the network: tick by tick, the
/// station row takes a round of steps against the medium's head bitmap,
/// the medium absorbs the collected bitmap and advances, and the round's
/// sojourn samples are appended.
pub open spec fn run_trace<G: Generator>(
    servers0: Seq<Server<G>>,
    medium0: Medium,
    servers1: Seq<Server<G>>,
    medium1: Medium,
    samples: Seq<u32>,
    ticks: u32,
) -> bool
    decreases ticks, 0int,
{
    if ticks == 0 {
        servers1 == servers0 && medium1 == medium0 && samples == Seq::<u32>::empty()
    } else {
        run_trace_last(servers0, medium0, servers1, medium1, samples, (ticks - 1) as u32)
    }
}

/// The samples after a round are the samples before it with the round's
/// own appended.
pub open spec fn samples_extended(
    samples: Seq<u32>,
    mid_samples: Seq<u32>,
    rets: Seq<Option<Packet>>,
    now: u32,
) -> bool {
    samples == mid_samples + round_samples(rets, now)
}

/// A history whose last round happens at tick `now`: some `now`-tick
/// history, followed by one round of station steps, the medium's move, and
/// that round's samples.
pub open spec fn run_trace_last<G: Generator>(
    servers0: Seq<Server<G>>,
    medium0: Medium,
    servers1: Seq<Server<G>>,
    medium1: Medium,
    samples: Seq<u32>,
    now: u32,
) -> bool
    decreases now, 1int,
{
    exists|
        mid_servers: Seq<Server<G>>,
        mid_medium: Medium,
        mid_samples: Seq<u32>,
        bits_out: Seq<bool>,
        rets: Seq<Option<Packet>>,
    |
        #![trigger round_rel(mid_servers, servers1, mid_medium, bits_out, rets, now), samples_extended(samples, mid_samples, rets, now)]
        {
            &&& run_trace(servers0, medium0, mid_servers, mid_medium, mid_samples, now)
            &&& round_rel(mid_servers, servers1, mid_medium, bits_out, rets, now)
            &&& medium_round(mid_medium, medium1, bits_out)
            &&& samples_extended(samples, mid_samples, rets, now)
        }
}

/// Extending a history by one round at tick `now` gives a history one tick
/// longer.
proof fn lemma_run_trace_extend<G: Generator>(
    servers0: Seq<Server<G>>,
    medium0: Medium,
    mid_servers: Seq<Server<G>>,
    mid_medium: Medium,
    mid_samples: Seq<u32>,
    servers1: Seq<Server<G>>,
    medium1: Medium,
    bits_out: Seq<bool>,
    rets: Seq<Option<Packet>>,
    samples: Seq<u32>,
    now: u32,
)
    requires
        now < u32::MAX,
        run_trace(servers0, medium0, mid_servers, mid_medium, mid_samples, now),
        round_rel(mid_servers, servers1, mid_medium, bits_out, rets, now),
        medium_round(mid_medium, medium1, bits_out),
        samples == mid_samples + round_samples(rets, now),
    ensures
        run_trace(servers0, medium0, servers1, medium1, samples, (now + 1) as u32),
{
    assert(samples_extended(samples, mid_samples, rets, now));
    assert(run_trace_last(servers0, medium0, servers1, medium1, samples, now));
}

/// The total number of packets a row of stations has processed.
pub open spec fn total_processed<G: Generator>(ss: Seq<Server<G>>) -> int
    decreases ss.len(),
{
    if ss.len() == 0 {
        0
    } else {
        total_processed(ss.drop_last()) + ss.last().statistics.packets_processed
    }
}

proof fn lemma_total_processed_update<G: Generator>(ss: Seq<Server<G>>, j: int, s: Server<G>)
    requires
        0 <= j < ss.len(),
    ensures
        total_processed(ss.update(j, s)) == total_processed(ss)
            + s.statistics.packets_processed - ss[j].statistics.packets_processed,
    decreases ss.len(),
{
    if j == ss.len() - 1 {
        assert(ss.update(j, s).drop_last() =~= ss.drop_last());
    } else {
        assert(ss.update(j, s).drop_last() =~= ss.drop_last().update(j, s));
        lemma_total_processed_update(ss.drop_last(), j, s);
    }
}

/// Drive `ticks` ticks of the whole network. Each tick steps every station
/// in index order against the medium, writes the collected bitmap into the
/// medium's head slot, advances the medium, and records one sojourn sample
/// (in ticks) for every packet completed that tick.
///
/// Visibility is delayed: during a tick the stations observe the slot the
/// advance exposed, which holds the bitmap written one full ring ago, so
/// with a ring of `d` slots a station may transmit for `d` ticks before it
/// learns of a collision.
///
/// The returned samples pay out one entry per processed packet: their count
/// equals the growth of the stations' processed totals. The whole run is
/// pinned by `run_trace`: a tick-by-tick history connects the initial
/// stations and medium to the final ones and to the samples, each tick one
/// `round_rel` of station steps followed by one `medium_round`.
pub fn run<G: Generator>(servers: &mut Vec<Server<G>>, medium: &mut Medium, ticks: u32) -> (samples:
    Vec<u32>)
    requires
        old(medium).wf(),
        old(medium).nodes() == old(servers)@.len(),
        forall|k: int| 0 <= k < old(servers)@.len() ==> (#[trigger] old(servers)@[k]).wf(),
        forall|k: int| 0 <= k < old(servers)@.len() ==> (#[trigger] old(servers)@[k]).id == k,
        forall|k: int| 0 <= k < old(servers)@.len() ==> (#[trigger] old(servers)@[k]).balanced(),
        forall|k: int|
            0 <= k < old(servers)@.len() ==> (#[trigger] old(servers)@[k]).packet_times_bounded(0),
        forall|k: int|
            0 <= k < old(servers)@.len() ==> (#[trigger] old(
                servers,
            )@[k]).statistics.packets_generated + ticks <= u32::MAX,
        forall|k: int|
            0 <= k < old(servers)@.len() ==> (#[trigger] old(
                servers,
            )@[k]).statistics.packets_processed + ticks <= u32::MAX,
        forall|k: int|
            0 <= k < old(servers)@.len() ==> (#[trigger] old(
                servers,
            )@[k]).statistics.packets_dropped + ticks <= u32::MAX,
    ensures
        final(servers)@.len() == old(servers)@.len(),
        final(medium).wf(),
        final(medium).nodes() == old(medium).nodes(),
        forall|k: int| 0 <= k < final(servers)@.len() ==> (#[trigger] final(servers)@[k]).wf(),
        forall|k: int| 0 <= k < final(servers)@.len() ==> (#[trigger] final(servers)@[k]).id == k,
        forall|k: int|
            0 <= k < final(servers)@.len() ==> (#[trigger] final(servers)@[k]).balanced(),
        samples@.len() == total_processed(final(servers)@) - total_processed(old(servers)@),
        run_trace(old(servers)@, *old(medium), final(servers)@, *final(medium), samples@, ticks),
{
    let n: usize = servers.len();
    let ghost orig = old(servers)@;
    let ghost orig_med = *old(medium);
    let mut samples: Vec<u32> = Vec::new();
    proof {
        assert(samples@ =~= Seq::<u32>::empty());
    }
    let mut i: u32 = 0;
    while i < ticks
        invariant
            i <= ticks,
            n == orig.len(),
            servers@.len() == n,
            medium.wf(),
            medium.nodes() == n,
            run_trace(orig, orig_med, servers@, *medium, samples@, i),
            forall|k: int| 0 <= k < n ==> (#[trigger] servers@[k]).wf(),
            forall|k: int| 0 <= k < n ==> (#[trigger] servers@[k]).id == k,
            forall|k: int| 0 <= k < n ==> (#[trigger] servers@[k]).balanced(),
            forall|k: int| 0 <= k < n ==> (#[trigger] servers@[k]).packet_times_bounded(i),
            forall|k: int|
                0 <= k < n ==> (#[trigger] servers@[k]).statistics.packets_generated + (ticks - i)
                    <= u32::MAX,
            forall|k: int|
                0 <= k < n ==> (#[trigger] servers@[k]).statistics.packets_processed + (ticks - i)
                    <= u32::MAX,
            forall|k: int|
                0 <= k < n ==> (#[trigger] servers@[k]).statistics.packets_dropped + (ticks - i)
                    <= u32::MAX,
            samples@.len() == total_processed(servers@) - total_processed(orig),
        decreases ticks - i,
    {
        let mut local: BitVec = bitvec_from_elem(n, false);
        let ghost row_pre = servers@;
        let ghost med_pre = *medium;
        let ghost samples_pre = samples@;
        let ghost mut rets: Seq<Option<Packet>> = Seq::empty();
        proof {
            assert(bits_of(local).len() == n);
            assert(samples@ =~= samples_pre + round_samples(rets, i));
        }
        let mut j: usize = 0;
        while j < n
            invariant
                0 <= i < ticks,
                j <= n,
                n == servers@.len(),
                medium.wf(),
                medium.nodes() == n,
                bits_of(local).len() == n,
                *medium == med_pre,
                row_pre.len() == n,
                rets.len() == j,
                forall|k: int| j <= k < n ==> servers@[k] == row_pre[k],
                forall|k: int| j <= k < n ==> !(#[trigger] bits_of(local)[k]),
                forall|k: int|
                    0 <= k < j ==> station_stepped(
                        row_pre[k],
                        servers@[k],
                        rets[k],
                        busy_in(med_pre.head_bits(), k),
                        i,
                        #[trigger] bits_of(local)[k],
                    ),
                samples@ == samples_pre + round_samples(rets, i),
                forall|k: int| 0 <= k < n ==> (#[trigger] servers@[k]).wf(),
                forall|k: int| 0 <= k < n ==> (#[trigger] servers@[k]).id == k,
                forall|k: int| 0 <= k < n ==> (#[trigger] servers@[k]).balanced(),
                forall|k: int| 0 <= k < n ==> (#[trigger] servers@[k]).packet_times_bounded(i),
                forall|k: int|
                    0 <= k < j ==> (#[trigger] servers@[k]).statistics.packets_generated + (ticks
                        - i - 1) <= u32::MAX,
                forall|k: int|
                    0 <= k < j ==> (#[trigger] servers@[k]).statistics.packets_processed + (ticks
                        - i - 1) <= u32::MAX,
                forall|k: int|
                    0 <= k < j ==> (#[trigger] servers@[k]).statistics.packets_dropped + (ticks - i
                        - 1) <= u32::MAX,
                forall|k: int|
                    j <= k < n ==> (#[trigger] servers@[k]).statistics.packets_generated + (ticks
                        - i) <= u32::MAX,
                forall|k: int|
                    j <= k < n ==> (#[trigger] servers@[k]).statistics.packets_processed + (ticks
                        - i) <= u32::MAX,
                forall|k: int|
                    j <= k < n ==> (#[trigger] servers@[k]).statistics.packets_dropped + (ticks
                        - i) <= u32::MAX,
                samples@.len() == total_processed(servers@) - total_processed(orig),
            decreases n - j,
        {
            let ghost before = servers@;
            let ghost lbits = bits_of(local);
            let mut s = servers.remove(j);
            let ret = s.tick(&mut local, medium, i);
            let ghost snew = s;
            servers.insert(j, s);
            proof {
                assert(servers@ =~= before.update(j as int, snew));
                lemma_total_processed_update(before, j as int, snew);
                let slots = choose|slots: u32|
                    slots_ok(slots, before[j as int].state, before[j as int].retries)
                        && tick_transition(
                        before[j as int],
                        snew,
                        ret,
                        medium.busy_for(j as int),
                        i,
                        lbits[j as int],
                        bits_of(local)[j as int],
                        slots,
                    );
                assert(tick_transition(
                    row_pre[j as int],
                    snew,
                    ret,
                    busy_in(med_pre.head_bits(), j as int),
                    i,
                    false,
                    bits_of(local)[j as int],
                    slots,
                ));
                assert(station_stepped(
                    row_pre[j as int],
                    snew,
                    ret,
                    busy_in(med_pre.head_bits(), j as int),
                    i,
                    bits_of(local)[j as int],
                ));
                let rets0 = rets;
                rets = rets.push(ret);
                lemma_round_samples_push(rets0, ret, i);
            }
            match ret {
                Some(p) => {
                    samples.push(i - p.time_generated);
                    proof {
                        assert(samples@ =~= samples_pre + round_samples(rets, i));
                    }
                },
                None => {},
            }
            j += 1;
        }
        let ghost bits_out = bits_of(local);
        proof {
            assert(round_rel(row_pre, servers@, med_pre, bits_out, rets, i));
        }
        medium.write(local);
        medium.tick();
        proof {
            assert(medium_round(med_pre, *medium, bits_out));
            lemma_run_trace_extend(
                orig,
                orig_med,
                row_pre,
                med_pre,
                samples_pre,
                servers@,
                *medium,
                bits_out,
                rets,
                samples@,
                i,
            );
        }
        i += 1;
    }
    samples
}

} // verus!
