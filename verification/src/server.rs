//! The per-station CSMA/CD state machine. Each tick a station collects any
//! newly arrived packet, then runs one step of the protocol: interframe
//! sensing, transmission with collision detection, jamming, and binary
//! exponential backoff with a retry ceiling.

use vstd::prelude::*;
use vstd::arithmetic::power2::{
    pow2,
    lemma2_to64,
    lemma_pow2_pos,
    lemma_pow2_strictly_increases,
    lemma_pow2_unfold,
};
use std::collections::VecDeque;
use bit_vec::BitVec;
use crate::bitmap::{bits_of, bitvec_set};
use crate::client::{Client, Generator, Packet};
use crate::medium::Medium;
use crate::rng::random_below;

verus! {

// The protocol constants are bit-times taken as ticks: at the default
// configuration (one-microsecond resolution, one-megabit link) one bit-time
// is exactly one tick.
/// Interframe spacing: ticks a station must sense before transmitting.
pub const IFS_TICKS: u32 = 96;

/// One backoff slot, in ticks.
pub const SLOT_TICKS: u32 = 512;

/// Length of the jam signal emitted after a collision, in ticks.
pub const JAM_TICKS: u32 = 48;

/// The retry ceiling: a packet whose retry count would pass this is dropped.
pub const MAX_RETRIES: u32 = 10;

/// What a station is doing with the packet currently in flight, if any.
#[derive(Clone, Copy, PartialEq, Eq, Structural, Debug)]
pub enum ServerState {
    /// No packet in flight.
    Idle,
    /// Spending the interframe gap listening; `busy` records whether any
    /// tick of this phase observed a foreign transmission.
    Sensing { counter: u32, busy: bool, current_packet: Packet },
    /// Placing bits on the medium. `bits_processed` accumulates `pspeed`
    /// per collision-free tick; the packet is done when it reaches
    /// `length * resolution`.
    Transmitting { bits_processed: u64, current_packet: Packet },
    /// A collision was detected; emitting the jam signal while `counter`
    /// runs down.
    Jamming { counter: u32, current_packet: Packet },
    /// In backoff; `counter` ascends until it reaches `wait_time`.
    Waiting { counter: u32, wait_time: u32, current_packet: Packet },
}

/// The per-station statistics collected over a run.
#[derive(Clone, Copy, PartialEq, Eq, Structural, Debug)]
pub struct ServerStatistics {
    pub packets_processed: u32,
    pub packets_generated: u32,
    pub packets_dropped: u32,
}

impl ServerStatistics {
    pub fn new() -> (s: ServerStatistics)
        ensures
            s == (ServerStatistics {
                packets_processed: 0u32,
                packets_generated: 0u32,
                packets_dropped: 0u32,
            }),
    {
        ServerStatistics { packets_processed: 0, packets_generated: 0, packets_dropped: 0 }
    }
}

/// The packet embedded in the station's state, if any.
pub open spec fn flight_packet(s: ServerState) -> Option<Packet> {
    match s {
        ServerState::Idle => None,
        ServerState::Sensing { current_packet, .. } => Some(current_packet),
        ServerState::Transmitting { current_packet, .. } => Some(current_packet),
        ServerState::Jamming { current_packet, .. } => Some(current_packet),
        ServerState::Waiting { current_packet, .. } => Some(current_packet),
    }
}

/// How many packets the state embeds: zero when idle, one otherwise.
pub open spec fn in_flight(s: ServerState) -> nat {
    if flight_packet(s) is Some {
        1nat
    } else {
        0nat
    }
}

/// Law: a station's state embeds at most one packet; every other pending
/// packet sits in the FIFO queue.
pub proof fn lemma_at_most_one_in_flight(s: ServerState)
    ensures
        in_flight(s) <= 1,
{
}

/// The counters and accumulators a state may hold at rest.
pub open spec fn state_ok(s: ServerState, pspeed: u32, resolution: u32) -> bool {
    match s {
        ServerState::Idle => true,
        ServerState::Sensing { counter, .. } => counter <= IFS_TICKS,
        ServerState::Transmitting { bits_processed, current_packet } => bits_processed
            <= current_packet.length * resolution,
        ServerState::Jamming { counter, .. } => 1 <= counter <= JAM_TICKS,
        ServerState::Waiting { counter, wait_time, .. } => counter <= wait_time,
    }
}

/// The outcome of one state-machine step: the new state, the queue after
/// any dequeue, the new retry count, which terminal counters ticked, the
/// completed packet handed back to the driver, and whether the station
/// marks its own bit in this tick's outgoing bitmap.
pub ghost struct FsmPost {
    pub state: ServerState,
    pub queue: Seq<Packet>,
    pub retries: u32,
    pub processed: bool,
    pub dropped: bool,
    pub completed: Option<Packet>,
    pub marks_bit: bool,
}

/// The state after a packet enters the sensing phase: the first interframe
/// tick is spent immediately, observing the medium once.
pub open spec fn begin_sensing(p: Packet, busy: bool) -> ServerState {
    ServerState::Sensing { counter: 1u32, busy, current_packet: p }
}

/// The backoff wait: `slots` backoff slots, or none at all in 1-persistent
/// mode.
pub open spec fn backoff_wait(persistence: bool, slots: u32) -> u32 {
    if persistence {
        0u32
    } else {
        (slots * SLOT_TICKS) as u32
    }
}

/// The step taken when a sensing or jamming round ends in failure for
/// packet `p`: one more retry. Past the ceiling the packet is dropped and
/// the next queued packet (if any) enters sensing at a fresh retry count;
/// otherwise the station backs off for `wait` ticks, re-entering sensing at
/// once when the wait is zero.
pub open spec fn retry_step(p: Packet, q: Seq<Packet>, retries: u32, busy: bool, wait: u32) -> FsmPost {
    if retries + 1 > MAX_RETRIES {
        if q.len() > 0 {
            FsmPost {
                state: begin_sensing(q[0], busy),
                queue: q.drop_first(),
                retries: 0u32,
                processed: false,
                dropped: true,
                completed: None,
                marks_bit: false,
            }
        } else {
            FsmPost {
                state: ServerState::Idle,
                queue: q,
                retries: (retries + 1) as u32,
                processed: false,
                dropped: true,
                completed: None,
                marks_bit: false,
            }
        }
    } else if wait == 0 {
        FsmPost {
            state: begin_sensing(p, busy),
            queue: q,
            retries: (retries + 1) as u32,
            processed: false,
            dropped: false,
            completed: None,
            marks_bit: false,
        }
    } else {
        FsmPost {
            state: ServerState::Waiting { counter: 1u32, wait_time: wait, current_packet: p },
            queue: q,
            retries: (retries + 1) as u32,
            processed: false,
            dropped: false,
            completed: None,
            marks_bit: false,
        }
    }
}

/// One transmitting tick for packet `p` with `bits` already accumulated: a
/// busy medium means a collision and the start of the jam signal; otherwise
/// `pspeed` more bit-units go out, and the packet completes when the
/// accumulated amount reaches `length * resolution`. The station marks its
/// bit in every case.
pub open spec fn transmit_step(
    p: Packet,
    q: Seq<Packet>,
    retries: u32,
    busy: bool,
    bits: u64,
    pspeed: u32,
    resolution: u32,
) -> FsmPost {
    if busy {
        FsmPost {
            state: ServerState::Jamming { counter: JAM_TICKS, current_packet: p },
            queue: q,
            retries,
            processed: false,
            dropped: false,
            completed: None,
            marks_bit: true,
        }
    } else if bits + pspeed >= p.length * resolution {
        FsmPost {
            state: ServerState::Idle,
            queue: q,
            retries,
            processed: true,
            dropped: false,
            completed: Some(p),
            marks_bit: true,
        }
    } else {
        FsmPost {
            state: ServerState::Transmitting {
                bits_processed: (bits + pspeed) as u64,
                current_packet: p,
            },
            queue: q,
            retries,
            processed: false,
            dropped: false,
            completed: None,
            marks_bit: true,
        }
    }
}

/// A step with no dequeue, no terminal event, and no bit placed.
pub open spec fn quiet_step(state: ServerState, q: Seq<Packet>, retries: u32) -> FsmPost {
    FsmPost {
        state,
        queue: q,
        retries,
        processed: false,
        dropped: false,
        completed: None,
        marks_bit: false,
    }
}

/// The complete state-machine transition for one tick, after this tick's
/// arrival has been queued: `q` is the queue at the start of the step,
/// `busy` what the medium shows this station, and `slots` the backoff draw
/// (consulted only when a backoff begins this tick).
pub open spec fn fsm_step(
    state: ServerState,
    q: Seq<Packet>,
    retries: u32,
    busy: bool,
    persistence: bool,
    pspeed: u32,
    resolution: u32,
    slots: u32,
) -> FsmPost {
    match state {
        ServerState::Idle => {
            if q.len() == 0 {
                quiet_step(ServerState::Idle, q, retries)
            } else {
                quiet_step(begin_sensing(q[0], busy), q.drop_first(), 0u32)
            }
        },
        ServerState::Sensing { counter, busy: seen, current_packet } => {
            if counter < IFS_TICKS {
                quiet_step(
                    ServerState::Sensing {
                        counter: (counter + 1) as u32,
                        busy: seen || busy,
                        current_packet,
                    },
                    q,
                    retries,
                )
            } else if seen {
                retry_step(current_packet, q, retries, busy, backoff_wait(persistence, slots))
            } else {
                transmit_step(current_packet, q, retries, busy, 0u64, pspeed, resolution)
            }
        },
        ServerState::Transmitting { bits_processed, current_packet } => {
            transmit_step(current_packet, q, retries, busy, bits_processed, pspeed, resolution)
        },
        ServerState::Jamming { counter, current_packet } => {
            if counter > 1 {
                FsmPost {
                    state: ServerState::Jamming {
                        counter: (counter - 1) as u32,
                        current_packet,
                    },
                    queue: q,
                    retries,
                    processed: false,
                    dropped: false,
                    completed: None,
                    marks_bit: true,
                }
            } else {
                retry_step(current_packet, q, retries, busy, backoff_wait(false, slots))
            }
        },
        ServerState::Waiting { counter, wait_time, current_packet } => {
            if counter < wait_time {
                quiet_step(
                    ServerState::Waiting {
                        counter: (counter + 1) as u32,
                        wait_time,
                        current_packet,
                    },
                    q,
                    retries,
                )
            } else {
                quiet_step(begin_sensing(current_packet, busy), q, retries)
            }
        },
    }
}

/// Whether this tick's transition consults the backoff draw.
pub open spec fn begins_backoff(state: ServerState) -> bool {
    ||| state matches ServerState::Sensing { counter, busy: seen, .. } && counter >= IFS_TICKS
        && seen
    ||| state matches ServerState::Jamming { counter, .. } && counter <= 1
}

/// When a backoff begins this tick, the drawn slot count is uniform over
/// `[0, 2^r - 1]` for the incremented retry count `r`.
pub open spec fn slots_ok(slots: u32, state: ServerState, retries: u32) -> bool {
    (begins_backoff(state) && retries < MAX_RETRIES) ==> (slots as nat) < pow2(
        (retries + 1) as nat,
    )
}

/// Stores packets in a queue and transmits them over the shared medium,
/// driving the CSMA/CD state machine one step per tick.
pub struct Server<G: Generator> {
    pub id: usize,
    pub client: Client<G>,
    pub queue: VecDeque<Packet>,
    pub statistics: ServerStatistics,
    pub state: ServerState,
    pub persistence: bool,
    pub pspeed: u32,
    pub resolution: u32,
    pub retries: u32,
}

/// The queue after this tick's arrival: one more packet, stamped `now`,
/// exactly when the client fires.
pub open spec fn arrival_queue<G: Generator>(pre: Server<G>, now: u32) -> Seq<Packet> {
    if pre.client.fires() {
        pre.queue@.push(Packet { time_generated: now, length: pre.client.packet_length })
    } else {
        pre.queue@
    }
}

/// The full effect of one `Server::tick` on the station, for given values
/// of `busy` (what the medium shows the station), `slots` (the backoff
/// draw), and the station's own bit in the outgoing bitmap before and
/// after.
pub open spec fn tick_transition<G: Generator>(
    pre: Server<G>,
    post: Server<G>,
    r: Option<Packet>,
    busy: bool,
    now: u32,
    own_pre: bool,
    own_post: bool,
    slots: u32,
) -> bool {
    let fired = pre.client.fires();
    let step = fsm_step(
        pre.state,
        arrival_queue(pre, now),
        pre.retries,
        busy,
        pre.persistence,
        pre.pspeed,
        pre.resolution,
        slots,
    );
    &&& post.state == step.state
    &&& post.queue@ == step.queue
    &&& post.retries == step.retries
    &&& post.statistics.packets_generated == pre.statistics.packets_generated + (
    if fired {
        1int
    } else {
        0int
    })
    &&& post.statistics.packets_processed == pre.statistics.packets_processed + (
    if step.processed {
        1int
    } else {
        0int
    })
    &&& post.statistics.packets_dropped == pre.statistics.packets_dropped + (
    if step.dropped {
        1int
    } else {
        0int
    })
    &&& r == step.completed
    &&& own_post == (own_pre || step.marks_bit)
    &&& post.id == pre.id
    &&& post.persistence == pre.persistence
    &&& post.pspeed == pre.pspeed
    &&& post.resolution == pre.resolution
    &&& post.client.packet_length == pre.client.packet_length
}

/// Law: one tick conserves the packet accounting: the growth of
/// `packets_generated` equals the combined growth of the processed and
/// dropped counters, the queue, and the in-flight count. Starting from a
/// freshly built station, whose books are balanced, this gives
/// `generated == processed + dropped + queued + in-flight` at every tick of
/// every run.
pub proof fn lemma_tick_conserves_balance<G: Generator>(
    pre: Server<G>,
    post: Server<G>,
    r: Option<Packet>,
    busy: bool,
    now: u32,
    own_pre: bool,
    own_post: bool,
    slots: u32,
)
    requires
        tick_transition(pre, post, r, busy, now, own_pre, own_post, slots),
    ensures
        pre.statistics.packets_generated + post.statistics.packets_processed
            + post.statistics.packets_dropped + post.queue@.len() + in_flight(post.state)
            == post.statistics.packets_generated + pre.statistics.packets_processed
            + pre.statistics.packets_dropped + pre.queue@.len() + in_flight(pre.state),
{
}

/// Law: the retry counter stays within `[0, MAX_RETRIES]` while a packet is
/// in flight; it passes the ceiling only in the tick that drops a packet,
/// leaving the station idle.
pub proof fn lemma_retry_ceiling<G: Generator>(
    pre: Server<G>,
    post: Server<G>,
    r: Option<Packet>,
    busy: bool,
    now: u32,
    own_pre: bool,
    own_post: bool,
    slots: u32,
)
    requires
        pre.wf(),
        tick_transition(pre, post, r, busy, now, own_pre, own_post, slots),
    ensures
        !(post.state is Idle) ==> post.retries <= MAX_RETRIES,
        post.retries > pre.retries && post.retries > MAX_RETRIES ==> post.state is Idle
            && post.statistics.packets_dropped == pre.statistics.packets_dropped + 1,
{
}

impl<G: Generator> Server<G> {
    /// The station's resting states are well formed: counters in range and
    /// the retry count at or below the ceiling whenever a packet is in
    /// flight.
    pub open spec fn wf(self) -> bool {
        &&& state_ok(self.state, self.pspeed, self.resolution)
        &&& !(self.state is Idle) ==> self.retries <= MAX_RETRIES
    }

    /// Accounting law: every packet this station has generated is in
    /// exactly one place: processed, dropped, still queued, or in flight.
    pub open spec fn balanced(self) -> bool {
        self.statistics.packets_generated == self.statistics.packets_processed
            + self.statistics.packets_dropped + self.queue@.len() + in_flight(self.state)
    }

    /// Every packet this station holds (queued or in flight) was generated
    /// no later than tick `t`.
    pub open spec fn packet_times_bounded(self, t: u32) -> bool {
        &&& forall|i: int|
            0 <= i < self.queue@.len() ==> (#[trigger] self.queue@[i]).time_generated <= t
        &&& flight_packet(self.state) matches Some(p) ==> p.time_generated <= t
    }

    /// A fresh, idle station.
    pub fn new(
        id: usize,
        generator: G,
        packet_length: u32,
        resolution: u32,
        pspeed: u32,
        persistence: bool,
    ) -> (s: Self)
        ensures
            s.id == id,
            s.client.packet_length == packet_length,
            s.resolution == resolution,
            s.pspeed == pspeed,
            s.persistence == persistence,
            s.state == ServerState::Idle,
            s.queue@ == Seq::<Packet>::empty(),
            s.retries == 0,
            s.statistics == (ServerStatistics {
                packets_processed: 0u32,
                packets_generated: 0u32,
                packets_dropped: 0u32,
            }),
            s.wf(),
            s.balanced(),
            forall|t: u32| s.packet_times_bounded(t),
    {
        let s = Server {
            id,
            client: Client::new(generator, packet_length),
            queue: VecDeque::new(),
            statistics: ServerStatistics::new(),
            state: ServerState::Idle,
            persistence,
            pspeed,
            resolution,
            retries: 0,
        };
        proof {
            assert(s.queue@ =~= Seq::<Packet>::empty());
        }
        s
    }

    /// Queue a packet for delivery. The queue is unbounded, so nothing is
    /// ever rejected here.
    pub fn enqueue(&mut self, packet: Packet)
        ensures
            final(self).queue@ == old(self).queue@.push(packet),
            final(self).id == old(self).id,
            final(self).client == old(self).client,
            final(self).statistics == old(self).statistics,
            final(self).state == old(self).state,
            final(self).persistence == old(self).persistence,
            final(self).pspeed == old(self).pspeed,
            final(self).resolution == old(self).resolution,
            final(self).retries == old(self).retries,
    {
        self.queue.push_back(packet);
    }

    /// The number of packets this station has fully transmitted so far.
    pub fn packets_processed(&self) -> (n: u32)
        ensures
            n == self.statistics.packets_processed,
    {
        self.statistics.packets_processed
    }

    /// The number of packets this station's arrival source has generated so
    /// far.
    pub fn packets_generated(&self) -> (n: u32)
        ensures
            n == self.statistics.packets_generated,
    {
        self.statistics.packets_generated
    }

    /// The number of packets this station has dropped at the retry ceiling
    /// so far.
    pub fn packets_dropped(&self) -> (n: u32)
        ensures
            n == self.statistics.packets_dropped,
    {
        self.statistics.packets_dropped
    }

    /// Observe the medium once and enter the sensing phase for `p`.
    fn enter_sensing(&mut self, medium: &Medium, p: Packet)
        requires
            medium.wf(),
            old(self).id < medium.nodes(),
        ensures
            *final(self) == (Server {
                state: begin_sensing(p, medium.busy_for(old(self).id as int)),
                ..*old(self)
            }),
    {
        let b = medium.is_busy(self.id);
        self.state = ServerState::Sensing { counter: 1, busy: b, current_packet: p };
    }

    /// `2^k` for the backoff range.
    fn pow2_exec(k: u32) -> (r: u32)
        requires
            k <= MAX_RETRIES,
        ensures
            r == pow2(k as nat),
            1 <= r <= 1024,
    {
        proof {
            lemma2_to64();
        }
        let mut r: u32 = 1;
        let mut i: u32 = 0;
        while i < k
            invariant
                i <= k <= MAX_RETRIES,
                r == pow2(i as nat),
                1 <= r <= 1024,
            decreases k - i,
        {
            proof {
                lemma_pow2_unfold((i + 1) as nat);
                lemma2_to64();
                if i + 1 < 10 {
                    lemma_pow2_strictly_increases((i + 1) as nat, 10nat);
                }
            }
            r = r * 2;
            i = i + 1;
        }
        r
    }

    /// A sensing or jamming round has failed for `p`: count the retry and
    /// either drop the packet (past the ceiling) or begin the backoff wait,
    /// drawing the wait uniformly from the doubled range. The draw actually
    /// used is returned as a ghost value.
    fn retry_or_drop(&mut self, medium: &Medium, p: Packet, apply_persistence: bool) -> (g: Ghost<
        u32,
    >)
        requires
            medium.wf(),
            old(self).id < medium.nodes(),
            old(self).retries <= MAX_RETRIES,
            old(self).statistics.packets_dropped < u32::MAX,
        ensures
            (g@ as nat) < pow2((old(self).retries + 1) as nat),
            ({
                let busy = medium.busy_for(old(self).id as int);
                let wait = backoff_wait(apply_persistence && old(self).persistence, g@);
                let step = retry_step(p, old(self).queue@, old(self).retries, busy, wait);
                &&& final(self).state == step.state
                &&& final(self).queue@ == step.queue
                &&& final(self).retries == step.retries
                &&& final(self).statistics.packets_dropped == old(self).statistics.packets_dropped
                    + (if step.dropped {
                    1int
                } else {
                    0int
                })
                &&& final(self).statistics.packets_generated == old(self).statistics.packets_generated
                &&& final(self).statistics.packets_processed == old(self).statistics.packets_processed
                &&& final(self).id == old(self).id
                &&& final(self).client == old(self).client
                &&& final(self).persistence == old(self).persistence
                &&& final(self).pspeed == old(self).pspeed
                &&& final(self).resolution == old(self).resolution
            }),
    {
        self.retries = self.retries + 1;
        if self.retries > MAX_RETRIES {
            self.statistics.packets_dropped = self.statistics.packets_dropped + 1;
            self.state = ServerState::Idle;
            match self.queue.pop_front() {
                Some(next) => {
                    self.retries = 0;
                    self.enter_sensing(medium, next);
                },
                None => {},
            }
            proof {
                lemma_pow2_pos((old(self).retries + 1) as nat);
            }
            Ghost(0u32)
        } else {
            let bound = Self::pow2_exec(self.retries);
            let slots = random_below(bound);
            let wait_time: u32 = if apply_persistence && self.persistence {
                0
            } else {
                slots * SLOT_TICKS
            };
            if wait_time == 0 {
                self.enter_sensing(medium, p);
            } else {
                self.state = ServerState::Waiting { counter: 1, wait_time, current_packet: p };
            }
            Ghost(slots)
        }
    }

    /// One transmitting tick for `p`: on a quiet medium place `pspeed` more
    /// bit-units (completing the packet when the scaled total reaches its
    /// length), on a busy one start jamming. The station's bit is marked in
    /// the outgoing bitmap either way.
    fn transmit(&mut self, local_state: &mut BitVec, medium: &Medium, p: Packet, bits: u64) -> (r:
        Option<Packet>)
        requires
            medium.wf(),
            old(self).id < medium.nodes(),
            bits_of(*old(local_state)).len() == medium.nodes(),
            bits <= p.length * old(self).resolution,
            old(self).statistics.packets_processed < u32::MAX,
        ensures
            ({
                let busy = medium.busy_for(old(self).id as int);
                let step = transmit_step(
                    p,
                    old(self).queue@,
                    old(self).retries,
                    busy,
                    bits,
                    old(self).pspeed,
                    old(self).resolution,
                );
                &&& final(self).state == step.state
                &&& final(self).queue@ == old(self).queue@
                &&& final(self).retries == old(self).retries
                &&& final(self).statistics.packets_processed == old(self).statistics.packets_processed + (if step.processed {
                    1int
                } else {
                    0int
                })
                &&& final(self).statistics.packets_generated == old(self).statistics.packets_generated
                &&& final(self).statistics.packets_dropped == old(self).statistics.packets_dropped
                &&& r == step.completed
                &&& final(self).id == old(self).id
                &&& final(self).client == old(self).client
                &&& final(self).persistence == old(self).persistence
                &&& final(self).pspeed == old(self).pspeed
                &&& final(self).resolution == old(self).resolution
                &&& bits_of(*final(local_state)) == bits_of(*old(local_state)).update(
                    old(self).id as int,
                    true,
                )
            }),
    {
        proof {
            assert((p.length as int) * (self.resolution as int) <= 0xffff_fffe_0000_0001int)
                by (nonlinear_arith)
                requires
                    p.length <= 0xffff_ffffu32,
                    self.resolution <= 0xffff_ffffu32,
            ;
        }
        let busy_now = medium.is_busy(self.id);
        if !busy_now {
            let nb: u64 = bits + (self.pspeed as u64);
            bitvec_set(local_state, self.id, true);
            let target: u64 = (p.length as u64) * (self.resolution as u64);
            if nb >= target {
                self.statistics.packets_processed = self.statistics.packets_processed + 1;
                self.state = ServerState::Idle;
                Some(p)
            } else {
                self.state = ServerState::Transmitting { bits_processed: nb, current_packet: p };
                None
            }
        } else {
            self.state = ServerState::Jamming { counter: JAM_TICKS, current_packet: p };
            bitvec_set(local_state, self.id, true);
            None
        }
    }

    /// One tick of this station: collect any arrival, then run one step of
    /// the CSMA/CD state machine against the medium, marking the station's
    /// own bit in `local_state` exactly when it transmits or jams this
    /// tick. Returns the packet completed this tick, if any.
    pub fn tick(&mut self, local_state: &mut BitVec, medium: &Medium, current_time: u32) -> (r:
        Option<Packet>)
        requires
            old(self).wf(),
            medium.wf(),
            old(self).id < medium.nodes(),
            bits_of(*old(local_state)).len() == medium.nodes(),
            old(self).statistics.packets_generated < u32::MAX,
            old(self).statistics.packets_processed < u32::MAX,
            old(self).statistics.packets_dropped < u32::MAX,
        ensures
            final(self).wf(),
            bits_of(*final(local_state)).len() == bits_of(*old(local_state)).len(),
            forall|j: int|
                0 <= j < bits_of(*old(local_state)).len() && j != old(self).id ==> bits_of(
                    *final(local_state),
                )[j] == bits_of(*old(local_state))[j],
            exists|slots: u32|
                #[trigger] slots_ok(slots, old(self).state, old(self).retries) && tick_transition(
                    *old(self),
                    *final(self),
                    r,
                    medium.busy_for(old(self).id as int),
                    current_time,
                    bits_of(*old(local_state))[old(self).id as int],
                    bits_of(*final(local_state))[old(self).id as int],
                    slots,
                ),
            old(self).statistics.packets_generated + final(self).statistics.packets_processed
                + final(self).statistics.packets_dropped + final(self).queue@.len() + in_flight(
                final(self).state,
            ) == final(self).statistics.packets_generated
                + old(self).statistics.packets_processed + old(self).statistics.packets_dropped
                + old(self).queue@.len() + in_flight(old(self).state),
            old(self).balanced() ==> final(self).balanced(),
            forall|t: u32|
                old(self).packet_times_bounded(t) && current_time <= t
                    ==> final(self).packet_times_bounded(t),
            r matches Some(p) ==> old(self).packet_times_bounded(current_time)
                ==> p.time_generated <= current_time,
    {
        if let Some(packet) = self.client.tick(current_time) {
            self.statistics.packets_generated = self.statistics.packets_generated + 1;
            self.queue.push_back(packet);
        }
        let ghost mut gslots: u32 = 0u32;
        let r: Option<Packet> = match self.state {
            ServerState::Idle => {
                match self.queue.pop_front() {
                    Some(p) => {
                        self.retries = 0;
                        self.enter_sensing(medium, p);
                    },
                    None => {},
                }
                None
            },
            ServerState::Sensing { counter, busy, current_packet } => {
                if counter < IFS_TICKS {
                    let b = medium.is_busy(self.id);
                    self.state = ServerState::Sensing {
                        counter: counter + 1,
                        busy: busy || b,
                        current_packet,
                    };
                    None
                } else if busy {
                    let g = self.retry_or_drop(medium, current_packet, true);
                    proof {
                        gslots = g@;
                    }
                    None
                } else {
                    proof {
                        assert(0 <= (current_packet.length as int) * (self.resolution as int))
                            by (nonlinear_arith);
                    }
                    self.transmit(local_state, medium, current_packet, 0)
                }
            },
            ServerState::Transmitting { bits_processed, current_packet } => {
                self.transmit(local_state, medium, current_packet, bits_processed)
            },
            ServerState::Jamming { counter, current_packet } => {
                if counter > 1 {
                    self.state = ServerState::Jamming {
                        counter: counter - 1,
                        current_packet,
                    };
                    bitvec_set(local_state, self.id, true);
                    None
                } else {
                    let g = self.retry_or_drop(medium, current_packet, false);
                    proof {
                        gslots = g@;
                    }
                    None
                }
            },
            ServerState::Waiting { counter, wait_time, current_packet } => {
                if counter < wait_time {
                    self.state = ServerState::Waiting {
                        counter: counter + 1,
                        wait_time,
                        current_packet,
                    };
                    None
                } else {
                    self.enter_sensing(medium, current_packet);
                    None
                }
            },
        };
        proof {
            assert(slots_ok(gslots, old(self).state, old(self).retries) && tick_transition(
                *old(self),
                *self,
                r,
                medium.busy_for(old(self).id as int),
                current_time,
                bits_of(*old(local_state))[old(self).id as int],
                bits_of(*local_state)[old(self).id as int],
                gslots,
            ));
        }
        r
    }
}

} // verus!
