use bit_vec::BitVec;
use nlib::client::{Deterministic, Packet};
use nlib::medium::Medium;
use nlib::server::{Server, ServerState, ServerStatistics};

#[test]
fn server_statistics_start_at_zero() {
    let s = ServerStatistics::new();
    assert_eq!(s.packets_processed, 0);
    assert_eq!(s.packets_generated, 0);
    assert_eq!(s.packets_dropped, 0);
}

#[test]
fn server_idle_to_sensing() {
    let medium = Medium::new(1, 1);
    let mut server = Server::new(
        0,                     // id
        Deterministic::new(2), // generator
        1,                     // psize
        1,                     // resolution
        1,                     // lspeed
        false,                 // persistence
    );
    let mut state = BitVec::from_elem(1, false);
    server.tick(&mut state, &medium, 1);
    assert!(server.state == ServerState::Idle);
    server.tick(&mut state, &medium, 1);
    assert!(
        server.state
            == ServerState::Sensing {
                counter: 1,
                busy: false,
                current_packet: Packet {
                    time_generated: 1,
                    length: 1,
                },
            }
    );
    server.tick(&mut state, &medium, 2);
    assert!(
        server.state
            == ServerState::Sensing {
                counter: 2,
                busy: false,
                current_packet: Packet {
                    time_generated: 1,
                    length: 1,
                },
            }
    );
}

#[test]
fn server_busy_medium() {
    let mut medium = Medium::new(2, 1);
    medium.write(BitVec::from_elem(2, true));
    medium.tick();
    let mut server = Server::new(
        0,                     // id
        Deterministic::new(2), // generator
        1,                     // psize
        1,                     // resolution
        1,                     // lspeed
        false,                 // persistence
    );
    let mut state = BitVec::from_elem(2, true);
    server.tick(&mut state, &medium, 1);
    assert!(server.state == ServerState::Idle);
    server.tick(&mut state, &medium, 1);
    assert!(
        server.state
            == ServerState::Sensing {
                counter: 1,
                busy: true,
                current_packet: Packet {
                    time_generated: 1,
                    length: 1,
                },
            }
    );
}

#[test]
fn server_sensing_to_transmitting() {
    let mut medium = Medium::new(2, 1);
    let mut server = Server::new(
        0,                     // id
        Deterministic::new(2), // generator
        2,                     // psize
        1,                     // resolution
        1,                     // lspeed
        false,                 // persistence
    );
    let mut state = BitVec::from_elem(2, false);
    server.tick(&mut state, &medium, 1);
    assert!(server.state == ServerState::Idle);
    server.tick(&mut state, &medium, 2);
    assert!(
        server.state
            == ServerState::Sensing {
                counter: 1,
                busy: false,
                current_packet: Packet {
                    time_generated: 2,
                    length: 2,
                },
            }
    );
    medium.write(BitVec::from_elem(2, false));
    server.state = ServerState::Sensing {
        counter: 96,
        busy: false,
        current_packet: Packet {
            time_generated: 2,
            length: 2,
        },
    };
    server.tick(&mut state, &medium, 3);
    assert!(
        server.state
            == ServerState::Transmitting {
                bits_processed: 1,
                current_packet: Packet {
                    time_generated: 2,
                    length: 2,
                },
            }
    );
}

// The interframe gap must fully elapse: a packet that enters sensing at
// tick t0 stays in the sensing phase through tick t0+95 and only starts
// transmitting on tick t0+96.
#[test]
fn ifs_must_fully_elapse() {
    let medium = Medium::new(1, 1);
    let mut server = Server::new(0, Deterministic::new(u32::MAX), 2, 1, 1, false);
    server.enqueue(Packet { time_generated: 0, length: 2 });

    let mut local = BitVec::from_elem(1, false);
    for t in 0u32..=96 {
        server.tick(&mut local, &medium, t);
        if t < 96 {
            assert!(
                server.state
                    == ServerState::Sensing {
                        counter: t + 1,
                        busy: false,
                        current_packet: Packet { time_generated: 0, length: 2 },
                    }
            );
        } else {
            assert!(
                server.state
                    == ServerState::Transmitting {
                        bits_processed: 1,
                        current_packet: Packet { time_generated: 0, length: 2 },
                    }
            );
        }
    }
}

// 1-persistent override: after sensing busy through the whole interframe
// gap, the wait is forced to zero and the station is sensing again in the
// very same step, whatever the retry count says.
#[test]
fn one_persistent_override() {
    let mut medium = Medium::new(2, 1);
    let mut peer_bits = BitVec::from_elem(2, false);
    peer_bits.set(1, true);
    medium.write(peer_bits);

    let mut server = Server::new(0, Deterministic::new(u32::MAX), 1, 1, 1, true);
    server.enqueue(Packet { time_generated: 0, length: 1 });

    let mut local = BitVec::from_elem(2, false);
    for t in 0u32..96 {
        server.tick(&mut local, &medium, t);
        assert!(matches!(server.state, ServerState::Sensing { .. }));
    }
    // Tick 96 ends the busy sensing round; with persistence on, the backoff
    // is skipped and a fresh sensing round starts immediately.
    server.tick(&mut local, &medium, 96);
    assert!(
        server.state
            == ServerState::Sensing {
                counter: 1,
                busy: true,
                current_packet: Packet { time_generated: 0, length: 1 },
            }
    );
    assert_eq!(server.retries, 1);
    assert_eq!(server.packets_dropped(), 0);
}

// Ten retries exhausted: with a peer holding the medium busy for good, the
// station backs off round after round and drops the packet on the
// eleventh retry increment.
#[test]
fn ten_retries_exhausted() {
    let mut medium = Medium::new(2, 1);
    let mut peer_bits = BitVec::from_elem(2, false);
    peer_bits.set(1, true);
    medium.write(peer_bits);

    let mut server = Server::new(0, Deterministic::new(u32::MAX), 1, 1, 1, false);
    server.enqueue(Packet { time_generated: 0, length: 1 });

    let mut local = BitVec::from_elem(2, false);
    let mut t: u32 = 0;
    while server.packets_dropped() == 0 && t < 3_000_000 {
        server.tick(&mut local, &medium, t);
        t += 1;
    }
    assert_eq!(server.packets_dropped(), 1);
    assert_eq!(server.packets_processed(), 0);
    assert!(server.state == ServerState::Idle);
}

// When a drop occurs with more packets waiting, the next packet leaves the
// queue in the same step and starts its own sensing rounds at a fresh
// retry count; against a permanently busy medium it is dropped too.
#[test]
fn drop_dequeues_next_packet() {
    let mut medium = Medium::new(2, 1);
    let mut peer_bits = BitVec::from_elem(2, false);
    peer_bits.set(1, true);
    medium.write(peer_bits);

    let mut server = Server::new(0, Deterministic::new(u32::MAX), 1, 1, 1, false);
    server.enqueue(Packet { time_generated: 0, length: 1 });
    server.enqueue(Packet { time_generated: 0, length: 1 });

    let mut local = BitVec::from_elem(2, false);
    let mut t: u32 = 0;
    while server.packets_dropped() < 1 && t < 3_000_000 {
        server.tick(&mut local, &medium, t);
        t += 1;
    }
    // The second packet took the first one's place without going idle.
    assert_eq!(server.packets_dropped(), 1);
    assert!(matches!(server.state, ServerState::Sensing { .. }));
    assert_eq!(server.retries, 0);

    while server.packets_dropped() < 2 && t < 6_000_000 {
        server.tick(&mut local, &medium, t);
        t += 1;
    }
    assert_eq!(server.packets_dropped(), 2);
    assert_eq!(server.packets_processed(), 0);
    assert!(server.state == ServerState::Idle);
}

// Two stations forced to collide: both pre-seeded transmitting see each
// other one propagation delay later, jam, back off independently, and both
// packets eventually complete.
#[test]
fn two_stations_forced_to_collide() {
    let mut medium = Medium::new(2, 1);
    let mut s0 = Server::new(0, Deterministic::new(u32::MAX), 2, 1, 1, false);
    let mut s1 = Server::new(1, Deterministic::new(u32::MAX), 2, 1, 1, false);
    s0.state = ServerState::Transmitting {
        bits_processed: 0,
        current_packet: Packet { time_generated: 0, length: 2 },
    };
    s1.state = ServerState::Transmitting {
        bits_processed: 0,
        current_packet: Packet { time_generated: 0, length: 2 },
    };

    let mut t: u32 = 0;
    while s0.packets_processed() + s1.packets_processed() < 2 && t < 5_000_000 {
        let mut local = BitVec::from_elem(2, false);
        s0.tick(&mut local, &medium, t);
        s1.tick(&mut local, &medium, t);
        medium.write(local);
        medium.tick();
        if t == 1 {
            // One tick after both placed bits, each sees the other and jams.
            assert!(matches!(s0.state, ServerState::Jamming { counter: 48, .. }));
            assert!(matches!(s1.state, ServerState::Jamming { counter: 48, .. }));
        }
        t += 1;
    }
    assert_eq!(s0.packets_processed() + s1.packets_processed(), 2);
    assert_eq!(s0.packets_dropped() + s1.packets_dropped(), 0);
}
