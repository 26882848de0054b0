use nlib::client::{Client, Deterministic, Packet};

#[test]
fn client_packet_generation() {
    // An inter-arrival gap of two ticks: nothing on the first tick, a
    // packet stamped with the current time on the second.
    let mut c = Client::new(Deterministic::new(2), 1);
    assert!(c.tick(0).is_none());
    assert!(
        c.tick(1).unwrap()
            == Packet {
                time_generated: 1,
                length: 1,
            }
    );
}

#[test]
fn client_zero_interval_fires_every_tick() {
    let mut c = Client::new(Deterministic::new(0), 3);
    assert_eq!(c.tick(0), Some(Packet { time_generated: 0, length: 3 }));
    assert_eq!(c.tick(1), Some(Packet { time_generated: 1, length: 3 }));
}
