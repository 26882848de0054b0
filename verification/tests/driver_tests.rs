use nlib::client::Deterministic;
use nlib::driver::run;
use nlib::medium::Medium;
use nlib::server::Server;

// A single station with deterministic arrivals on a clear medium: nothing
// is ever dropped, and every packet whose service window fits in the run
// is processed. Arrivals land every 200 ticks; each one spends 96 ticks
// sensing and one tick transmitting, so it completes 96 ticks after it
// arrived.
#[test]
fn single_station_deterministic_run() {
    let mut servers = vec![Server::new(0, Deterministic::new(200), 1, 1, 1, false)];
    let mut medium = Medium::new(1, 1);

    let samples = run(&mut servers, &mut medium, 5000);

    let generated = servers[0].packets_generated();
    let processed = servers[0].packets_processed();
    let dropped = servers[0].packets_dropped();

    // Arrivals at ticks 199, 399, ..., 4999: 25 packets; the last one is
    // still in flight when the run ends.
    assert_eq!(generated, 25);
    assert_eq!(processed, 24);
    assert_eq!(dropped, 0);

    // One sojourn sample per processed packet, each 96 ticks long.
    assert_eq!(samples.len(), 24);
    for s in &samples {
        assert_eq!(*s, 96);
    }

    // Accounting: generated = processed + dropped + still queued or in
    // flight.
    assert_eq!(generated, processed + dropped + 1);
}

// Two idle stations with no arrivals: a run changes nothing and yields no
// samples.
#[test]
fn idle_network_run() {
    let mut servers = vec![
        Server::new(0, Deterministic::new(u32::MAX), 1, 1, 1, false),
        Server::new(1, Deterministic::new(u32::MAX), 1, 1, 1, false),
    ];
    let mut medium = Medium::new(2, 26);

    let samples = run(&mut servers, &mut medium, 1000);

    assert_eq!(samples.len(), 0);
    for s in &servers {
        assert_eq!(s.packets_generated(), 0);
        assert_eq!(s.packets_processed(), 0);
        assert_eq!(s.packets_dropped(), 0);
    }
}
