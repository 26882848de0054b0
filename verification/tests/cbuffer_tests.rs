use nlib::cbuffer::CircularBuffer;

#[test]
fn test_cbuffer() {
    let mut c: CircularBuffer<u32> = CircularBuffer::new(2, 0);

    assert_eq!(c.read(), 0);

    c.write(1);
    assert_eq!(c.read(), 1);

    c.tick();
    assert_eq!(c.read(), 0);

    c.write(1);
    assert_eq!(c.read(), 1);

    c.tick();
    assert_eq!(c.read(), 1);
}

// Advancing the ring as many times as it has slots returns the head to its
// starting slot.
#[test]
fn full_cycle_returns_to_start() {
    let mut c: CircularBuffer<u32> = CircularBuffer::new(3, 0);

    c.write(7);
    c.tick();
    c.write(8);
    c.tick();
    c.write(9);
    c.tick();

    assert_eq!(c.read(), 7);
    c.tick();
    assert_eq!(c.read(), 8);
    c.tick();
    assert_eq!(c.read(), 9);
}

#[test]
fn from_slots_starts_at_first() {
    let c: CircularBuffer<u32> = CircularBuffer::from_slots(vec![4, 5, 6]);
    assert_eq!(c.read(), 4);
}
