use bit_vec::BitVec;
use nlib::medium::Medium;

#[test]
fn test_medium() {
    let num_nodes: usize = 8;
    let mut med = Medium::new(num_nodes, 2);

    med.write(BitVec::from_bytes(&[0b10000000]));
    assert!(!med.is_busy(0));
    assert!(med.is_busy(1));

    med.write(BitVec::from_bytes(&[0b01000000]));
    assert!(med.is_busy(0));
    assert!(!med.is_busy(1));

    med.write(BitVec::from_bytes(&[0b11000000]));
    assert!(med.is_busy(0));
    assert!(med.is_busy(1));

    med.write(BitVec::from_bytes(&[0b00000000]));
    assert!(!med.is_busy(0));
    assert!(!med.is_busy(1));

    med.tick();
    assert!(!med.is_busy(0));
    assert!(!med.is_busy(1));
    med.write(BitVec::from_bytes(&[0b01000000]));
    assert!(med.is_busy(0));
    assert!(!med.is_busy(1));

    med.tick();
    assert!(!med.is_busy(0));
    assert!(!med.is_busy(1));
    med.write(BitVec::from_bytes(&[0b11000000]));
    assert!(med.is_busy(0));
    assert!(med.is_busy(1));

    med.tick();
    assert!(med.is_busy(0));
    assert!(!med.is_busy(1));

    med.tick();
    assert!(med.is_busy(0));
    assert!(med.is_busy(1));
}

// A written bitmap is observable at once; the station's own bit is masked
// out; after a tick the older slot becomes the visible one.
#[test]
fn medium_propagation_delay() {
    let mut med = Medium::new(8, 2);

    med.write(BitVec::from_bytes(&[0b10010000]));
    assert!(med.is_busy(3));

    med.write(BitVec::from_bytes(&[0b00010000]));
    assert!(!med.is_busy(3));

    med.tick();
    assert!(!med.is_busy(1));
}
