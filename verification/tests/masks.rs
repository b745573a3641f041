use sensel::contact;
use sensel::frame;

/// Exhaustive over the 4-bit space: each frame-content flag is present
/// exactly when its bit is set, including the all-zero and all-set cases.
#[test]
fn frame_mask_exhaustive() {
    for raw in 0u8..16 {
        let m = frame::Mask::from_bits_truncate(raw);
        assert_eq!(m.pressure, raw & frame::FRAME_CONTENT_PRESSURE_MASK != 0);
        assert_eq!(m.labels, raw & frame::FRAME_CONTENT_LABELS_MASK != 0);
        assert_eq!(m.contacts, raw & frame::FRAME_CONTENT_CONTACTS_MASK != 0);
        assert_eq!(m.accel, raw & frame::FRAME_CONTENT_ACCEL_MASK != 0);
    }
    let none = frame::Mask::from_bits_truncate(0);
    assert!(!none.pressure && !none.labels && !none.contacts && !none.accel);
    let all = frame::Mask::from_bits_truncate(0x0F);
    assert!(all.pressure && all.labels && all.contacts && all.accel);
}

/// Exhaustive over the 4-bit space: each contact-content flag is present
/// exactly when its bit is set.
#[test]
fn contact_mask_exhaustive() {
    for raw in 0u8..16 {
        let m = contact::Mask::from_bits_truncate(raw);
        assert_eq!(m.ellipse, raw & contact::CONTACT_MASK_ELLIPSE != 0);
        assert_eq!(m.deltas, raw & contact::CONTACT_MASK_DELTAS != 0);
        assert_eq!(m.bounding_box, raw & contact::CONTACT_MASK_BOUNDING_BOX != 0);
        assert_eq!(m.peak, raw & contact::CONTACT_MASK_PEAK != 0);
    }
}

/// Unknown and reserved bits are silently discarded: they never cause a
/// failure and never make an unrelated flag appear set.
#[test]
fn masks_ignore_unknown_bits() {
    for low in 0u8..16 {
        for high in [0x10u8, 0x40, 0x80, 0xF0] {
            let fm = frame::Mask::from_bits_truncate(low | high);
            assert_eq!(fm, frame::Mask::from_bits_truncate(low));
            let cm = contact::Mask::from_bits_truncate(low | high);
            assert_eq!(cm, contact::Mask::from_bits_truncate(low));
        }
    }
    let m = frame::Mask::from_bits_truncate(0xF0);
    assert!(!m.pressure && !m.labels && !m.contacts && !m.accel);
}

/// `bits` reproduces exactly the known bits the mask was built from.
#[test]
fn mask_bits_round_trip() {
    for raw in 0u8..16 {
        assert_eq!(frame::Mask::from_bits_truncate(raw).bits(), raw);
        assert_eq!(contact::Mask::from_bits_truncate(raw).bits(), raw);
    }
    assert_eq!(frame::Mask::from_bits_truncate(0xFF).bits(), 0x0F);
    assert_eq!(contact::Mask::from_bits_truncate(0x35).bits(), 0x05);
}

/// Membership is subset containment of the flag sets.
#[test]
fn mask_contains() {
    let m = frame::Mask::from_bits_truncate(
        frame::FRAME_CONTENT_CONTACTS_MASK | frame::FRAME_CONTENT_ACCEL_MASK,
    );
    assert!(m.contains(frame::Mask::from_bits_truncate(frame::FRAME_CONTENT_CONTACTS_MASK)));
    assert!(m.contains(frame::Mask::from_bits_truncate(0)));
    assert!(!m.contains(frame::Mask::from_bits_truncate(frame::FRAME_CONTENT_PRESSURE_MASK)));
    let c = contact::Mask::from_bits_truncate(contact::CONTACT_MASK_PEAK);
    assert!(c.contains(contact::Mask::from_bits_truncate(contact::CONTACT_MASK_PEAK)));
    assert!(!c.contains(contact::Mask::from_bits_truncate(contact::CONTACT_MASK_DELTAS)));
}
