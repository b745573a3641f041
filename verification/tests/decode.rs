use sensel::contact;
use sensel::contact::{Contact, SenselContact, State};
use sensel::device::SenselSensorInfo;
use sensel::frame;
use sensel::frame::{SenselAccelData, SenselFrameData};

fn sample_record(mask: u8) -> SenselContact {
    SenselContact {
        content_bit_mask: mask,
        id: 7,
        state: 1,
        x_pos: 100,
        y_pos: 200,
        total_force: 300,
        area: 400,
        orientation: 11,
        major_axis: 12,
        minor_axis: 13,
        delta_x: 21,
        delta_y: 22,
        delta_force: 23,
        delta_area: 24,
        min_x: 31,
        min_y: 32,
        max_x: 33,
        max_y: 34,
        peak_x: 41,
        peak_y: 42,
        peak_force: 43,
    }
}

/// Exhaustive over the 4-bit space: a contact substructure is `Some` exactly
/// when its bit is set in the record's embedded mask, and then holds exactly
/// the record's own fields.
#[test]
fn contact_decode_exhaustive_masks() {
    for raw in 0u8..16 {
        let rec = sample_record(raw);
        let c = Contact::from_record(&rec);
        assert_eq!(c.id, 7);
        assert_eq!(c.state, State::Start);
        assert_eq!(c.x, 100);
        assert_eq!(c.y, 200);
        assert_eq!(c.total_force, 300);
        assert_eq!(c.area, 400);
        assert_eq!(c.ellipse.is_some(), raw & contact::CONTACT_MASK_ELLIPSE != 0);
        assert_eq!(c.delta.is_some(), raw & contact::CONTACT_MASK_DELTAS != 0);
        assert_eq!(c.bounding_box.is_some(), raw & contact::CONTACT_MASK_BOUNDING_BOX != 0);
        assert_eq!(c.peak.is_some(), raw & contact::CONTACT_MASK_PEAK != 0);
        if let Some(e) = c.ellipse {
            assert_eq!((e.orientation, e.major_axis, e.minor_axis), (11, 12, 13));
        }
        if let Some(d) = c.delta {
            assert_eq!((d.x, d.y, d.force, d.area), (21, 22, 23, 24));
        }
        if let Some(b) = c.bounding_box {
            assert_eq!((b.min_x, b.min_y, b.max_x, b.max_y), (31, 32, 33, 34));
        }
        if let Some(p) = c.peak {
            assert_eq!((p.x, p.y, p.force), (41, 42, 43));
        }
    }
}

/// Unknown bits in the embedded mask never cause a failure and never make
/// an unrelated substructure appear populated.
#[test]
fn contact_decode_ignores_unknown_bits() {
    let c = Contact::from_record(&sample_record(0xF0));
    assert!(c.ellipse.is_none());
    assert!(c.delta.is_none());
    assert!(c.bounding_box.is_none());
    assert!(c.peak.is_none());
    let c = Contact::from_record(&sample_record(0x80 | contact::CONTACT_MASK_PEAK));
    assert!(c.peak.is_some());
    assert!(c.ellipse.is_none() && c.delta.is_none() && c.bounding_box.is_none());
}

/// An unrecognized raw state always decodes to `Invalid`, never to
/// `Start`/`Move`/`End` and never a failure.
#[test]
fn contact_state_unrecognized_is_invalid() {
    assert_eq!(State::from_raw(0), State::Invalid);
    assert_eq!(State::from_raw(1), State::Start);
    assert_eq!(State::from_raw(2), State::Move);
    assert_eq!(State::from_raw(3), State::End);
    assert_eq!(State::from_raw(4), State::Invalid);
    assert_eq!(State::from_raw(250), State::Invalid);
    assert_eq!(State::from_raw(u32::MAX), State::Invalid);
}

fn sample_geometry() -> SenselSensorInfo {
    SenselSensorInfo { max_contacts: 4, num_rows: 2, num_cols: 3, width: 0, height: 0 }
}

fn sample_frame_data(mask: u8) -> SenselFrameData {
    let mut contacts = Vec::new();
    for i in 0..4u8 {
        let mut rec = sample_record(0);
        rec.id = i;
        contacts.push(rec);
    }
    SenselFrameData {
        content_bit_mask: mask,
        lost_frame_count: 5,
        n_contacts: 2,
        contacts,
        force_array: vec![9, 8, 7, 6, 5, 4],
        labels_array: vec![1, 2, 3, 4, 5, 6],
        accel_data: SenselAccelData { x: -1, y: 2, z: -3 },
    }
}

/// Exhaustive over the 4-bit space: a frame view is `Some` exactly when its
/// bit is set in the frame-level mask, and each view has exactly the
/// negotiated length and contents.
#[test]
fn frame_decode_exhaustive_masks() {
    let sensor = sample_geometry();
    for raw in 0u8..16 {
        let data = sample_frame_data(raw);
        let f = frame::from_frame_data(&data, sensor);
        assert_eq!(f.lost_frame_count, 5);
        assert_eq!(f.contacts.is_some(), raw & frame::FRAME_CONTENT_CONTACTS_MASK != 0);
        assert_eq!(f.force_array.is_some(), raw & frame::FRAME_CONTENT_PRESSURE_MASK != 0);
        assert_eq!(f.labels_array.is_some(), raw & frame::FRAME_CONTENT_LABELS_MASK != 0);
        assert_eq!(f.accel_data.is_some(), raw & frame::FRAME_CONTENT_ACCEL_MASK != 0);
        if let Some(cs) = f.contacts {
            assert_eq!(cs.len(), 2);
            assert_eq!(cs[0].id, 0);
            assert_eq!(cs[1].id, 1);
        }
        if let Some(fa) = f.force_array {
            assert_eq!(fa, &[9, 8, 7, 6, 5, 4]);
        }
        if let Some(la) = f.labels_array {
            assert_eq!(la, &[1, 2, 3, 4, 5, 6]);
        }
        if let Some(a) = f.accel_data {
            assert_eq!((a.x, a.y, a.z), (-1, 2, -3));
        }
    }
}

/// Unknown bits in the frame-level mask yield no view at all: every field
/// is `None`, with no failure.
#[test]
fn frame_decode_ignores_unknown_bits() {
    let sensor = sample_geometry();
    let data = sample_frame_data(0xF0);
    let f = frame::from_frame_data(&data, sensor);
    assert!(f.contacts.is_none());
    assert!(f.force_array.is_none());
    assert!(f.labels_array.is_none());
    assert!(f.accel_data.is_none());
}

/// The grid views cover exactly rows × cols elements.
#[test]
fn num_sensors_is_rows_times_cols() {
    let sensor = sample_geometry();
    assert_eq!(sensor.get_num_sensors(), 6);
    let sensor = SenselSensorInfo { max_contacts: 16, num_rows: 185, num_cols: 105, width: 0, height: 0 };
    assert_eq!(sensor.get_num_sensors(), 19425);
}
