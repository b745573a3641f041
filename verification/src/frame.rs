//! Decoding of one fixed-layout frame record into borrowed, typed views.
//!
//! A frame carries a variable subset of sensor data, selected by the
//! frame-level content mask: a contact list, a pressure grid, a label grid,
//! and an accelerometer sample. The decoder exposes each as an optional
//! borrowed view into the frame record, present exactly when its mask bit is
//! set; the views live no longer than the borrow of the record, so a view
//! can never outlive the next read into the same backing buffer.

use vstd::prelude::*;
use vstd::slice::slice_subrange;

use crate::contact::SenselContact;
use crate::device::SenselSensorInfo;

verus! {

/// Bit of the frame content mask that selects the pressure grid.
pub const FRAME_CONTENT_PRESSURE_MASK: u8 = 0x01;

/// Bit of the frame content mask that selects the label grid.
pub const FRAME_CONTENT_LABELS_MASK: u8 = 0x02;

/// Bit of the frame content mask that selects the contact list.
pub const FRAME_CONTENT_CONTACTS_MASK: u8 = 0x04;

/// Bit of the frame content mask that selects the accelerometer sample.
pub const FRAME_CONTENT_ACCEL_MASK: u8 = 0x08;

/// Set of the four frame content groups; pure value semantics.
#[derive(Clone, Copy, Debug, PartialEq, Eq, Structural)]
pub struct Mask {
    pub pressure: bool,
    pub labels: bool,
    pub contacts: bool,
    pub accel: bool,
}

/// What construction from a raw bit pattern yields: each member present
/// exactly when its bit is set; unknown bits are silently discarded.
pub open spec fn spec_frame_mask_from_bits(raw: u8) -> Mask {
    Mask {
        pressure: raw & FRAME_CONTENT_PRESSURE_MASK != 0,
        labels: raw & FRAME_CONTENT_LABELS_MASK != 0,
        contacts: raw & FRAME_CONTENT_CONTACTS_MASK != 0,
        accel: raw & FRAME_CONTENT_ACCEL_MASK != 0,
    }
}

impl Mask {
    /// Constructs a mask from a raw bit pattern, silently discarding unknown
    /// bits — reserved bits set by newer firmware are never an error.
    pub fn from_bits_truncate(raw: u8) -> (m: Mask)
        ensures
            m == spec_frame_mask_from_bits(raw),
    {
        Mask {
            pressure: raw & FRAME_CONTENT_PRESSURE_MASK != 0,
            labels: raw & FRAME_CONTENT_LABELS_MASK != 0,
            contacts: raw & FRAME_CONTENT_CONTACTS_MASK != 0,
            accel: raw & FRAME_CONTENT_ACCEL_MASK != 0,
        }
    }

    /// The raw bit pattern of this mask (known bits only).
    pub fn bits(&self) -> (raw: u8)
        ensures
            spec_frame_mask_from_bits(raw) == *self,
    {
        let mut raw: u8 = 0;
        if self.pressure {
            raw = raw + FRAME_CONTENT_PRESSURE_MASK;
        }
        if self.labels {
            raw = raw + FRAME_CONTENT_LABELS_MASK;
        }
        if self.contacts {
            raw = raw + FRAME_CONTENT_CONTACTS_MASK;
        }
        if self.accel {
            raw = raw + FRAME_CONTENT_ACCEL_MASK;
        }
        proof {
            let pr = self.pressure;
            let la = self.labels;
            let co = self.contacts;
            let ac = self.accel;
            assert((raw & 1 != 0) == pr && (raw & 2 != 0) == la && (raw & 4 != 0) == co && (raw
                & 8 != 0) == ac) by (bit_vector)
                requires
                    raw == (if pr { 1u8 } else { 0u8 }) + (if la { 2u8 } else { 0u8 }) + (if co {
                        4u8
                    } else {
                        0u8
                    }) + (if ac { 8u8 } else { 0u8 }),
            ;
        }
        raw
    }

    /// Membership test: every group of `other` is also in `self`.
    pub fn contains(&self, other: Mask) -> (r: bool)
        ensures
            r == ((other.pressure ==> self.pressure) && (other.labels ==> self.labels)
                && (other.contacts ==> self.contacts) && (other.accel ==> self.accel)),
    {
        (!other.pressure || self.pressure) && (!other.labels || self.labels)
            && (!other.contacts || self.contacts) && (!other.accel || self.accel)
    }
}

/// Two raw patterns that agree on the four known bits construct the same
/// mask: unknown and reserved bits never change what decodes as present.
pub proof fn lemma_frame_mask_ignores_unknown_bits(a: u8, b: u8)
    requires
        a & 0x0F == b & 0x0F,
    ensures
        spec_frame_mask_from_bits(a) == spec_frame_mask_from_bits(b),
{
    assert((a & 1 != 0) == (b & 1 != 0) && (a & 2 != 0) == (b & 2 != 0) && (a & 4 != 0) == (b
        & 4 != 0) && (a & 8 != 0) == (b & 8 != 0)) by (bit_vector)
        requires
            a & 0x0F == b & 0x0F,
    ;
}

/// One accelerometer sample (raw scalar encodings).
#[derive(Clone, Copy, Debug, PartialEq, Eq, Structural)]
pub struct SenselAccelData {
    pub x: i32,
    pub y: i32,
    pub z: i32,
}

/// One fixed-layout raw frame record as the transport fills it: the embedded
/// content mask, the lost-frame counter, and densely packed backing arrays
/// of which only the masked prefixes are semantically valid.
#[derive(Debug)]
pub struct SenselFrameData {
    pub content_bit_mask: u8,
    pub lost_frame_count: i32,
    pub n_contacts: u8,
    pub contacts: Vec<SenselContact>,
    pub force_array: Vec<u32>,
    pub labels_array: Vec<u8>,
    pub accel_data: SenselAccelData,
}

impl SenselFrameData {
    /// The backing arrays are large enough for this sensor's geometry and
    /// for the contact count the record claims.
    pub open spec fn wf(self, sensor: SenselSensorInfo) -> bool {
        &&& self.n_contacts as int <= self.contacts.len()
        &&& sensor.spec_num_sensors() <= self.force_array.len()
        &&& sensor.spec_num_sensors() <= self.labels_array.len()
    }
}

/// One decoded frame: the lost-frame counter, and each optional view
/// present exactly when its frame-level mask bit was set. The views borrow
/// the raw record; they become unusable, at compile time, once the record's
/// backing buffer is written again.
#[derive(Clone, Copy, Debug)]
pub struct Frame<'a> {
    pub lost_frame_count: i32,
    pub contacts: Option<&'a [SenselContact]>,
    pub force_array: Option<&'a [u32]>,
    pub labels_array: Option<&'a [u8]>,
    pub accel_data: Option<SenselAccelData>,
}

/// Decodes one raw frame record against the sensor geometry captured at
/// open time. Each view is `Some` exactly when its bit is set in the
/// record's embedded mask: the contact view holds exactly the `n_contacts`
/// leading records, the two grids hold exactly rows × cols elements, and
/// the accelerometer sample is copied out; an absent bit yields `None`,
/// never a view of stale memory.
pub fn from_frame_data<'a>(data: &'a SenselFrameData, sensor: SenselSensorInfo) -> (f: Frame<'a>)
    requires
        data.wf(sensor),
    ensures
        f.lost_frame_count == data.lost_frame_count,
        f.contacts is Some <==> data.content_bit_mask & FRAME_CONTENT_CONTACTS_MASK != 0,
        f.contacts is Some ==> f.contacts.unwrap()@ == data.contacts@.subrange(
            0,
            data.n_contacts as int,
        ),
        f.force_array is Some <==> data.content_bit_mask & FRAME_CONTENT_PRESSURE_MASK != 0,
        f.force_array is Some ==> f.force_array.unwrap()@ == data.force_array@.subrange(
            0,
            sensor.spec_num_sensors(),
        ),
        f.labels_array is Some <==> data.content_bit_mask & FRAME_CONTENT_LABELS_MASK != 0,
        f.labels_array is Some ==> f.labels_array.unwrap()@ == data.labels_array@.subrange(
            0,
            sensor.spec_num_sensors(),
        ),
        f.accel_data == if data.content_bit_mask & FRAME_CONTENT_ACCEL_MASK != 0 {
            Some(data.accel_data)
        } else {
            None
        },
{
    let mask = Mask::from_bits_truncate(data.content_bit_mask);
    let num_sensors = sensor.get_num_sensors();

    let contacts = if mask.contacts {
        Some(slice_subrange(data.contacts.as_slice(), 0, data.n_contacts as usize))
    } else {
        None
    };

    let force_array = if mask.pressure {
        Some(slice_subrange(data.force_array.as_slice(), 0, num_sensors))
    } else {
        None
    };

    let labels_array = if mask.labels {
        Some(slice_subrange(data.labels_array.as_slice(), 0, num_sensors))
    } else {
        None
    };

    let accel_data = if mask.accel {
        Some(data.accel_data)
    } else {
        None
    };

    Frame { lost_frame_count: data.lost_frame_count, contacts, force_array, labels_array, accel_data }
}

} // verus!
