//! Decoding of one fixed-layout contact record into a typed contact value.
//!
//! Every field of the raw record is physically present, but only the groups
//! named by the record's embedded content mask are semantically valid; the
//! decoder copies a group out only when its bit is set, so stale values can
//! never leak into a populated substructure.
//!
//! Position, force and geometry fields carry the device's raw 32-bit
//! encoding; this layer treats them as opaque scalars and never interprets
//! them numerically.

use vstd::prelude::*;

verus! {

/// Bit of the contact content mask that marks the ellipse group as valid.
pub const CONTACT_MASK_ELLIPSE: u8 = 0x01;

/// Bit of the contact content mask that marks the delta group as valid.
pub const CONTACT_MASK_DELTAS: u8 = 0x02;

/// Bit of the contact content mask that marks the bounding-box group as valid.
pub const CONTACT_MASK_BOUNDING_BOX: u8 = 0x04;

/// Bit of the contact content mask that marks the peak group as valid.
pub const CONTACT_MASK_PEAK: u8 = 0x08;

/// Lifecycle state of one contact across frames.
#[derive(Clone, Copy, Debug, PartialEq, Eq, Structural)]
pub enum State {
    Invalid,
    Start,
    Move,
    End,
}

/// What a raw contact-state value decodes to: the three live states on their
/// exact codes, and `Invalid` — the device's "no information" sentinel — on
/// everything else, so an unrecognized code is never a failure.
pub open spec fn spec_state_from_raw(raw: u32) -> State {
    if raw == 1 {
        State::Start
    } else if raw == 2 {
        State::Move
    } else if raw == 3 {
        State::End
    } else {
        State::Invalid
    }
}

impl State {
    /// Decodes a raw contact-state value; any unrecognized code yields
    /// `Invalid`, never `Start`/`Move`/`End` and never a failure.
    pub fn from_raw(raw: u32) -> (s: State)
        ensures
            s == spec_state_from_raw(raw),
            raw != 1 && raw != 2 && raw != 3 ==> s == State::Invalid,
    {
        if raw == 1 {
            State::Start
        } else if raw == 2 {
            State::Move
        } else if raw == 3 {
            State::End
        } else {
            State::Invalid
        }
    }
}

/// Set of the four contact content groups; pure value semantics.
#[derive(Clone, Copy, Debug, PartialEq, Eq, Structural)]
pub struct Mask {
    pub ellipse: bool,
    pub deltas: bool,
    pub bounding_box: bool,
    pub peak: bool,
}

/// What construction from a raw bit pattern yields: each member present
/// exactly when its bit is set; unknown bits are silently discarded.
pub open spec fn spec_contact_mask_from_bits(raw: u8) -> Mask {
    Mask {
        ellipse: raw & CONTACT_MASK_ELLIPSE != 0,
        deltas: raw & CONTACT_MASK_DELTAS != 0,
        bounding_box: raw & CONTACT_MASK_BOUNDING_BOX != 0,
        peak: raw & CONTACT_MASK_PEAK != 0,
    }
}

impl Mask {
    /// Constructs a mask from a raw bit pattern, silently discarding unknown
    /// bits — reserved bits set by newer firmware are never an error.
    pub fn from_bits_truncate(raw: u8) -> (m: Mask)
        ensures
            m == spec_contact_mask_from_bits(raw),
    {
        Mask {
            ellipse: raw & CONTACT_MASK_ELLIPSE != 0,
            deltas: raw & CONTACT_MASK_DELTAS != 0,
            bounding_box: raw & CONTACT_MASK_BOUNDING_BOX != 0,
            peak: raw & CONTACT_MASK_PEAK != 0,
        }
    }

    /// The raw bit pattern of this mask (known bits only).
    pub fn bits(&self) -> (raw: u8)
        ensures
            spec_contact_mask_from_bits(raw) == *self,
    {
        let mut raw: u8 = 0;
        if self.ellipse {
            raw = raw + CONTACT_MASK_ELLIPSE;
        }
        if self.deltas {
            raw = raw + CONTACT_MASK_DELTAS;
        }
        if self.bounding_box {
            raw = raw + CONTACT_MASK_BOUNDING_BOX;
        }
        if self.peak {
            raw = raw + CONTACT_MASK_PEAK;
        }
        proof {
            let e = self.ellipse;
            let d = self.deltas;
            let bb = self.bounding_box;
            let p = self.peak;
            assert((raw & 1 != 0) == e && (raw & 2 != 0) == d && (raw & 4 != 0) == bb && (raw & 8
                != 0) == p) by (bit_vector)
                requires
                    raw == (if e { 1u8 } else { 0u8 }) + (if d { 2u8 } else { 0u8 }) + (if bb {
                        4u8
                    } else {
                        0u8
                    }) + (if p { 8u8 } else { 0u8 }),
            ;
        }
        raw
    }

    /// Membership test: every group of `other` is also in `self`.
    pub fn contains(&self, other: Mask) -> (r: bool)
        ensures
            r == ((other.ellipse ==> self.ellipse) && (other.deltas ==> self.deltas)
                && (other.bounding_box ==> self.bounding_box) && (other.peak ==> self.peak)),
    {
        (!other.ellipse || self.ellipse) && (!other.deltas || self.deltas)
            && (!other.bounding_box || self.bounding_box) && (!other.peak || self.peak)
    }
}

/// Two raw patterns that agree on the four known bits construct the same
/// mask: unknown and reserved bits never change what decodes as present.
pub proof fn lemma_contact_mask_ignores_unknown_bits(a: u8, b: u8)
    requires
        a & 0x0F == b & 0x0F,
    ensures
        spec_contact_mask_from_bits(a) == spec_contact_mask_from_bits(b),
{
    assert((a & 1 != 0) == (b & 1 != 0) && (a & 2 != 0) == (b & 2 != 0) && (a & 4 != 0) == (b
        & 4 != 0) && (a & 8 != 0) == (b & 8 != 0)) by (bit_vector)
        requires
            a & 0x0F == b & 0x0F,
    ;
}

/// One fixed-layout raw contact record as delivered inside a frame. All
/// fields are physically present; `content_bit_mask` says which optional
/// groups are semantically valid. The 32-bit fields after `state` carry the
/// device's raw scalar encoding, treated as opaque here.
#[derive(Clone, Copy, Debug, PartialEq, Eq, Structural)]
pub struct SenselContact {
    pub content_bit_mask: u8,
    pub id: u8,
    pub state: u32,
    pub x_pos: u32,
    pub y_pos: u32,
    pub total_force: u32,
    pub area: u32,
    pub orientation: u32,
    pub major_axis: u32,
    pub minor_axis: u32,
    pub delta_x: u32,
    pub delta_y: u32,
    pub delta_force: u32,
    pub delta_area: u32,
    pub min_x: u32,
    pub min_y: u32,
    pub max_x: u32,
    pub max_y: u32,
    pub peak_x: u32,
    pub peak_y: u32,
    pub peak_force: u32,
}

impl SenselContact {
    /// A record with every field zero, as a freshly allocated frame buffer
    /// holds before the device has written anything.
    pub fn zeroed() -> (c: SenselContact)
        ensures
            c == SenselContact::spec_zeroed(),
    {
        SenselContact {
            content_bit_mask: 0,
            id: 0,
            state: 0,
            x_pos: 0,
            y_pos: 0,
            total_force: 0,
            area: 0,
            orientation: 0,
            major_axis: 0,
            minor_axis: 0,
            delta_x: 0,
            delta_y: 0,
            delta_force: 0,
            delta_area: 0,
            min_x: 0,
            min_y: 0,
            max_x: 0,
            max_y: 0,
            peak_x: 0,
            peak_y: 0,
            peak_force: 0,
        }
    }

    /// The all-zero record.
    pub open spec fn spec_zeroed() -> SenselContact {
        SenselContact {
            content_bit_mask: 0,
            id: 0,
            state: 0,
            x_pos: 0,
            y_pos: 0,
            total_force: 0,
            area: 0,
            orientation: 0,
            major_axis: 0,
            minor_axis: 0,
            delta_x: 0,
            delta_y: 0,
            delta_force: 0,
            delta_area: 0,
            min_x: 0,
            min_y: 0,
            max_x: 0,
            max_y: 0,
            peak_x: 0,
            peak_y: 0,
            peak_force: 0,
        }
    }
}

/// Ellipse descriptor of a contact (raw scalar encodings).
#[derive(Clone, Copy, Debug, PartialEq, Eq, Structural)]
pub struct Ellipse {
    pub orientation: u32,
    pub major_axis: u32,
    pub minor_axis: u32,
}

/// Frame-to-frame delta of a contact (raw scalar encodings).
#[derive(Clone, Copy, Debug, PartialEq, Eq, Structural)]
pub struct Delta {
    pub x: u32,
    pub y: u32,
    pub force: u32,
    pub area: u32,
}

/// Axis-aligned bounding box of a contact (raw scalar encodings).
#[derive(Clone, Copy, Debug, PartialEq, Eq, Structural)]
pub struct BoundingBox {
    pub min_x: u32,
    pub min_y: u32,
    pub max_x: u32,
    pub max_y: u32,
}

/// Peak-pressure point of a contact (raw scalar encodings).
#[derive(Clone, Copy, Debug, PartialEq, Eq, Structural)]
pub struct Peak {
    pub x: u32,
    pub y: u32,
    pub force: u32,
}

/// One decoded contact: the mandatory fields, and each optional group
/// populated exactly when the record's embedded mask marked it valid.
#[derive(Clone, Copy, Debug, PartialEq, Eq, Structural)]
pub struct Contact {
    pub id: u8,
    pub state: State,
    pub x: u32,
    pub y: u32,
    pub total_force: u32,
    pub area: u32,
    pub ellipse: Option<Ellipse>,
    pub delta: Option<Delta>,
    pub bounding_box: Option<BoundingBox>,
    pub peak: Option<Peak>,
}

/// What decoding a raw contact record yields: mandatory fields copied
/// unconditionally, each optional group `Some` exactly when its bit is set
/// in the record's embedded mask, and the group then holding exactly the
/// record's own fields.
pub open spec fn spec_decode_contact(rec: SenselContact) -> Contact {
    let mask = spec_contact_mask_from_bits(rec.content_bit_mask);
    Contact {
        id: rec.id,
        state: spec_state_from_raw(rec.state),
        x: rec.x_pos,
        y: rec.y_pos,
        total_force: rec.total_force,
        area: rec.area,
        ellipse: if mask.ellipse {
            Some(
                Ellipse {
                    orientation: rec.orientation,
                    major_axis: rec.major_axis,
                    minor_axis: rec.minor_axis,
                },
            )
        } else {
            None
        },
        delta: if mask.deltas {
            Some(Delta { x: rec.delta_x, y: rec.delta_y, force: rec.delta_force, area: rec.delta_area })
        } else {
            None
        },
        bounding_box: if mask.bounding_box {
            Some(BoundingBox { min_x: rec.min_x, min_y: rec.min_y, max_x: rec.max_x, max_y: rec.max_y })
        } else {
            None
        },
        peak: if mask.peak {
            Some(Peak { x: rec.peak_x, y: rec.peak_y, force: rec.peak_force })
        } else {
            None
        },
    }
}

impl Contact {
    /// Decodes one raw contact record. A pure, allocation-free, total
    /// transform: each optional group is `Some` exactly when its bit is set
    /// in the record's embedded mask, so a value behind an absent bit never
    /// leaks into a populated group.
    pub fn from_record(rec: &SenselContact) -> (c: Contact)
        ensures
            c == spec_decode_contact(*rec),
            c.ellipse is Some <==> rec.content_bit_mask & CONTACT_MASK_ELLIPSE != 0,
            c.delta is Some <==> rec.content_bit_mask & CONTACT_MASK_DELTAS != 0,
            c.bounding_box is Some <==> rec.content_bit_mask & CONTACT_MASK_BOUNDING_BOX != 0,
            c.peak is Some <==> rec.content_bit_mask & CONTACT_MASK_PEAK != 0,
    {
        let mask = Mask::from_bits_truncate(rec.content_bit_mask);
        let ellipse = if mask.ellipse {
            Some(
                Ellipse {
                    orientation: rec.orientation,
                    major_axis: rec.major_axis,
                    minor_axis: rec.minor_axis,
                },
            )
        } else {
            None
        };
        let delta = if mask.deltas {
            Some(Delta { x: rec.delta_x, y: rec.delta_y, force: rec.delta_force, area: rec.delta_area })
        } else {
            None
        };
        let bounding_box = if mask.bounding_box {
            Some(BoundingBox { min_x: rec.min_x, min_y: rec.min_y, max_x: rec.max_x, max_y: rec.max_y })
        } else {
            None
        };
        let peak = if mask.peak {
            Some(Peak { x: rec.peak_x, y: rec.peak_y, force: rec.peak_force })
        } else {
            None
        };
        Contact {
            id: rec.id,
            state: State::from_raw(rec.state),
            x: rec.x_pos,
            y: rec.y_pos,
            total_force: rec.total_force,
            area: rec.area,
            ellipse,
            delta,
            bounding_box,
            peak,
        }
    }
}

impl From<SenselContact> for Contact {
    /// Decoding a raw record, as a conversion.
    fn from(rec: SenselContact) -> (c: Contact) {
        Contact::from_record(&rec)
    }
}

impl vstd::std_specs::convert::FromSpecImpl<SenselContact> for Contact {
    open spec fn obeys_from_spec() -> bool {
        true
    }

    open spec fn from_spec(rec: SenselContact) -> Contact {
        spec_decode_contact(rec)
    }
}

/// Two raw records that differ only in the unknown bits of their embedded
/// masks decode to the same contact: reserved bits never make an unrelated
/// group appear populated and never cause a failure.
pub proof fn lemma_contact_decode_ignores_unknown_bits(a: SenselContact, b: SenselContact)
    requires
        a.content_bit_mask & 0x0F == b.content_bit_mask & 0x0F,
        b == (SenselContact { content_bit_mask: b.content_bit_mask, ..a }),
    ensures
        spec_decode_contact(a) == spec_decode_contact(b),
{
    lemma_contact_mask_ignores_unknown_bits(a.content_bit_mask, b.content_bit_mask);
}

} // verus!
