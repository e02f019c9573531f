//! Decoding of the 8-byte gamepad wire record.
//!
//! A gamepad device file yields fixed 8-byte records in little-endian order:
//! a 4-byte timestamp, a 2-byte signed value, a 1-byte event category
//! (1 = button, 2 = axis) and a 1-byte control index. Decoding is a
//! bit-for-bit reinterpretation of the record; a buffer shorter than one
//! record yields no event.

use vstd::bytes::*;
use vstd::prelude::*;
use vstd::slice::slice_subrange;

verus! {

/// One decoded gamepad event.
///
/// For a button (`event == 1`) a well-formed device reports `value` 0
/// (released) or 1 (pressed). For an axis (`event == 2`) it reports a value
/// in `[-32767, 32767]`: an analog trigger is -32767 fully released and
/// 32767 fully pressed, a directional pad axis is 0 at rest and +/-32767
/// when pushed.
#[derive(Clone, Copy, PartialEq, Eq, Structural, Debug)]
pub struct JoystickEvent {
    pub timestamp: u32,
    pub value: i16,
    pub event: u8,
    pub index: u8,
}

/// The length in bytes of one gamepad wire record.
pub const JOYSTICK_RECORD_SIZE: usize = 8;

/// The invariant a well-formed device keeps on the events it reports.
pub open spec fn valid_event(e: JoystickEvent) -> bool {
    &&& e.event == 1 ==> (e.value == 0 || e.value == 1)
    &&& e.event == 2 ==> -32767 <= e.value <= 32767
}

/// What decoding a raw buffer yields: no event on a short buffer, else the
/// fields of the first record read back in little-endian order.
pub open spec fn spec_decode(b: Seq<u8>) -> Option<JoystickEvent> {
    if b.len() < JOYSTICK_RECORD_SIZE {
        None
    } else {
        Some(
            JoystickEvent {
                timestamp: spec_u32_from_le_bytes(b.subrange(0, 4)),
                value: spec_u16_from_le_bytes(b.subrange(4, 6)) as i16,
                event: b[6],
                index: b[7],
            },
        )
    }
}

/// The little-endian wire image of an event.
pub open spec fn spec_encode(e: JoystickEvent) -> Seq<u8> {
    spec_u32_to_le_bytes(e.timestamp) + spec_u16_to_le_bytes(e.value as u16)
        + seq![e.event, e.index]
}

impl JoystickEvent {
    /// Decodes the first gamepad record of `buf`, or reports no event when
    /// `buf` holds less than one full record.
    pub fn decode(buf: &[u8]) -> (r: Option<JoystickEvent>)
        ensures
            r == spec_decode(buf@),
            buf@.len() < JOYSTICK_RECORD_SIZE ==> r is None,
    {
        if buf.len() < JOYSTICK_RECORD_SIZE {
            return None;
        }
        let timestamp = u32_from_le_bytes(slice_subrange(buf, 0, 4));
        let value_bits = u16_from_le_bytes(slice_subrange(buf, 4, 6));
        let event = *vstd::slice::slice_index_get(buf, 6);
        let index = *vstd::slice::slice_index_get(buf, 7);
        Some(JoystickEvent { timestamp, value: value_bits as i16, event, index })
    }

    /// Writes the event back out as one little-endian wire record.
    pub fn encode(&self) -> (r: Vec<u8>)
        ensures
            r@ == spec_encode(*self),
            r@.len() == JOYSTICK_RECORD_SIZE,
    {
        proof {
            lemma_auto_spec_u32_to_from_le_bytes();
            lemma_auto_spec_u16_to_from_le_bytes();
        }
        let mut r = u32_to_le_bytes(self.timestamp);
        let mut tail = u16_to_le_bytes(self.value as u16);
        r.append(&mut tail);
        r.push(self.event);
        r.push(self.index);
        proof {
            assert(r@ =~= spec_encode(*self));
        }
        r
    }
}

/// Decoding inverts encoding: every event read back from its own wire image
/// is returned unchanged.
pub proof fn lemma_decode_encode(e: JoystickEvent)
    ensures
        spec_decode(spec_encode(e)) == Some(e),
{
    lemma_auto_spec_u32_to_from_le_bytes();
    lemma_auto_spec_u16_to_from_le_bytes();
    let b = spec_encode(e);
    assert(b.len() == 8);
    assert(b.subrange(0, 4) =~= spec_u32_to_le_bytes(e.timestamp));
    assert(b.subrange(4, 6) =~= spec_u16_to_le_bytes(e.value as u16));
    let v = e.value;
    assert(((v as u16) as i16) == v) by (bit_vector);
    assert(b[6] == e.event);
    assert(b[7] == e.index);
}

/// A valid button record survives the wire: decoding its image yields the
/// event back, and the decoded value is exactly 0 or 1.
pub proof fn lemma_button_round_trip(e: JoystickEvent)
    requires
        valid_event(e),
        e.event == 1,
    ensures
        spec_decode(spec_encode(e)) == Some(e),
        spec_decode(spec_encode(e)) matches Some(d) && (d.value == 0 || d.value == 1),
{
    lemma_decode_encode(e);
}

/// A valid axis record survives the wire, and its decoded value lies in
/// `[-32767, 32767]`; the extremes stand for fully pressed (32767) and
/// fully released (-32767) on an analog trigger.
pub proof fn lemma_axis_round_trip(e: JoystickEvent)
    requires
        valid_event(e),
        e.event == 2,
    ensures
        spec_decode(spec_encode(e)) == Some(e),
        spec_decode(spec_encode(e)) matches Some(d) && -32767 <= d.value <= 32767,
{
    lemma_decode_encode(e);
}

} // verus!
