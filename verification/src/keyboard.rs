//! Decoding of raw keyboard event records and the held-key table.
//!
//! A raw keyboard device file yields fixed 24-byte records in little-endian
//! order: a 16-byte timestamp pair (seconds and microseconds), a 2-byte
//! event kind (1 = key transition), a 2-byte hardware key code and a 4-byte
//! signed value (0 = released, 1 = pressed, 2 = auto-repeat). A buffer
//! shorter than one record yields no event. The key-state table is the
//! accumulated projection of such a record stream: one held flag per key
//! code, refreshed by each key transition and untouched by any other kind
//! of record.

use vstd::bytes::*;
use vstd::prelude::*;
use vstd::slice::slice_subrange;

verus! {

/// One raw keyboard record, read bit-for-bit from the device.
#[derive(Clone, Copy, PartialEq, Eq, Structural, Debug)]
pub struct RawKeyEvent {
    pub tv_sec: i64,
    pub tv_usec: i64,
    pub kind: u16,
    pub code: u16,
    pub value: i32,
}

/// The length in bytes of one raw keyboard wire record.
pub const KEY_RECORD_SIZE: usize = 24;

/// The number of slots of the key-state table, one per key code the table
/// covers.
pub const KEY_TABLE_SIZE: usize = 256;

/// The hardware key codes the consumer loop steers by.
pub const KEY_W: u16 = 17;

pub const KEY_A: u16 = 30;

pub const KEY_S: u16 = 31;

pub const KEY_D: u16 = 32;

/// What decoding a raw buffer yields: no event on a short buffer, else the
/// fields of the first record read back in little-endian order.
pub open spec fn spec_decode_key(b: Seq<u8>) -> Option<RawKeyEvent> {
    if b.len() < KEY_RECORD_SIZE {
        None
    } else {
        Some(
            RawKeyEvent {
                tv_sec: spec_u64_from_le_bytes(b.subrange(0, 8)) as i64,
                tv_usec: spec_u64_from_le_bytes(b.subrange(8, 16)) as i64,
                kind: spec_u16_from_le_bytes(b.subrange(16, 18)),
                code: spec_u16_from_le_bytes(b.subrange(18, 20)),
                value: spec_u32_from_le_bytes(b.subrange(20, 24)) as i32,
            },
        )
    }
}

/// The key-state table after one record is folded in: a key transition
/// (`kind == 1`) sets the held flag of its key code, value 0 clearing it and
/// values 1 and 2 (pressed, auto-repeat) setting it; every other record
/// leaves the table as it is.
pub open spec fn spec_apply_key(keys: Seq<bool>, e: RawKeyEvent) -> Seq<bool> {
    if e.kind == 1 && e.value == 0 {
        keys.update(e.code as int, false)
    } else if e.kind == 1 && (e.value == 1 || e.value == 2) {
        keys.update(e.code as int, true)
    } else {
        keys
    }
}

impl RawKeyEvent {
    /// Decodes the first keyboard record of `buf`, or reports no event when
    /// `buf` holds less than one full record.
    pub fn decode(buf: &[u8]) -> (r: Option<RawKeyEvent>)
        ensures
            r == spec_decode_key(buf@),
            buf@.len() < KEY_RECORD_SIZE ==> r is None,
    {
        if buf.len() < KEY_RECORD_SIZE {
            return None;
        }
        let tv_sec = u64_from_le_bytes(slice_subrange(buf, 0, 8)) as i64;
        let tv_usec = u64_from_le_bytes(slice_subrange(buf, 8, 16)) as i64;
        let kind = u16_from_le_bytes(slice_subrange(buf, 16, 18));
        let code = u16_from_le_bytes(slice_subrange(buf, 18, 20));
        let value = u32_from_le_bytes(slice_subrange(buf, 20, 24)) as i32;
        Some(RawKeyEvent { tv_sec, tv_usec, kind, code, value })
    }
}

/// Folds one decoded record into the key-state table.
///
/// A key transition must carry a code the table covers; the device reports
/// codes under the table size, and a caller that reads from anything else
/// checks the code first.
pub fn apply_key_event(keys: &mut Vec<bool>, e: &RawKeyEvent)
    requires
        e.kind == 1 && (e.value == 0 || e.value == 1 || e.value == 2) ==> (e.code as int) < old(
            keys,
        ).len(),
    ensures
        final(keys)@ == spec_apply_key(old(keys)@, *e),
{
    if e.kind == 1 {
        if e.value == 0 {
            keys[e.code as usize] = false;
        } else if e.value == 1 || e.value == 2 {
            keys[e.code as usize] = true;
        }
    }
}

} // verus!
