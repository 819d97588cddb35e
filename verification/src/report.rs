//! The report block that the IQS5xx sends when a communication window opens:
//! 44 bytes starting at GESTURE_EVENTS_0.

use vstd::prelude::*;
use crate::bytes::{as_signed, be16_at, byte_at, i16_be_from_iter, u16_be_from_iter, u8_from_iter};

verus! {

/// Number of bytes in one report block.
pub const REPORT_LEN: usize = 44;

/// Number of bytes describing one finger in the block.
pub const TOUCH_LEN: usize = 7;

/// One tracked finger.
#[derive(Debug, Clone, Copy)]
pub struct Touch {
    pub abs_x: u16,
    pub abs_y: u16,
    pub strength: u16,
    pub size: u8,
}

/// A decoded report block.
#[derive(Debug, Clone, Copy)]
pub struct Report {
    pub events0: u8,
    pub events1: u8,
    pub sys_info0: u8,
    pub sys_info1: u8,
    pub num_fingers: u8,
    pub rel_x: i16,
    pub rel_y: i16,
    pub touches: [Touch; 5],
}

impl Default for Touch {
    fn default() -> (r: Touch)
        ensures
            r == (Touch { abs_x: 0, abs_y: 0, strength: 0, size: 0 }),
    {
        Touch { abs_x: 0, abs_y: 0, strength: 0, size: 0 }
    }
}

impl Default for Report {
    fn default() -> (r: Report)
        ensures
            r.events0 == 0 && r.events1 == 0 && r.sys_info0 == 0 && r.sys_info1 == 0,
            r.num_fingers == 0 && r.rel_x == 0 && r.rel_y == 0,
            forall|i: int|
                0 <= i < 5 ==> #[trigger] r.touches@[i] == (Touch {
                    abs_x: 0,
                    abs_y: 0,
                    strength: 0,
                    size: 0,
                }),
    {
        let t = Touch { abs_x: 0, abs_y: 0, strength: 0, size: 0 };
        Report {
            events0: 0,
            events1: 0,
            sys_info0: 0,
            sys_info1: 0,
            num_fingers: 0,
            rel_x: 0,
            rel_y: 0,
            touches: [t, t, t, t, t],
        }
    }
}

/// The finger record that starts at byte `pos` of `s` (zero past the end).
pub open spec fn touch_at(s: Seq<u8>, pos: int) -> Touch {
    Touch {
        abs_x: be16_at(s, pos),
        abs_y: be16_at(s, pos + 2),
        strength: be16_at(s, pos + 4),
        size: byte_at(s, pos + 6),
    }
}

/// Byte offset of finger `i` in the block.
pub open spec fn touch_offset(i: int) -> int {
    9 + 7 * i
}

/// The report that the block `s` encodes: five status bytes, the relative
/// motion as two big-endian signed words, then five finger records. Bytes
/// missing from a short block read as zero.
pub open spec fn report_of(s: Seq<u8>) -> Report {
    Report {
        events0: byte_at(s, 0),
        events1: byte_at(s, 1),
        sys_info0: byte_at(s, 2),
        sys_info1: byte_at(s, 3),
        num_fingers: byte_at(s, 4),
        rel_x: as_signed(be16_at(s, 5)),
        rel_y: as_signed(be16_at(s, 7)),
        touches: [
            touch_at(s, touch_offset(0)),
            touch_at(s, touch_offset(1)),
            touch_at(s, touch_offset(2)),
            touch_at(s, touch_offset(3)),
            touch_at(s, touch_offset(4)),
        ],
    }
}

impl Touch {
    /// Reads one finger record at the cursor and advances it past the record.
    pub fn from_iter(bytes: &[u8], pos: &mut usize) -> (r: Touch)
        requires
            *old(pos) < usize::MAX - 7,
        ensures
            r == touch_at(bytes@, *old(pos) as int),
            *final(pos) == *old(pos) + 7,
    {
        let abs_x = u16_be_from_iter(bytes, pos);
        let abs_y = u16_be_from_iter(bytes, pos);
        let strength = u16_be_from_iter(bytes, pos);
        let size = u8_from_iter(bytes, pos);
        Touch { abs_x, abs_y, strength, size }
    }
}

impl Report {
    /// Decodes a report block read from GESTURE_EVENTS_0 onwards.
    pub fn from_bytes(bytes: &[u8]) -> (r: Report)
        ensures
            r == report_of(bytes@),
    {
        let mut pos: usize = 0;
        let events0 = u8_from_iter(bytes, &mut pos);
        let events1 = u8_from_iter(bytes, &mut pos);
        let sys_info0 = u8_from_iter(bytes, &mut pos);
        let sys_info1 = u8_from_iter(bytes, &mut pos);
        let num_fingers = u8_from_iter(bytes, &mut pos);
        let rel_x = i16_be_from_iter(bytes, &mut pos);
        let rel_y = i16_be_from_iter(bytes, &mut pos);
        let t0 = Touch::from_iter(bytes, &mut pos);
        let t1 = Touch::from_iter(bytes, &mut pos);
        let t2 = Touch::from_iter(bytes, &mut pos);
        let t3 = Touch::from_iter(bytes, &mut pos);
        let t4 = Touch::from_iter(bytes, &mut pos);
        let r = Report {
            events0,
            events1,
            sys_info0,
            sys_info1,
            num_fingers,
            rel_x,
            rel_y,
            touches: [t0, t1, t2, t3, t4],
        };
        assert(r.touches@ =~= report_of(bytes@).touches@);
        r
    }
}

/// How a full block lays out: the five status bytes come first, in order;
/// the relative motion follows as two big-endian two's-complement words at
/// bytes 5 and 7; and finger `i` (counting from 0) is the seven-byte record
/// at byte `9 + 7 * i`: big-endian X, Y and strength, then the size byte.
/// Bytes the block does not hold read as zero, so a finger whose record
/// lies wholly past the end is all zero.
pub proof fn lemma_block_layout(s: Seq<u8>)
    ensures
        ({
            let r = report_of(s);
            &&& s.len() >= 9 ==> {
                &&& r.events0 == s[0] && r.events1 == s[1] && r.sys_info0 == s[2] && r.sys_info1 == s[3]
                &&& r.num_fingers == s[4]
                &&& r.rel_x as int == s[5] * 256 + s[6] - (if s[5] >= 128 { 65536int } else { 0 })
                &&& r.rel_y as int == s[7] * 256 + s[8] - (if s[7] >= 128 { 65536int } else { 0 })
            }
            &&& forall|i: int|
                0 <= i < 5 && 9 + 7 * i + 7 <= s.len() ==> {
                    let o = 9 + 7 * i;
                    &&& (#[trigger] r.touches@[i]).abs_x == s[o] * 256 + s[o + 1]
                    &&& r.touches@[i].abs_y == s[o + 2] * 256 + s[o + 3]
                    &&& r.touches@[i].strength == s[o + 4] * 256 + s[o + 5]
                    &&& r.touches@[i].size == s[o + 6]
                }
            &&& forall|i: int|
                0 <= i < 5 && 9 + 7 * i >= s.len() ==> #[trigger] r.touches@[i] == (Touch {
                    abs_x: 0,
                    abs_y: 0,
                    strength: 0,
                    size: 0,
                })
        }),
{
    let r = report_of(s);
    assert forall|i: int| 0 <= i < 5 implies #[trigger] r.touches@[i] == touch_at(s, 9 + 7 * i) by {
        assert(i == 0 || i == 1 || i == 2 || i == 3 || i == 4);
    }
}

} // verus!
