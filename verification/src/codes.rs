//! Control-call codes and pixel-format codes of the video driver interface.
//!
//! A control-call code is a 32-bit value made of four fields: the direction
//! of the payload in the two highest bits, the payload size in 13 bits from
//! bit 16, the subsystem tag in bits 8 to 15 and the command number in the
//! lowest byte.

use vstd::prelude::*;

verus! {

/// Subsystem tag of the video interface, the letter `V`.
pub const VIDEO_TAG: u8 = 0x56;

/// Largest payload size that a control-call code can carry.
pub const MAX_PAYLOAD: u32 = 8191;

/// Size in bytes of the payload of the two streaming switches.
pub const STREAM_TYPE_SIZE: u32 = 4;

/// Size in bytes of the capability block.
pub const CAPABILITY_SIZE: u32 = 104;

/// Size in bytes of the stream format block.
pub const FORMAT_SIZE: u32 = 208;

/// Size in bytes of the buffer request block.
pub const REQUEST_BUFFERS_SIZE: u32 = 20;

/// Size in bytes of the per-buffer descriptor block.
pub const BUFFER_SIZE: u32 = 88;

pub const VIDIOC_QUERYCAP: u32 = 0x4068_5600;

pub const VIDIOC_S_FMT: u32 = 0xc0d0_5605;

pub const VIDIOC_REQBUFS: u32 = 0xc014_5608;

pub const VIDIOC_QUERYBUF: u32 = 0xc058_5609;

pub const VIDIOC_QBUF: u32 = 0xc058_560f;

pub const VIDIOC_DQBUF: u32 = 0xc058_5611;

pub const VIDIOC_STREAMON: u32 = 0x8004_5612;

pub const VIDIOC_STREAMOFF: u32 = 0x8004_5613;

/// The four-character code of the motion-JPEG encoding, `MJPG`.
pub const V4L2_PIX_FMT_MJPEG: u32 = 0x4750_4a4d;

/// Which way the payload of a control call travels.
#[derive(Clone, Copy, Debug, PartialEq, Eq, Structural)]
pub enum Direction {
    /// The call carries no payload.
    Neither,
    /// The driver fills the payload in.
    Read,
    /// The caller hands the payload to the driver.
    Write,
    /// The payload travels both ways.
    ReadWrite,
}

impl Direction {
    /// The two direction bits as a number: 0 for no payload, 1 for a payload
    /// read, 2 for one written, 3 for both.
    pub open spec fn bits(self) -> nat {
        match self {
            Direction::Neither => 0,
            Direction::Read => 1,
            Direction::Write => 2,
            Direction::ReadWrite => 3,
        }
    }
}

/// The four fields of a control-call code.
#[derive(Clone, Copy, Debug, PartialEq, Eq, Structural)]
pub struct CallCode {
    pub direction: Direction,
    pub size: u32,
    pub tag: u8,
    pub number: u8,
}

/// The value of a code with the given fields. A size beyond 13 bits is cut
/// down to its lowest 13 bits.
pub open spec fn code_of(direction: Direction, size: u32, tag: u8, number: u8) -> int {
    direction.bits() * 0x4000_0000 + (size % 8192) * 0x1_0000 + tag * 0x100 + number
}

/// The fields that a 32-bit value holds when read as a control-call code.
pub open spec fn fields_of(code: u32) -> CallCode {
    let d = code / 0x4000_0000;
    CallCode {
        direction: if d == 0 {
            Direction::Neither
        } else if d == 1 {
            Direction::Read
        } else if d == 2 {
            Direction::Write
        } else {
            Direction::ReadWrite
        },
        size: ((code / 0x1_0000) % 8192) as u32,
        tag: ((code / 0x100) % 256) as u8,
        number: (code % 256) as u8,
    }
}

/// The value of a four-character code: the first character in the lowest
/// byte, the fourth in the highest.
pub open spec fn fourcc_of(a: Seq<u8>) -> int {
    a[0] + a[1] * 0x100 + a[2] * 0x1_0000 + a[3] * 0x100_0000
}

proof fn lemma_pack(d: u32, s: u32, t: u8, n: u8)
    by (bit_vector)
    requires
        d < 4,
        s < 8192,
    ensures
        ((d << 30) | (s << 16) | ((t as u32) << 8) | (n as u32)) == d * 0x4000_0000 + s * 0x1_0000
            + (t as u32) * 0x100 + (n as u32),
        d * 0x4000_0000 + s * 0x1_0000 + (t as u32) * 0x100 + (n as u32) <= 0xffff_ffff,
{
}

proof fn lemma_mask(size: u32)
    by (bit_vector)
    ensures
        size & 0x1fff == size % 8192,
        size & 0x1fff < 8192,
{
}

proof fn lemma_unpack(code: u32)
    by (bit_vector)
    ensures
        code >> 30 == code / 0x4000_0000,
        code >> 30 < 4,
        (code >> 16) & 0x1fff == (code / 0x1_0000) % 8192,
        (code >> 8) & 0xff == (code / 0x100) % 256,
        code & 0xff == code % 256,
{
}

proof fn lemma_fourcc(a: u8, b: u8, c: u8, d: u8)
    by (bit_vector)
    ensures
        ((a as u32) | ((b as u32) << 8) | ((c as u32) << 16) | ((d as u32) << 24)) == (a as u32)
            + (b as u32) * 0x100 + (c as u32) * 0x1_0000 + (d as u32) * 0x100_0000,
        (a as u32) + (b as u32) * 0x100 + (c as u32) * 0x1_0000 + (d as u32) * 0x100_0000
            <= 0xffff_ffff,
{
}

/// Composes a control-call code from its four fields.
pub fn compose(direction: Direction, size: u32, tag: u8, number: u8) -> (code: u32)
    ensures
        code == code_of(direction, size, tag, number),
{
    let d: u32 = match direction {
        Direction::Neither => 0,
        Direction::Read => 1,
        Direction::Write => 2,
        Direction::ReadWrite => 3,
    };
    let s: u32 = size & 0x1fff;
    proof {
        lemma_mask(size);
        lemma_pack(d, s, tag, number);
    }
    (d << 30) | (s << 16) | ((tag as u32) << 8) | (number as u32)
}

/// Splits a control-call code into its four fields.
pub fn decompose(code: u32) -> (fields: CallCode)
    ensures
        fields == fields_of(code),
{
    proof {
        lemma_unpack(code);
    }
    let d: u32 = code >> 30;
    let direction = if d == 0 {
        Direction::Neither
    } else if d == 1 {
        Direction::Read
    } else if d == 2 {
        Direction::Write
    } else {
        Direction::ReadWrite
    };
    CallCode {
        direction,
        size: (code >> 16) & 0x1fff,
        tag: ((code >> 8) & 0xff) as u8,
        number: (code & 0xff) as u8,
    }
}

/// A code of the video subsystem whose payload the caller writes.
pub fn iow_v(size: u32, num: u8) -> (code: u32)
    ensures
        code == code_of(Direction::Write, size, VIDEO_TAG, num),
{
    compose(Direction::Write, size, VIDEO_TAG, num)
}

/// A code of the video subsystem whose payload the driver fills in.
pub fn ior_v(size: u32, num: u8) -> (code: u32)
    ensures
        code == code_of(Direction::Read, size, VIDEO_TAG, num),
{
    compose(Direction::Read, size, VIDEO_TAG, num)
}

/// A code of the video subsystem whose payload travels both ways.
pub fn iowr_v(size: u32, num: u8) -> (code: u32)
    ensures
        code == code_of(Direction::ReadWrite, size, VIDEO_TAG, num),
{
    compose(Direction::ReadWrite, size, VIDEO_TAG, num)
}

/// The 32-bit code of a four-character name, first character lowest.
pub fn v4l2_fourcc(a: &[u8; 4]) -> (code: u32)
    ensures
        code == fourcc_of(a@),
{
    proof {
        lemma_fourcc(a[0], a[1], a[2], a[3]);
    }
    (a[0] as u32) | ((a[1] as u32) << 8) | ((a[2] as u32) << 16) | ((a[3] as u32) << 24)
}

/// Composing a code and splitting it again gives back the four fields, for
/// every direction, tag and command number and every size that fits the
/// 13 bits of the size field.
pub proof fn lemma_code_round_trip(direction: Direction, size: u32, tag: u8, number: u8)
    requires
        size <= MAX_PAYLOAD,
    ensures
        0 <= code_of(direction, size, tag, number) <= u32::MAX,
        fields_of(code_of(direction, size, tag, number) as u32) == (CallCode {
            direction,
            size,
            tag,
            number,
        }),
{
}

/// Splitting a value and composing its fields gives the value back when the
/// bit between the direction and the size, which no field covers, is clear.
pub proof fn lemma_fields_round_trip(code: u32)
    requires
        (code / 0x2000_0000) % 2 == 0,
    ensures
        code_of(
            fields_of(code).direction,
            fields_of(code).size,
            fields_of(code).tag,
            fields_of(code).number,
        ) == code,
        fields_of(code).size <= MAX_PAYLOAD,
{
}

/// The named codes are the compositions of their direction, payload size
/// and command number under the video tag.
pub proof fn lemma_named_codes()
    ensures
        VIDIOC_QUERYCAP == code_of(Direction::Read, CAPABILITY_SIZE, VIDEO_TAG, 0),
        VIDIOC_S_FMT == code_of(Direction::ReadWrite, FORMAT_SIZE, VIDEO_TAG, 5),
        VIDIOC_REQBUFS == code_of(Direction::ReadWrite, REQUEST_BUFFERS_SIZE, VIDEO_TAG, 8),
        VIDIOC_QUERYBUF == code_of(Direction::ReadWrite, BUFFER_SIZE, VIDEO_TAG, 9),
        VIDIOC_QBUF == code_of(Direction::ReadWrite, BUFFER_SIZE, VIDEO_TAG, 15),
        VIDIOC_DQBUF == code_of(Direction::ReadWrite, BUFFER_SIZE, VIDEO_TAG, 17),
        VIDIOC_STREAMON == code_of(Direction::Write, STREAM_TYPE_SIZE, VIDEO_TAG, 18),
        VIDIOC_STREAMOFF == code_of(Direction::Write, STREAM_TYPE_SIZE, VIDEO_TAG, 19),
        V4L2_PIX_FMT_MJPEG == fourcc_of(seq![0x4du8, 0x4au8, 0x50u8, 0x47u8]),
{
}

} // verus!
