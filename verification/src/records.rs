//! The payloads of the control calls, byte for byte.
//!
//! Each payload is a record of 32-bit words in the byte order of the host,
//! laid out as the driver of a 64-bit system expects it. Only the fields
//! that a capture by mapped buffers uses are written or read; the others
//! are zero.

use vstd::prelude::*;
use crate::camera::{BufferDescriptor, Format, Reply, Request, code_of_request};
use crate::codes::{
    BUFFER_SIZE, CAPABILITY_SIZE, FORMAT_SIZE, REQUEST_BUFFERS_SIZE, STREAM_TYPE_SIZE, fields_of,
};
use crate::notice::{ByteOrder, read_word, word_at};

verus! {

/// The buffer type of a single-planar video capture.
pub const VIDEO_CAPTURE: u32 = 1;

/// The memory mode in which buffers are shared by mapping.
pub const MEMORY_MMAP: u32 = 1;

/// The field order of a device that has no fields.
pub const FIELD_NONE: u32 = 1;

/// The four bytes of a word.
pub open spec fn word_bytes(word: u32, order: ByteOrder) -> Seq<u8> {
    let b0 = (word % 0x100) as u8;
    let b1 = ((word / 0x100) % 0x100) as u8;
    let b2 = ((word / 0x1_0000) % 0x100) as u8;
    let b3 = (word / 0x100_0000) as u8;
    match order {
        ByteOrder::Little => seq![b0, b1, b2, b3],
        ByteOrder::Big => seq![b3, b2, b1, b0],
    }
}

/// So many zero bytes.
pub open spec fn zeros(count: nat) -> Seq<u8> {
    Seq::new(count, |i: int| 0u8)
}

/// The buffer request: how many buffers, of which type, shared how, and
/// two reserved words.
pub open spec fn request_buffers_bytes(count: u32, order: ByteOrder) -> Seq<u8> {
    word_bytes(count, order) + word_bytes(VIDEO_CAPTURE, order) + word_bytes(MEMORY_MMAP, order)
        + zeros(8)
}

/// The format block: the buffer type, four bytes of padding, then the
/// pixel format with width, height, encoding and field order; the stride,
/// the image size and the rest are left to the driver.
pub open spec fn format_bytes(pixelformat: u32, width: u32, height: u32, order: ByteOrder) -> Seq<
    u8,
> {
    word_bytes(VIDEO_CAPTURE, order) + zeros(4) + word_bytes(width, order) + word_bytes(
        height,
        order,
    ) + word_bytes(pixelformat, order) + word_bytes(FIELD_NONE, order) + zeros(184)
}

/// The buffer block: the index and the buffer type at the start, the
/// memory mode at byte 60, everything else zero.
pub open spec fn buffer_bytes(index: u32, order: ByteOrder) -> Seq<u8> {
    word_bytes(index, order) + word_bytes(VIDEO_CAPTURE, order) + zeros(52) + word_bytes(
        MEMORY_MMAP,
        order,
    ) + zeros(24)
}

/// The payload that a request hands to the driver.
pub open spec fn payload_of(request: Request, order: ByteOrder) -> Seq<u8> {
    match request {
        Request::QueryCapability => zeros(CAPABILITY_SIZE as nat),
        Request::SetFormat { pixelformat, width, height } => format_bytes(
            pixelformat,
            width,
            height,
            order,
        ),
        Request::RequestBuffers { count } => request_buffers_bytes(count, order),
        Request::QueryBuffer { index } => buffer_bytes(index, order),
        Request::Enqueue { index } => buffer_bytes(index, order),
        Request::Dequeue { index } => buffer_bytes(index, order),
        Request::StreamOn => word_bytes(VIDEO_CAPTURE, order),
        Request::StreamOff => word_bytes(VIDEO_CAPTURE, order),
    }
}

/// What a format block holds of the driver's choice: the width at byte 8,
/// the height at 12, the stride at 24 and the image size at 28.
pub open spec fn format_of(bytes: Seq<u8>, order: ByteOrder) -> Option<Format> {
    if bytes.len() < FORMAT_SIZE {
        None
    } else {
        Some(
            Format {
                width: word_at(bytes, 8, order) as u32,
                height: word_at(bytes, 12, order) as u32,
                stride: word_at(bytes, 24, order) as u32,
                size: word_at(bytes, 28, order) as u32,
            },
        )
    }
}

/// What a buffer block holds of the buffer: the index at byte 0, the
/// mapping offset at 64 and the length at 72.
pub open spec fn buffer_of(bytes: Seq<u8>, order: ByteOrder) -> Option<BufferDescriptor> {
    if bytes.len() < BUFFER_SIZE {
        None
    } else {
        Some(
            BufferDescriptor {
                index: word_at(bytes, 0, order) as u32,
                length: word_at(bytes, 72, order) as u32,
                offset: word_at(bytes, 64, order) as u32,
            },
        )
    }
}

/// The reply to a call that succeeded and left this payload: the format
/// for a format call, the buffer for a buffer query, nothing more for the
/// others. A payload too short for its block gives no reply.
pub open spec fn reply_of(request: Request, payload: Seq<u8>, order: ByteOrder) -> Option<Reply> {
    match request {
        Request::SetFormat { .. } => match format_of(payload, order) {
            Some(format) => Some(Reply::Format(format)),
            None => None,
        },
        Request::QueryBuffer { .. } => match buffer_of(payload, order) {
            Some(buffer) => Some(Reply::Buffer(buffer)),
            None => None,
        },
        _ => Some(Reply::Done),
    }
}

/// Appends the four bytes of a word.
pub fn put_word(bytes: &mut Vec<u8>, word: u32, order: ByteOrder)
    ensures
        final(bytes)@ == old(bytes)@ + word_bytes(word, order),
{
    let b0: u8 = (word % 0x100) as u8;
    let b1: u8 = ((word / 0x100) % 0x100) as u8;
    let b2: u8 = ((word / 0x1_0000) % 0x100) as u8;
    let b3: u8 = (word / 0x100_0000) as u8;
    match order {
        ByteOrder::Little => {
            bytes.push(b0);
            bytes.push(b1);
            bytes.push(b2);
            bytes.push(b3);
        },
        ByteOrder::Big => {
            bytes.push(b3);
            bytes.push(b2);
            bytes.push(b1);
            bytes.push(b0);
        },
    }
    assert(bytes@ =~= old(bytes)@ + word_bytes(word, order));
}

/// Appends so many zero bytes.
pub fn put_zeros(bytes: &mut Vec<u8>, count: usize)
    ensures
        final(bytes)@ == old(bytes)@ + zeros(count as nat),
{
    let mut i: usize = 0;
    while i < count
        invariant
            i <= count,
            bytes@ == old(bytes)@ + zeros(i as nat),
        decreases count - i,
    {
        bytes.push(0);
        assert(bytes@ =~= old(bytes)@ + zeros((i + 1) as nat));
        i += 1;
    }
}

/// Reads the driver's choice out of a format block.
pub fn decode_format(bytes: &[u8], order: ByteOrder) -> (format: Option<Format>)
    ensures
        format == format_of(bytes@, order),
{
    if bytes.len() < 208 {
        return None;
    }
    Some(
        Format {
            width: read_word(bytes, 8, order),
            height: read_word(bytes, 12, order),
            stride: read_word(bytes, 24, order),
            size: read_word(bytes, 28, order),
        },
    )
}

/// Reads the description of the buffer out of a buffer block.
pub fn decode_buffer(bytes: &[u8], order: ByteOrder) -> (buffer: Option<BufferDescriptor>)
    ensures
        buffer == buffer_of(bytes@, order),
{
    if bytes.len() < 88 {
        return None;
    }
    Some(
        BufferDescriptor {
            index: read_word(bytes, 0, order),
            length: read_word(bytes, 72, order),
            offset: read_word(bytes, 64, order),
        },
    )
}

fn buffer_block(index: u32, order: ByteOrder) -> (bytes: Vec<u8>)
    ensures
        bytes@ == buffer_bytes(index, order),
{
    let mut bytes: Vec<u8> = Vec::new();
    put_word(&mut bytes, index, order);
    put_word(&mut bytes, VIDEO_CAPTURE, order);
    put_zeros(&mut bytes, 52);
    put_word(&mut bytes, MEMORY_MMAP, order);
    put_zeros(&mut bytes, 24);
    assert(bytes@ =~= buffer_bytes(index, order));
    bytes
}

impl Request {
    /// The payload to hand to the driver with this request.
    pub fn payload(&self, order: ByteOrder) -> (bytes: Vec<u8>)
        ensures
            bytes@ == payload_of(*self, order),
    {
        let mut bytes: Vec<u8> = Vec::new();
        match *self {
            Request::QueryCapability => {
                put_zeros(&mut bytes, 104);
                assert(bytes@ =~= zeros(104));
            },
            Request::SetFormat { pixelformat, width, height } => {
                put_word(&mut bytes, VIDEO_CAPTURE, order);
                put_zeros(&mut bytes, 4);
                put_word(&mut bytes, width, order);
                put_word(&mut bytes, height, order);
                put_word(&mut bytes, pixelformat, order);
                put_word(&mut bytes, FIELD_NONE, order);
                put_zeros(&mut bytes, 184);
                assert(bytes@ =~= format_bytes(pixelformat, width, height, order));
            },
            Request::RequestBuffers { count } => {
                put_word(&mut bytes, count, order);
                put_word(&mut bytes, VIDEO_CAPTURE, order);
                put_word(&mut bytes, MEMORY_MMAP, order);
                put_zeros(&mut bytes, 8);
                assert(bytes@ =~= request_buffers_bytes(count, order));
            },
            Request::QueryBuffer { index } | Request::Enqueue { index } | Request::Dequeue {
                index,
            } => {
                bytes = buffer_block(index, order);
            },
            Request::StreamOn | Request::StreamOff => {
                put_word(&mut bytes, VIDEO_CAPTURE, order);
                assert(bytes@ =~= word_bytes(VIDEO_CAPTURE, order));
            },
        }
        bytes
    }

    /// The reply to this request once the call has succeeded and left the
    /// given payload.
    pub fn reply(&self, payload: &[u8], order: ByteOrder) -> (reply: Option<Reply>)
        ensures
            reply == reply_of(*self, payload@, order),
    {
        match *self {
            Request::SetFormat { .. } => match decode_format(payload, order) {
                Some(format) => Some(Reply::Format(format)),
                None => None,
            },
            Request::QueryBuffer { .. } => match decode_buffer(payload, order) {
                Some(buffer) => Some(Reply::Buffer(buffer)),
                None => None,
            },
            _ => Some(Reply::Done),
        }
    }
}

/// A word written and read again in the same byte order is the same word.
pub proof fn lemma_word_round_trip(word: u32, order: ByteOrder)
    ensures
        word_bytes(word, order).len() == 4,
        word_at(word_bytes(word, order), 0, order) == word,
{
}

/// A word that stands at a position of a longer record is read there: the
/// bytes before and after it do not matter.
pub proof fn lemma_word_in_place(head: Seq<u8>, word: u32, tail: Seq<u8>, order: ByteOrder)
    ensures
        word_at(head + word_bytes(word, order) + tail, head.len() as int, order) == word,
{
    let all = head + word_bytes(word, order) + tail;
    let at = head.len() as int;
    assert(all[at] == word_bytes(word, order)[0]);
    assert(all[at + 1] == word_bytes(word, order)[1]);
    assert(all[at + 2] == word_bytes(word, order)[2]);
    assert(all[at + 3] == word_bytes(word, order)[3]);
}

/// The payload of every request is as long as the size field of the
/// request's code says.
pub proof fn lemma_payload_fits_code(request: Request, order: ByteOrder)
    ensures
        payload_of(request, order).len() == fields_of(code_of_request(request)).size,
        payload_of(request, order).len() == match request {
            Request::QueryCapability => CAPABILITY_SIZE,
            Request::SetFormat { .. } => FORMAT_SIZE,
            Request::RequestBuffers { .. } => REQUEST_BUFFERS_SIZE,
            Request::QueryBuffer { .. } | Request::Enqueue { .. } | Request::Dequeue { .. } => BUFFER_SIZE,
            Request::StreamOn | Request::StreamOff => STREAM_TYPE_SIZE,
        },
{
}

/// A format block read back before the driver has touched it gives the
/// width and height that were asked for, and no stride or size yet.
pub proof fn lemma_format_round_trip(pixelformat: u32, width: u32, height: u32, order: ByteOrder)
    ensures
        format_of(format_bytes(pixelformat, width, height, order), order) == Some(
            Format { width, height, stride: 0, size: 0 },
        ),
        word_at(format_bytes(pixelformat, width, height, order), 16, order) == pixelformat,
{
    let bytes = format_bytes(pixelformat, width, height, order);
    let head = word_bytes(VIDEO_CAPTURE, order) + zeros(4);
    let after_width = word_bytes(height, order) + word_bytes(pixelformat, order) + word_bytes(
        FIELD_NONE,
        order,
    ) + zeros(184);
    assert(bytes =~= head + word_bytes(width, order) + after_width);
    lemma_word_in_place(head, width, after_width, order);
    let head2 = head + word_bytes(width, order);
    let after_height = word_bytes(pixelformat, order) + word_bytes(FIELD_NONE, order) + zeros(184);
    assert(bytes =~= head2 + word_bytes(height, order) + after_height);
    lemma_word_in_place(head2, height, after_height, order);
    let head3 = head2 + word_bytes(height, order);
    let after_format = word_bytes(FIELD_NONE, order) + zeros(184);
    assert(bytes =~= head3 + word_bytes(pixelformat, order) + after_format);
    lemma_word_in_place(head3, pixelformat, after_format, order);
    assert(forall|i: int| 24 <= i < 208 ==> bytes[i] == 0);
}

/// A buffer block read back before the driver has touched it gives the
/// index that was asked for, and no length or offset yet.
pub proof fn lemma_buffer_round_trip(index: u32, order: ByteOrder)
    ensures
        buffer_of(buffer_bytes(index, order), order) == Some(
            BufferDescriptor { index, length: 0, offset: 0 },
        ),
{
    let bytes = buffer_bytes(index, order);
    let tail = word_bytes(VIDEO_CAPTURE, order) + zeros(52) + word_bytes(MEMORY_MMAP, order)
        + zeros(24);
    assert(bytes =~= Seq::<u8>::empty() + word_bytes(index, order) + tail);
    lemma_word_in_place(Seq::<u8>::empty(), index, tail, order);
    assert(forall|i: int| 64 <= i < 88 ==> bytes[i] == 0);
}

} // verus!
