//! The record in which the kernel reports a change in a watched directory.
//!
//! A record is a header of four 32-bit words in the byte order of the host
//! (the watch it belongs to, the mask of what happened, a cookie that ties
//! related records together, the size of the name field) and a name field
//! of up to 256 bytes, which a zero byte ends.

use vstd::prelude::*;

verus! {

/// Bytes of the header of a record.
pub const HEADER_SIZE: usize = 16;

/// Bytes of the longest record: the header and a full name field.
pub const RECORD_SIZE: usize = 272;

/// Mask bit of a record that reports a new entry.
pub const ADDED: u32 = 0x100;

/// Mask bit of a record that reports a removed entry.
pub const REMOVED: u32 = 0x200;

/// The order in which the bytes of a word stand in memory.
#[derive(Clone, Copy, Debug, PartialEq, Eq, Structural)]
pub enum ByteOrder {
    /// Lowest byte first.
    Little,
    /// Highest byte first.
    Big,
}

/// A change record, taken apart.
#[derive(Debug)]
pub struct Notice {
    pub watch: i32,
    pub mask: u32,
    pub cookie: u32,
    pub name_len: u32,
    pub name: Vec<u8>,
}

/// The mathematical value of a change record.
pub struct NoticeView {
    pub watch: int,
    pub mask: int,
    pub cookie: int,
    pub name_len: int,
    pub name: Seq<u8>,
}

impl View for Notice {
    type V = NoticeView;

    open spec fn view(&self) -> NoticeView {
        NoticeView {
            watch: self.watch as int,
            mask: self.mask as int,
            cookie: self.cookie as int,
            name_len: self.name_len as int,
            name: self.name@,
        }
    }
}

/// The unsigned value of the four bytes from `at` on.
pub open spec fn word_at(bytes: Seq<u8>, at: int, order: ByteOrder) -> int {
    match order {
        ByteOrder::Little => bytes[at] + bytes[at + 1] * 0x100 + bytes[at + 2] * 0x1_0000 + bytes[at
            + 3] * 0x100_0000,
        ByteOrder::Big => bytes[at + 3] + bytes[at + 2] * 0x100 + bytes[at + 1] * 0x1_0000
            + bytes[at] * 0x100_0000,
    }
}

/// An unsigned 32-bit value read as a signed one.
pub open spec fn signed(word: int) -> int {
    if word >= 0x8000_0000 {
        word - 0x1_0000_0000
    } else {
        word
    }
}

/// The first position from `from` on that holds a zero byte, or the length
/// of the bytes if none does.
pub open spec fn zero_from(bytes: Seq<u8>, from: int) -> int
    decreases bytes.len() - from,
{
    if from >= bytes.len() || bytes[from] == 0 {
        from
    } else {
        zero_from(bytes, from + 1)
    }
}

/// The name field of a record: what follows the header, up to the end of
/// the longest record.
pub open spec fn name_field(bytes: Seq<u8>) -> Seq<u8> {
    bytes.subrange(
        HEADER_SIZE as int,
        if bytes.len() < RECORD_SIZE {
            bytes.len() as int
        } else {
            RECORD_SIZE as int
        },
    )
}

/// The name that a record carries: its name field up to the first zero.
pub open spec fn name_of(bytes: Seq<u8>) -> Seq<u8> {
    name_field(bytes).subrange(0, zero_from(name_field(bytes), 0))
}

/// What the bytes of a record say, if they hold a whole header.
pub open spec fn notice_of(bytes: Seq<u8>, order: ByteOrder) -> Option<NoticeView> {
    if bytes.len() < HEADER_SIZE {
        None
    } else {
        Some(
            NoticeView {
                watch: signed(word_at(bytes, 0, order)),
                mask: word_at(bytes, 4, order),
                cookie: word_at(bytes, 8, order),
                name_len: word_at(bytes, 12, order),
                name: name_of(bytes),
            },
        )
    }
}

/// Whether a mask reports a removed entry: whether its bit of value 0x200
/// is set.
pub open spec fn reports_removal(mask: int) -> bool {
    (mask / 0x200) % 2 == 1
}

/// Whether a mask reports a new entry: whether its bit of value 0x100 is
/// set.
pub open spec fn reports_addition(mask: int) -> bool {
    (mask / 0x100) % 2 == 1
}

/// The position of the first zero lies between the start and the end.
pub proof fn lemma_zero_from_bounds(bytes: Seq<u8>, from: int)
    requires
        0 <= from <= bytes.len(),
    ensures
        from <= zero_from(bytes, from) <= bytes.len(),
        zero_from(bytes, from) < bytes.len() ==> bytes[zero_from(bytes, from)] == 0,
        forall|i: int| from <= i < zero_from(bytes, from) ==> bytes[i] != 0,
    decreases bytes.len() - from,
{
    if from < bytes.len() && bytes[from] != 0 {
        lemma_zero_from_bounds(bytes, from + 1);
    }
}

/// The name of a record holds no zero byte, is at most 256 bytes long, and
/// is the start of the name field; it ends where the field ends or where
/// its first zero stands.
pub proof fn lemma_name_is_clean(bytes: Seq<u8>)
    requires
        bytes.len() >= HEADER_SIZE,
    ensures
        name_of(bytes).len() <= RECORD_SIZE - HEADER_SIZE,
        name_of(bytes).len() <= name_field(bytes).len(),
        forall|i: int| 0 <= i < name_of(bytes).len() ==> name_of(bytes)[i] != 0,
        forall|i: int| 0 <= i < name_of(bytes).len() ==> name_of(bytes)[i] == bytes[16 + i],
        name_of(bytes).len() < name_field(bytes).len() ==> bytes[16 + name_of(bytes).len() as int] == 0,
{
    lemma_zero_from_bounds(name_field(bytes), 0);
}

proof fn lemma_mask_bits(mask: u32)
    by (bit_vector)
    ensures
        (mask & 0x200 != 0) == ((mask / 0x200) % 2 == 1),
        (mask & 0x100 != 0) == ((mask / 0x100) % 2 == 1),
{
}

/// Reads the unsigned 32-bit word that stands at `at`.
pub fn read_word(bytes: &[u8], at: usize, order: ByteOrder) -> (word: u32)
    requires
        at + 4 <= bytes.len(),
    ensures
        word == word_at(bytes@, at as int, order),
{
    let b0: u32 = bytes[at] as u32;
    let b1: u32 = bytes[at + 1] as u32;
    let b2: u32 = bytes[at + 2] as u32;
    let b3: u32 = bytes[at + 3] as u32;
    match order {
        ByteOrder::Little => b0 + b1 * 0x100 + b2 * 0x1_0000 + b3 * 0x100_0000,
        ByteOrder::Big => b3 + b2 * 0x100 + b1 * 0x1_0000 + b0 * 0x100_0000,
    }
}

/// Takes a change record apart. Bytes that do not hold a whole header give
/// nothing.
pub fn parse_record(bytes: &[u8], order: ByteOrder) -> (notice: Option<Notice>)
    ensures
        notice is Some == notice_of(bytes@, order) is Some,
        notice is Some ==> notice.unwrap()@ == notice_of(bytes@, order).unwrap(),
{
    if bytes.len() < HEADER_SIZE {
        return None;
    }
    let raw: u32 = read_word(bytes, 0, order);
    let watch: i32 = if raw >= 0x8000_0000 {
        (raw as i64 - 0x1_0000_0000) as i32
    } else {
        raw as i32
    };
    let mask: u32 = read_word(bytes, 4, order);
    let cookie: u32 = read_word(bytes, 8, order);
    let name_len: u32 = read_word(bytes, 12, order);
    let end: usize = if bytes.len() < RECORD_SIZE {
        bytes.len()
    } else {
        RECORD_SIZE
    };
    let ghost field = name_field(bytes@);
    let mut name: Vec<u8> = Vec::new();
    let mut i: usize = HEADER_SIZE;
    while i < end && bytes[i] != 0
        invariant
            HEADER_SIZE <= i <= end <= bytes.len(),
            field == bytes@.subrange(HEADER_SIZE as int, end as int),
            name@ == field.subrange(0, i - HEADER_SIZE),
            zero_from(field, 0) == zero_from(field, i - HEADER_SIZE),
        decreases end - i,
    {
        name.push(bytes[i]);
        assert(field[i - HEADER_SIZE] == bytes@[i as int]);
        assert(name@ =~= field.subrange(0, i + 1 - HEADER_SIZE));
        i += 1;
    }
    assert(zero_from(field, i - HEADER_SIZE) == i - HEADER_SIZE) by {
        if i < end {
            assert(field[i - HEADER_SIZE] == bytes@[i as int]);
        }
    }
    Some(Notice { watch, mask, cookie, name_len, name })
}

impl Notice {
    /// Whether the record reports a removed entry.
    pub fn is_removal(&self) -> (removal: bool)
        ensures
            removal == reports_removal(self@.mask),
    {
        proof {
            lemma_mask_bits(self.mask);
        }
        self.mask & REMOVED != 0
    }

    /// Whether the record reports a new entry.
    pub fn is_addition(&self) -> (addition: bool)
        ensures
            addition == reports_addition(self@.mask),
    {
        proof {
            lemma_mask_bits(self.mask);
        }
        self.mask & ADDED != 0
    }
}

} // verus!
