//! The records as the bytes that the kernel exchanges.
//!
//! The fields of a record follow each other in their order without padding.
//! A 32-bit field takes four bytes in the byte order of the machine; a text
//! field or a value takes one byte per element.

use crate::uapi::{
    gpiochip_info, gpiohandle_data, gpiohandle_request, gpioline_info, Exchange, CHIP_INFO_SIZE,
    HANDLE_DATA_SIZE, HANDLE_REQUEST_SIZE, LINE_INFO_SIZE,
};
use vstd::prelude::*;

verus! {

/// The order in which the bytes of a 32-bit field follow each other.
#[derive(Clone, Copy, Debug, PartialEq, Eq, Structural)]
pub enum ByteOrder {
    /// Least significant byte first.
    LittleEndian,
    /// Most significant byte first.
    BigEndian,
}

/// The four bytes of a 32-bit value in the given order.
pub open spec fn u32_bytes(v: u32, order: ByteOrder) -> Seq<u8> {
    let b0 = (v & 0xff) as u8;
    let b1 = ((v >> 8) & 0xff) as u8;
    let b2 = ((v >> 16) & 0xff) as u8;
    let b3 = ((v >> 24) & 0xff) as u8;
    match order {
        ByteOrder::LittleEndian => seq![b0, b1, b2, b3],
        ByteOrder::BigEndian => seq![b3, b2, b1, b0],
    }
}

/// The 32-bit value whose bytes are `b0` (least significant) to `b3`.
pub open spec fn u32_join(b0: u8, b1: u8, b2: u8, b3: u8) -> u32 {
    (b0 as u32) | ((b1 as u32) << 8) | ((b2 as u32) << 16) | ((b3 as u32) << 24)
}

/// The 32-bit value that four bytes hold in the given order.
pub open spec fn u32_of(bytes: Seq<u8>, order: ByteOrder) -> u32 {
    match order {
        ByteOrder::LittleEndian => u32_join(bytes[0], bytes[1], bytes[2], bytes[3]),
        ByteOrder::BigEndian => u32_join(bytes[3], bytes[2], bytes[1], bytes[0]),
    }
}

/// The bytes of a sequence of 32-bit values, one after the other.
pub open spec fn u32s_bytes(values: Seq<u32>, order: ByteOrder) -> Seq<u8>
    decreases values.len(),
{
    if values.len() == 0 {
        Seq::empty()
    } else {
        u32s_bytes(values.drop_last(), order) + u32_bytes(values.last(), order)
    }
}

/// The bytes of a chip-info record: name, label, line count.
pub open spec fn chip_info_bytes(r: gpiochip_info, order: ByteOrder) -> Seq<u8> {
    r.name@ + r.label@ + u32_bytes(r.lines, order)
}

/// The bytes of a line-info record: offset, flags, name, consumer.
pub open spec fn line_info_bytes(r: gpioline_info, order: ByteOrder) -> Seq<u8> {
    u32_bytes(r.line_offset, order) + u32_bytes(r.flags, order) + r.name@ + r.consumer@
}

/// The bytes of a handle request: the 64 offsets, flags, the 64 default
/// values, the consumer label, the number of lines, the descriptor.
pub open spec fn handle_request_bytes(r: gpiohandle_request, order: ByteOrder) -> Seq<u8> {
    u32s_bytes(r.lineoffsets@, order) + u32_bytes(r.flags, order) + r.default_values@
        + r.consumer_label@ + u32_bytes(r.lines, order) + u32_bytes(r.fd as u32, order)
}

/// The bytes of a handle-data record: the 64 values.
pub open spec fn handle_data_bytes(r: gpiohandle_data) -> Seq<u8> {
    r.values@
}

/// Four bytes that were made from a value hold that value.
pub proof fn lemma_u32_of_bytes(v: u32, order: ByteOrder)
    ensures
        u32_bytes(v, order).len() == 4,
        u32_of(u32_bytes(v, order), order) == v,
{
    let b0 = (v & 0xff) as u8;
    let b1 = ((v >> 8) & 0xff) as u8;
    let b2 = ((v >> 16) & 0xff) as u8;
    let b3 = ((v >> 24) & 0xff) as u8;
    assert(((v & 0xff) as u8 as u32) | ((((v >> 8) & 0xff) as u8 as u32) << 8) | ((((v >> 16)
        & 0xff) as u8 as u32) << 16) | ((((v >> 24) & 0xff) as u8 as u32) << 24) == v)
        by (bit_vector);
    assert(u32_join(b0, b1, b2, b3) == v);
}

/// The value that four bytes hold is made of exactly these bytes.
pub proof fn lemma_u32_bytes_of(bytes: Seq<u8>, order: ByteOrder)
    requires
        bytes.len() == 4,
    ensures
        u32_bytes(u32_of(bytes, order), order) == bytes,
{
    let (b0, b1, b2, b3) = match order {
        ByteOrder::LittleEndian => (bytes[0], bytes[1], bytes[2], bytes[3]),
        ByteOrder::BigEndian => (bytes[3], bytes[2], bytes[1], bytes[0]),
    };
    let v = u32_join(b0, b1, b2, b3);
    assert(v == u32_of(bytes, order));
    assert({
        let v = (b0 as u32) | ((b1 as u32) << 8) | ((b2 as u32) << 16) | ((b3 as u32) << 24);
        &&& (v & 0xff) as u8 == b0
        &&& ((v >> 8) & 0xff) as u8 == b1
        &&& ((v >> 16) & 0xff) as u8 == b2
        &&& ((v >> 24) & 0xff) as u8 == b3
    }) by (bit_vector);
    assert(u32_bytes(v, order) =~= bytes);
}

/// A sequence of 32-bit values takes four bytes for each value.
pub proof fn lemma_u32s_bytes_len(values: Seq<u32>, order: ByteOrder)
    ensures
        u32s_bytes(values, order).len() == 4 * values.len(),
    decreases values.len(),
{
    if values.len() > 0 {
        lemma_u32s_bytes_len(values.drop_last(), order);
    }
}

/// Every record is laid out in as many bytes as its exchange moves.
pub proof fn lemma_record_sizes(
    chip: gpiochip_info,
    line: gpioline_info,
    request: gpiohandle_request,
    data: gpiohandle_data,
    order: ByteOrder,
)
    ensures
        chip_info_bytes(chip, order).len() == Exchange::GetChipInfo.spec_record_size(),
        line_info_bytes(line, order).len() == Exchange::GetLineInfo.spec_record_size(),
        handle_request_bytes(request, order).len() == Exchange::GetLineHandle.spec_record_size(),
        handle_data_bytes(data).len() == Exchange::GetLineValues.spec_record_size(),
        handle_data_bytes(data).len() == Exchange::SetLineValues.spec_record_size(),
{
    lemma_u32s_bytes_len(request.lineoffsets@, order);
}

/// Two values with the same bytes are the same value.
pub proof fn lemma_u32_bytes_injective(a: u32, b: u32, order: ByteOrder)
    requires
        u32_bytes(a, order) == u32_bytes(b, order),
    ensures
        a == b,
{
    lemma_u32_of_bytes(a, order);
    lemma_u32_of_bytes(b, order);
}

/// Two sequences of as many values with the same bytes are the same
/// sequence.
pub proof fn lemma_u32s_bytes_injective(a: Seq<u32>, b: Seq<u32>, order: ByteOrder)
    requires
        a.len() == b.len(),
        u32s_bytes(a, order) == u32s_bytes(b, order),
    ensures
        a == b,
    decreases a.len(),
{
    if a.len() > 0 {
        let n = 4 * (a.len() - 1);
        lemma_u32s_bytes_len(a.drop_last(), order);
        lemma_u32s_bytes_len(b.drop_last(), order);
        lemma_u32_of_bytes(a.last(), order);
        lemma_u32_of_bytes(b.last(), order);
        assert(u32s_bytes(a, order).subrange(0, n) =~= u32s_bytes(a.drop_last(), order));
        assert(u32s_bytes(b, order).subrange(0, n) =~= u32s_bytes(b.drop_last(), order));
        assert(u32s_bytes(a, order).subrange(n, n + 4) =~= u32_bytes(a.last(), order));
        assert(u32s_bytes(b, order).subrange(n, n + 4) =~= u32_bytes(b.last(), order));
        lemma_u32s_bytes_injective(a.drop_last(), b.drop_last(), order);
        lemma_u32_bytes_injective(a.last(), b.last(), order);
        assert(a =~= a.drop_last().push(a.last()));
        assert(b =~= b.drop_last().push(b.last()));
    } else {
        assert(a =~= b);
    }
}

/// The bytes of a chip-info record determine the record: reading the bytes
/// that a record was laid out as gives the record back.
pub proof fn lemma_chip_info_bytes_injective(a: gpiochip_info, b: gpiochip_info, order: ByteOrder)
    requires
        chip_info_bytes(a, order) == chip_info_bytes(b, order),
    ensures
        a == b,
{
    let x = chip_info_bytes(a, order);
    let y = chip_info_bytes(b, order);
    lemma_u32_of_bytes(a.lines, order);
    lemma_u32_of_bytes(b.lines, order);
    assert(x.subrange(0, 32) =~= a.name@);
    assert(y.subrange(0, 32) =~= b.name@);
    assert(x.subrange(32, 64) =~= a.label@);
    assert(y.subrange(32, 64) =~= b.label@);
    assert(x.subrange(64, 68) =~= u32_bytes(a.lines, order));
    assert(y.subrange(64, 68) =~= u32_bytes(b.lines, order));
    lemma_u32_bytes_injective(a.lines, b.lines, order);
    assert(a.name =~= b.name);
    assert(a.label =~= b.label);
}

/// The bytes of a line-info record determine the record.
pub proof fn lemma_line_info_bytes_injective(a: gpioline_info, b: gpioline_info, order: ByteOrder)
    requires
        line_info_bytes(a, order) == line_info_bytes(b, order),
    ensures
        a == b,
{
    let x = line_info_bytes(a, order);
    let y = line_info_bytes(b, order);
    lemma_u32_of_bytes(a.line_offset, order);
    lemma_u32_of_bytes(b.line_offset, order);
    lemma_u32_of_bytes(a.flags, order);
    lemma_u32_of_bytes(b.flags, order);
    assert(x.subrange(0, 4) =~= u32_bytes(a.line_offset, order));
    assert(y.subrange(0, 4) =~= u32_bytes(b.line_offset, order));
    assert(x.subrange(4, 8) =~= u32_bytes(a.flags, order));
    assert(y.subrange(4, 8) =~= u32_bytes(b.flags, order));
    assert(x.subrange(8, 40) =~= a.name@);
    assert(y.subrange(8, 40) =~= b.name@);
    assert(x.subrange(40, 72) =~= a.consumer@);
    assert(y.subrange(40, 72) =~= b.consumer@);
    lemma_u32_bytes_injective(a.line_offset, b.line_offset, order);
    lemma_u32_bytes_injective(a.flags, b.flags, order);
    assert(a.name =~= b.name);
    assert(a.consumer =~= b.consumer);
}

/// The bytes of a handle request determine the record.
pub proof fn lemma_handle_request_bytes_injective(
    a: gpiohandle_request,
    b: gpiohandle_request,
    order: ByteOrder,
)
    requires
        handle_request_bytes(a, order) == handle_request_bytes(b, order),
    ensures
        a == b,
{
    let x = handle_request_bytes(a, order);
    let y = handle_request_bytes(b, order);
    let a_fd = a.fd as u32;
    let b_fd = b.fd as u32;
    lemma_u32s_bytes_len(a.lineoffsets@, order);
    lemma_u32s_bytes_len(b.lineoffsets@, order);
    lemma_u32_of_bytes(a.flags, order);
    lemma_u32_of_bytes(b.flags, order);
    lemma_u32_of_bytes(a.lines, order);
    lemma_u32_of_bytes(b.lines, order);
    lemma_u32_of_bytes(a_fd, order);
    lemma_u32_of_bytes(b_fd, order);
    assert(x.subrange(0, 256) =~= u32s_bytes(a.lineoffsets@, order));
    assert(y.subrange(0, 256) =~= u32s_bytes(b.lineoffsets@, order));
    assert(x.subrange(256, 260) =~= u32_bytes(a.flags, order));
    assert(y.subrange(256, 260) =~= u32_bytes(b.flags, order));
    assert(x.subrange(260, 324) =~= a.default_values@);
    assert(y.subrange(260, 324) =~= b.default_values@);
    assert(x.subrange(324, 356) =~= a.consumer_label@);
    assert(y.subrange(324, 356) =~= b.consumer_label@);
    assert(x.subrange(356, 360) =~= u32_bytes(a.lines, order));
    assert(y.subrange(356, 360) =~= u32_bytes(b.lines, order));
    assert(x.subrange(360, 364) =~= u32_bytes(a_fd, order));
    assert(y.subrange(360, 364) =~= u32_bytes(b_fd, order));
    lemma_u32s_bytes_injective(a.lineoffsets@, b.lineoffsets@, order);
    lemma_u32_bytes_injective(a.flags, b.flags, order);
    lemma_u32_bytes_injective(a.lines, b.lines, order);
    lemma_u32_bytes_injective(a_fd, b_fd, order);
    let fa = a.fd;
    let fb = b.fd;
    assert(fa as u32 == fb as u32 ==> fa == fb) by (bit_vector);
    assert(a.lineoffsets =~= b.lineoffsets);
    assert(a.default_values =~= b.default_values);
    assert(a.consumer_label =~= b.consumer_label);
}

/// The bytes of a handle-data record determine the record.
pub proof fn lemma_handle_data_bytes_injective(a: gpiohandle_data, b: gpiohandle_data)
    requires
        handle_data_bytes(a) == handle_data_bytes(b),
    ensures
        a == b,
{
    assert(a.values =~= b.values);
}

/// Appends the four bytes of `v` to `out`.
fn put_u32(out: &mut Vec<u8>, v: u32, order: ByteOrder)
    ensures
        final(out)@ == old(out)@ + u32_bytes(v, order),
{
    assert(v & 0xff <= 0xff && (v >> 8) & 0xff <= 0xff && (v >> 16) & 0xff <= 0xff && (v >> 24)
        & 0xff <= 0xff) by (bit_vector);
    let b0 = (v & 0xff) as u8;
    let b1 = ((v >> 8) & 0xff) as u8;
    let b2 = ((v >> 16) & 0xff) as u8;
    let b3 = ((v >> 24) & 0xff) as u8;
    match order {
        ByteOrder::LittleEndian => {
            out.push(b0);
            out.push(b1);
            out.push(b2);
            out.push(b3);
        },
        ByteOrder::BigEndian => {
            out.push(b3);
            out.push(b2);
            out.push(b1);
            out.push(b0);
        },
    }
    assert(out@ =~= old(out)@ + u32_bytes(v, order));
}

/// Appends the bytes of `src` to `out`.
fn put_bytes(out: &mut Vec<u8>, src: &[u8])
    ensures
        final(out)@ == old(out)@ + src@,
{
    let mut i: usize = 0;
    while i < src.len()
        invariant
            i <= src@.len(),
            out@ == old(out)@ + src@.take(i as int),
        decreases src@.len() - i,
    {
        out.push(src[i]);
        i += 1;
        assert(out@ =~= old(out)@ + src@.take(i as int));
    }
    assert(src@.take(i as int) =~= src@);
}

/// Reads the 32-bit value that stands at `at`.
fn get_u32(bytes: &[u8], at: usize, order: ByteOrder) -> (v: u32)
    requires
        at + 4 <= bytes@.len() <= usize::MAX,
    ensures
        v == u32_of(bytes@.subrange(at as int, at + 4), order),
{
    let (b0, b1, b2, b3) = match order {
        ByteOrder::LittleEndian => (bytes[at], bytes[at + 1], bytes[at + 2], bytes[at + 3]),
        ByteOrder::BigEndian => (bytes[at + 3], bytes[at + 2], bytes[at + 1], bytes[at]),
    };
    (b0 as u32) | ((b1 as u32) << 8) | ((b2 as u32) << 16) | ((b3 as u32) << 24)
}

/// Reads the 32 bytes of a text field that stands at `at`.
fn get_text(bytes: &[u8], at: usize) -> (text: [u8; 32])
    requires
        at + 32 <= bytes@.len() <= usize::MAX,
    ensures
        text@ == bytes@.subrange(at as int, at + 32),
{
    let mut text = [0u8; 32];
    let mut i: usize = 0;
    while i < 32
        invariant
            i <= 32,
            at + 32 <= bytes@.len() <= usize::MAX,
            forall|j: int| 0 <= j < i ==> text@[j] == bytes@[at + j],
        decreases 32 - i,
    {
        text[i] = bytes[at + i];
        i += 1;
    }
    assert(text@ =~= bytes@.subrange(at as int, at + 32));
    text
}

/// Reads the 64 values that stand at `at`.
fn get_values(bytes: &[u8], at: usize) -> (values: [u8; 64])
    requires
        at + 64 <= bytes@.len() <= usize::MAX,
    ensures
        values@ == bytes@.subrange(at as int, at + 64),
{
    let mut values = [0u8; 64];
    let mut i: usize = 0;
    while i < 64
        invariant
            i <= 64,
            at + 64 <= bytes@.len() <= usize::MAX,
            forall|j: int| 0 <= j < i ==> values@[j] == bytes@[at + j],
        decreases 64 - i,
    {
        values[i] = bytes[at + i];
        i += 1;
    }
    assert(values@ =~= bytes@.subrange(at as int, at + 64));
    values
}

impl gpiochip_info {
    /// Lays the record out as the bytes that the kernel exchanges.
    pub fn to_bytes(&self, order: ByteOrder) -> (bytes: Vec<u8>)
        ensures
            bytes@ == chip_info_bytes(*self, order),
            bytes@.len() == CHIP_INFO_SIZE,
    {
        let mut bytes = Vec::new();
        put_bytes(&mut bytes, self.name.as_slice());
        put_bytes(&mut bytes, self.label.as_slice());
        put_u32(&mut bytes, self.lines, order);
        assert(bytes@ =~= chip_info_bytes(*self, order));
        bytes
    }

    /// Reads a record from the bytes that the kernel filled in: the record
    /// whose layout they are, where they have the size of the record.
    pub fn from_bytes(bytes: &[u8], order: ByteOrder) -> (r: Option<Self>)
        ensures
            r is Some <==> bytes@.len() == CHIP_INFO_SIZE,
            r matches Some(record) ==> chip_info_bytes(record, order) == bytes@,
    {
        if bytes.len() != CHIP_INFO_SIZE {
            return None;
        }
        let record = gpiochip_info {
            name: get_text(bytes, 0),
            label: get_text(bytes, 32),
            lines: get_u32(bytes, 64, order),
        };
        proof {
            lemma_u32_bytes_of(bytes@.subrange(64, 68), order);
            assert(chip_info_bytes(record, order) =~= bytes@);
        }
        Some(record)
    }
}

impl gpioline_info {
    /// Lays the record out as the bytes that the kernel exchanges.
    pub fn to_bytes(&self, order: ByteOrder) -> (bytes: Vec<u8>)
        ensures
            bytes@ == line_info_bytes(*self, order),
            bytes@.len() == LINE_INFO_SIZE,
    {
        let mut bytes = Vec::new();
        put_u32(&mut bytes, self.line_offset, order);
        put_u32(&mut bytes, self.flags, order);
        put_bytes(&mut bytes, self.name.as_slice());
        put_bytes(&mut bytes, self.consumer.as_slice());
        assert(bytes@ =~= line_info_bytes(*self, order));
        bytes
    }

    /// Reads a record from the bytes that the kernel filled in: the record
    /// whose layout they are, where they have the size of the record.
    pub fn from_bytes(bytes: &[u8], order: ByteOrder) -> (r: Option<Self>)
        ensures
            r is Some <==> bytes@.len() == LINE_INFO_SIZE,
            r matches Some(record) ==> line_info_bytes(record, order) == bytes@,
    {
        if bytes.len() != LINE_INFO_SIZE {
            return None;
        }
        let record = gpioline_info {
            line_offset: get_u32(bytes, 0, order),
            flags: get_u32(bytes, 4, order),
            name: get_text(bytes, 8),
            consumer: get_text(bytes, 40),
        };
        proof {
            lemma_u32_bytes_of(bytes@.subrange(0, 4), order);
            lemma_u32_bytes_of(bytes@.subrange(4, 8), order);
            assert(line_info_bytes(record, order) =~= bytes@);
        }
        Some(record)
    }
}

impl gpiohandle_request {
    /// Lays the record out as the bytes that the kernel exchanges.
    pub fn to_bytes(&self, order: ByteOrder) -> (bytes: Vec<u8>)
        ensures
            bytes@ == handle_request_bytes(*self, order),
            bytes@.len() == HANDLE_REQUEST_SIZE,
    {
        let mut bytes = Vec::new();
        let mut i: usize = 0;
        while i < 64
            invariant
                i <= 64,
                bytes@ == u32s_bytes(self.lineoffsets@.take(i as int), order),
            decreases 64 - i,
        {
            put_u32(&mut bytes, self.lineoffsets[i], order);
            i += 1;
            assert(self.lineoffsets@.take(i as int).drop_last() =~= self.lineoffsets@.take(
                i - 1,
            ));
        }
        assert(self.lineoffsets@.take(64) =~= self.lineoffsets@);
        put_u32(&mut bytes, self.flags, order);
        put_bytes(&mut bytes, self.default_values.as_slice());
        put_bytes(&mut bytes, self.consumer_label.as_slice());
        put_u32(&mut bytes, self.lines, order);
        put_u32(&mut bytes, #[verifier::truncate] (self.fd as u32), order);
        proof {
            lemma_u32s_bytes_len(self.lineoffsets@, order);
            assert(bytes@ =~= handle_request_bytes(*self, order));
        }
        bytes
    }

    /// Reads a record from the bytes that the kernel filled in: the record
    /// whose layout they are, where they have the size of the record.
    pub fn from_bytes(bytes: &[u8], order: ByteOrder) -> (r: Option<Self>)
        ensures
            r is Some <==> bytes@.len() == HANDLE_REQUEST_SIZE,
            r matches Some(record) ==> handle_request_bytes(record, order) == bytes@,
    {
        if bytes.len() != HANDLE_REQUEST_SIZE {
            return None;
        }
        let mut lineoffsets = [0u32; 64];
        let mut i: usize = 0;
        while i < 64
            invariant
                i <= 64,
                bytes@.len() == 364,
                u32s_bytes(lineoffsets@.take(i as int), order) == bytes@.subrange(0, 4 * i),
            decreases 64 - i,
        {
            let ghost before = lineoffsets@;
            let v = get_u32(bytes, 4 * i, order);
            lineoffsets[i] = v;
            proof {
                lemma_u32_bytes_of(bytes@.subrange(4 * i, 4 * i + 4), order);
                assert(lineoffsets@.take(i + 1).drop_last() =~= before.take(i as int));
                assert(lineoffsets@.take(i + 1).last() == v);
                assert(bytes@.subrange(0, 4 * i) + bytes@.subrange(4 * i, 4 * i + 4)
                    =~= bytes@.subrange(0, 4 * (i + 1)));
            }
            i += 1;
        }
        let raw_fd = get_u32(bytes, 360, order);
        let record = gpiohandle_request {
            lineoffsets,
            flags: get_u32(bytes, 256, order),
            default_values: get_values(bytes, 260),
            consumer_label: get_text(bytes, 324),
            lines: get_u32(bytes, 356, order),
            fd: #[verifier::truncate] (raw_fd as i32),
        };
        proof {
            assert(lineoffsets@.take(64) =~= lineoffsets@);
            assert((raw_fd as i32) as u32 == raw_fd) by (bit_vector);
            lemma_u32_bytes_of(bytes@.subrange(256, 260), order);
            lemma_u32_bytes_of(bytes@.subrange(356, 360), order);
            lemma_u32_bytes_of(bytes@.subrange(360, 364), order);
            assert(handle_request_bytes(record, order) =~= bytes@);
        }
        Some(record)
    }
}

impl gpiohandle_data {
    /// Lays the record out as the bytes that the kernel exchanges.
    pub fn to_bytes(&self) -> (bytes: Vec<u8>)
        ensures
            bytes@ == handle_data_bytes(*self),
            bytes@.len() == HANDLE_DATA_SIZE,
    {
        let mut bytes = Vec::new();
        put_bytes(&mut bytes, self.values.as_slice());
        bytes
    }

    /// Reads a record from the bytes that the kernel filled in: the record
    /// whose layout they are, where they have the size of the record.
    pub fn from_bytes(bytes: &[u8]) -> (r: Option<Self>)
        ensures
            r is Some <==> bytes@.len() == HANDLE_DATA_SIZE,
            r matches Some(record) ==> handle_data_bytes(record) == bytes@,
    {
        if bytes.len() != HANDLE_DATA_SIZE {
            return None;
        }
        let record = gpiohandle_data { values: get_values(bytes, 0) };
        assert(record.values@ =~= bytes@);
        Some(record)
    }
}

} // verus!
