//! A snapshot of one line's metadata, and the decoding of its flags.

use crate::text::{decode_text, decoded_text};
use crate::uapi::{
    gpioline_info, GPIOLINE_FLAG_ACTIVE_LOW, GPIOLINE_FLAG_BIAS_DISABLE,
    GPIOLINE_FLAG_BIAS_PULL_DOWN, GPIOLINE_FLAG_BIAS_PULL_UP, GPIOLINE_FLAG_IS_OUT,
    GPIOLINE_FLAG_KERNEL, GPIOLINE_FLAG_OPEN_DRAIN, GPIOLINE_FLAG_OPEN_SOURCE,
};
use vstd::prelude::*;

verus! {

/// Information about a GPIO line, as it was when the line was queried.
#[derive(Debug)]
pub struct LineInfo {
    offset: u32,
    flags: u32,
    name: String,
    consumer: String,
}

/// What a `LineInfo` holds.
pub struct LineInfoView {
    pub offset: u32,
    pub flags: u32,
    pub name: Seq<char>,
    pub consumer: Seq<char>,
}

/// True where bit `bit` of `flags` is set.
pub open spec fn flag_bit(flags: u32, bit: u32) -> bool {
    (flags >> bit) & 1 == 1
}

/// What a line-info record says once its text fields are decoded.
pub open spec fn line_info_of(record: gpioline_info) -> LineInfoView {
    LineInfoView {
        offset: record.line_offset,
        flags: record.flags,
        name: decoded_text(record.name@),
        consumer: decoded_text(record.consumer@),
    }
}

impl View for LineInfo {
    type V = LineInfoView;

    closed spec fn view(&self) -> LineInfoView {
        LineInfoView {
            offset: self.offset,
            flags: self.flags,
            name: self.name@,
            consumer: self.consumer@,
        }
    }
}

impl LineInfo {
    /// Decodes a line-info record that the kernel has filled in.
    pub fn decode(record: &gpioline_info) -> (info: LineInfo)
        ensures
            info@ == line_info_of(*record),
    {
        LineInfo {
            offset: record.line_offset,
            flags: record.flags,
            name: decode_text(record.name.as_slice()),
            consumer: decode_text(record.consumer.as_slice()),
        }
    }

    /// Return the offset number of the line.
    pub fn offset(&self) -> (r: u32)
        ensures
            r == self@.offset,
    {
        self.offset
    }

    /// Return the flags of the line, as the kernel gave them.
    pub fn flags(&self) -> (r: u32)
        ensures
            r == self@.flags,
    {
        self.flags
    }

    /// Return the name of the line.
    pub fn name(&self) -> (r: &str)
        ensures
            r@ == self@.name,
    {
        self.name.as_str()
    }

    /// Return the consumer of the line.
    pub fn consumer(&self) -> (r: &str)
        ensures
            r@ == self@.consumer,
    {
        self.consumer.as_str()
    }

    /// Return true if the line is used by the kernel.
    pub fn is_kernel(&self) -> (r: bool)
        ensures
            r == flag_bit(self@.flags, 0),
    {
        let f = self.flags;
        assert((f & 0x01 == 0x01) == ((f >> 0u32) & 1 == 1)) by (bit_vector);
        f & GPIOLINE_FLAG_KERNEL == GPIOLINE_FLAG_KERNEL
    }

    /// Return true if the line is configured as an output.
    pub fn is_output(&self) -> (r: bool)
        ensures
            r == flag_bit(self@.flags, 1),
    {
        let f = self.flags;
        assert((f & 0x02 == 0x02) == ((f >> 1u32) & 1 == 1)) by (bit_vector);
        f & GPIOLINE_FLAG_IS_OUT == GPIOLINE_FLAG_IS_OUT
    }

    /// Return true if the line is configured as active low.
    pub fn is_active_low(&self) -> (r: bool)
        ensures
            r == flag_bit(self@.flags, 2),
    {
        let f = self.flags;
        assert((f & 0x04 == 0x04) == ((f >> 2u32) & 1 == 1)) by (bit_vector);
        f & GPIOLINE_FLAG_ACTIVE_LOW == GPIOLINE_FLAG_ACTIVE_LOW
    }

    /// Return true if the line is configured as open drain.
    pub fn is_open_drain(&self) -> (r: bool)
        ensures
            r == flag_bit(self@.flags, 3),
    {
        let f = self.flags;
        assert((f & 0x08 == 0x08) == ((f >> 3u32) & 1 == 1)) by (bit_vector);
        f & GPIOLINE_FLAG_OPEN_DRAIN == GPIOLINE_FLAG_OPEN_DRAIN
    }

    /// Return true if the line is configured as open source.
    pub fn is_open_source(&self) -> (r: bool)
        ensures
            r == flag_bit(self@.flags, 4),
    {
        let f = self.flags;
        assert((f & 0x10 == 0x10) == ((f >> 4u32) & 1 == 1)) by (bit_vector);
        f & GPIOLINE_FLAG_OPEN_SOURCE == GPIOLINE_FLAG_OPEN_SOURCE
    }

    /// Return true if the line is configured as bias pull up.
    pub fn is_bias_pull_up(&self) -> (r: bool)
        ensures
            r == flag_bit(self@.flags, 5),
    {
        let f = self.flags;
        assert((f & 0x20 == 0x20) == ((f >> 5u32) & 1 == 1)) by (bit_vector);
        f & GPIOLINE_FLAG_BIAS_PULL_UP == GPIOLINE_FLAG_BIAS_PULL_UP
    }

    /// Return true if the line is configured as bias pull down.
    pub fn is_bias_pull_down(&self) -> (r: bool)
        ensures
            r == flag_bit(self@.flags, 6),
    {
        let f = self.flags;
        assert((f & 0x40 == 0x40) == ((f >> 6u32) & 1 == 1)) by (bit_vector);
        f & GPIOLINE_FLAG_BIAS_PULL_DOWN == GPIOLINE_FLAG_BIAS_PULL_DOWN
    }

    /// Return true if the bias of the line is disabled.
    pub fn is_disable(&self) -> (r: bool)
        ensures
            r == flag_bit(self@.flags, 7),
    {
        let f = self.flags;
        assert((f & 0x80 == 0x80) == ((f >> 7u32) & 1 == 1)) by (bit_vector);
        f & GPIOLINE_FLAG_BIAS_DISABLE == GPIOLINE_FLAG_BIAS_DISABLE
    }
}

/// The eight flag bits are independent: in a flags value with the single bit
/// `set` set, bit `bit` is set exactly where `bit` is `set`.
pub proof fn lemma_single_flag(set: u32, bit: u32)
    requires
        set < 32,
        bit < 32,
    ensures
        flag_bit(1u32 << set, bit) == (bit == set),
{
    assert(set < 32 && bit < 32 ==> ((((1u32 << set) >> bit) & 1 == 1) == (bit == set)))
        by (bit_vector);
}

/// Setting or clearing one flag bit leaves every other bit as it was.
pub proof fn lemma_flags_independent(flags: u32, changed: u32, bit: u32)
    requires
        changed < 32,
        bit < 32,
        bit != changed,
    ensures
        flag_bit(flags | (1u32 << changed), bit) == flag_bit(flags, bit),
        flag_bit(flags & !(1u32 << changed), bit) == flag_bit(flags, bit),
        flag_bit(flags | (1u32 << changed), changed),
        !flag_bit(flags & !(1u32 << changed), changed),
{
    assert(changed < 32 && bit < 32 && bit != changed ==> ((((flags | (1u32 << changed)) >> bit)
        & 1 == 1) == ((flags >> bit) & 1 == 1))) by (bit_vector);
    assert(changed < 32 && bit < 32 && bit != changed ==> ((((flags & !(1u32 << changed)) >> bit)
        & 1 == 1) == ((flags >> bit) & 1 == 1))) by (bit_vector);
    assert(changed < 32 ==> (((flags | (1u32 << changed)) >> changed) & 1 == 1)) by (bit_vector);
    assert(changed < 32 ==> !(((flags & !(1u32 << changed)) >> changed) & 1 == 1))
        by (bit_vector);
}

} // verus!
