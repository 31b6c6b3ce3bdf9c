//! The records and numbers of the kernel's GPIO character device interface.
//!
//! Every record has a fixed size and field order; text fields are fixed
//! buffers of 32 bytes, and a line handle covers at most 64 lines.

use vstd::prelude::*;

verus! {

/// Maximum number of lines that one handle request can cover.
pub const GPIOHANDLES_MAX: usize = 64;

/// Size in bytes of every text field (name, label, consumer).
pub const GPIO_TEXT_MAX: usize = 32;

/// Size in bytes of a chip-info record.
pub const CHIP_INFO_SIZE: usize = 68;

/// Size in bytes of a line-info record.
pub const LINE_INFO_SIZE: usize = 72;

/// Size in bytes of a handle request.
pub const HANDLE_REQUEST_SIZE: usize = 364;

/// Size in bytes of an event request.
pub const EVENT_REQUEST_SIZE: usize = 48;

/// Size in bytes of a handle-data record.
pub const HANDLE_DATA_SIZE: usize = 64;

/// Size in bytes of a handle configuration.
pub const HANDLE_CONFIG_SIZE: usize = 84;

/* Informational flags of a line */

pub const GPIOLINE_FLAG_KERNEL: u32 = 0x01;

pub const GPIOLINE_FLAG_IS_OUT: u32 = 0x02;

pub const GPIOLINE_FLAG_ACTIVE_LOW: u32 = 0x04;

pub const GPIOLINE_FLAG_OPEN_DRAIN: u32 = 0x08;

pub const GPIOLINE_FLAG_OPEN_SOURCE: u32 = 0x10;

pub const GPIOLINE_FLAG_BIAS_PULL_UP: u32 = 0x20;

pub const GPIOLINE_FLAG_BIAS_PULL_DOWN: u32 = 0x40;

pub const GPIOLINE_FLAG_BIAS_DISABLE: u32 = 0x80;

/* Flags of a handle request */

pub const GPIOHANDLE_REQUEST_INPUT: u32 = 0x01;

pub const GPIOHANDLE_REQUEST_OUTPUT: u32 = 0x02;

pub const GPIOHANDLE_REQUEST_ACTIVE_LOW: u32 = 0x04;

pub const GPIOHANDLE_REQUEST_OPEN_DRAIN: u32 = 0x08;

pub const GPIOHANDLE_REQUEST_OPEN_SOURCE: u32 = 0x10;

pub const GPIOHANDLE_REQUEST_BIAS_PULL_UP: u32 = 0x20;

pub const GPIOHANDLE_REQUEST_BIAS_PULL_DOWN: u32 = 0x40;

pub const GPIOHANDLE_REQUEST_BIAS_DISABLE: u32 = 0x80;

/* Flags of an event request */

pub const GPIOEVENT_REQUEST_RISING_EDGE: u32 = 0x01;

pub const GPIOEVENT_REQUEST_FALLING_EDGE: u32 = 0x02;

pub const GPIOEVENT_REQUEST_BOTH_EDGES: u32 = 0x03;

/* Event types */

pub const GPIOEVENT_EVENT_RISING_EDGE: u32 = 0x01;

pub const GPIOEVENT_EVENT_FALLING_EDGE: u32 = 0x02;

/* Exchange numbers */

/// The magic byte shared by every GPIO exchange.
pub const GPIO_IOCTL_MAGIC: u8 = 0xB4;

pub const GPIO_GET_CHIPINFO_IOCTL: u8 = 0x01;

pub const GPIO_GET_LINEINFO_IOCTL: u8 = 0x02;

pub const GPIO_GET_LINEHANDLE_IOCTL: u8 = 0x03;

pub const GPIO_GET_LINEEVENT_IOCTL: u8 = 0x04;

pub const GPIOHANDLE_GET_LINE_VALUES_IOCTL: u8 = 0x08;

pub const GPIOHANDLE_SET_LINE_VALUES_IOCTL: u8 = 0x09;

pub const GPIOHANDLE_SET_CONFIG_IOCTL: u8 = 0x0a;

/// Information about a GPIO chip: 32 bytes of name, 32 bytes of label and the
/// number of lines.
#[allow(non_camel_case_types)]
#[derive(Clone, Copy, Debug, PartialEq, Eq)]
pub struct gpiochip_info {
    pub name: [u8; 32],
    pub label: [u8; 32],
    pub lines: u32,
}

/// Information about one GPIO line. The caller fills in `line_offset`; the
/// kernel fills in the rest.
#[allow(non_camel_case_types)]
#[derive(Clone, Copy, Debug, PartialEq, Eq)]
pub struct gpioline_info {
    pub line_offset: u32,
    pub flags: u32,
    pub name: [u8; 32],
    pub consumer: [u8; 32],
}

/// A request for a handle over `lines` lines, whose offsets are the first
/// `lines` entries of `lineoffsets`. On success the kernel stores the
/// descriptor of the new handle in `fd`.
#[allow(non_camel_case_types)]
#[derive(Clone, Copy, Debug, PartialEq, Eq)]
pub struct gpiohandle_request {
    pub lineoffsets: [u32; 64],
    pub flags: u32,
    pub default_values: [u8; 64],
    pub consumer_label: [u8; 32],
    pub lines: u32,
    pub fd: i32,
}

/// Configuration for a GPIO handle.
#[allow(non_camel_case_types)]
#[derive(Clone, Copy, Debug, PartialEq, Eq)]
pub struct gpiohandle_config {
    pub flags: u32,
    pub default_values: [u8; 64],
    pub padding: [u32; 4],
}

/// The values of the lines of a handle, one byte per line, in the order in
/// which the lines were requested.
#[allow(non_camel_case_types)]
#[derive(Clone, Copy, Debug, PartialEq, Eq)]
pub struct gpiohandle_data {
    pub values: [u8; 64],
}

/// A request for the events of one line.
#[allow(non_camel_case_types)]
#[derive(Clone, Copy, Debug, PartialEq, Eq)]
pub struct gpioevent_request {
    pub lineoffset: u32,
    pub handleflags: u32,
    pub eventflags: u32,
    pub consumer: [u8; 32],
    pub fd: i32,
}

/// An event as the kernel pushes it to user space.
#[allow(non_camel_case_types)]
#[derive(Clone, Copy, Debug, PartialEq, Eq)]
pub struct gpioevent_data {
    pub timestamp: u64,
    pub id: u32,
}

/// True where every element of `s` is zero.
pub open spec fn all_zero<T: Integer>(s: Seq<T>) -> bool {
    forall|i: int| 0 <= i < s.len() ==> #[trigger] s[i] as int == 0
}

impl gpiochip_info {
    /// The record with every byte zero, as it is handed to the kernel.
    pub fn zeroed() -> (r: Self)
        ensures
            all_zero(r.name@),
            all_zero(r.label@),
            r.lines == 0,
    {
        gpiochip_info { name: [0u8; 32], label: [0u8; 32], lines: 0 }
    }
}

impl gpioline_info {
    /// The record with every byte zero.
    pub fn zeroed() -> (r: Self)
        ensures
            r.line_offset == 0,
            r.flags == 0,
            all_zero(r.name@),
            all_zero(r.consumer@),
    {
        gpioline_info { line_offset: 0, flags: 0, name: [0u8; 32], consumer: [0u8; 32] }
    }
}

impl gpiohandle_request {
    /// The record with every byte zero.
    pub fn zeroed() -> (r: Self)
        ensures
            all_zero(r.lineoffsets@),
            r.flags == 0,
            all_zero(r.default_values@),
            all_zero(r.consumer_label@),
            r.lines == 0,
            r.fd == 0,
    {
        gpiohandle_request {
            lineoffsets: [0u32; 64],
            flags: 0,
            default_values: [0u8; 64],
            consumer_label: [0u8; 32],
            lines: 0,
            fd: 0,
        }
    }
}

impl gpiohandle_data {
    /// The record with every byte zero.
    pub fn zeroed() -> (r: Self)
        ensures
            all_zero(r.values@),
    {
        gpiohandle_data { values: [0u8; 64] }
    }
}

/// The direction in which an exchange moves its record.
#[derive(Clone, Copy, Debug, PartialEq, Eq, Structural)]
pub enum Direction {
    /// The kernel fills the record in.
    Read,
    /// The caller fills part of the record in, the kernel the rest.
    ReadWrite,
}

/// The exchanges of the GPIO character device.
#[derive(Clone, Copy, Debug, PartialEq, Eq, Structural)]
pub enum Exchange {
    /// Get the chip's information, on the chip's descriptor.
    GetChipInfo,
    /// Get one line's information, on the chip's descriptor.
    GetLineInfo,
    /// Get a handle over a set of lines, on the chip's descriptor.
    GetLineHandle,
    /// Get the events of one line, on the chip's descriptor.
    GetLineEvent,
    /// Get the values of a handle's lines, on the handle's descriptor.
    GetLineValues,
    /// Set the values of a handle's lines, on the handle's descriptor.
    SetLineValues,
    /// Set the configuration of a handle, on the handle's descriptor.
    SetConfig,
}

impl Exchange {
    /// The number of the exchange under the magic byte.
    pub open spec fn spec_code(self) -> u8 {
        match self {
            Exchange::GetChipInfo => 0x01,
            Exchange::GetLineInfo => 0x02,
            Exchange::GetLineHandle => 0x03,
            Exchange::GetLineEvent => 0x04,
            Exchange::GetLineValues => 0x08,
            Exchange::SetLineValues => 0x09,
            Exchange::SetConfig => 0x0a,
        }
    }

    /// The direction of the exchange: only the chip's information is filled
    /// in by the kernel alone.
    pub open spec fn spec_direction(self) -> Direction {
        match self {
            Exchange::GetChipInfo => Direction::Read,
            _ => Direction::ReadWrite,
        }
    }

    /// The size in bytes of the record of the exchange: the sizes of its
    /// fields in their order, none of which needs padding.
    pub open spec fn spec_record_size(self) -> nat {
        match self {
            // name, label, lines
            Exchange::GetChipInfo => 32 + 32 + 4,
            // line_offset, flags, name, consumer
            Exchange::GetLineInfo => 4 + 4 + 32 + 32,
            // lineoffsets, flags, default_values, consumer_label, lines, fd
            Exchange::GetLineHandle => 64 * 4 + 4 + 64 + 32 + 4 + 4,
            // lineoffset, handleflags, eventflags, consumer, fd
            Exchange::GetLineEvent => 4 + 4 + 4 + 32 + 4,
            // values
            Exchange::GetLineValues => 64,
            Exchange::SetLineValues => 64,
            // flags, default_values, padding
            Exchange::SetConfig => 4 + 64 + 4 * 4,
        }
    }

    /// The number of the exchange under the magic byte.
    pub fn code(&self) -> (r: u8)
        ensures
            r == self.spec_code(),
    {
        match self {
            Exchange::GetChipInfo => GPIO_GET_CHIPINFO_IOCTL,
            Exchange::GetLineInfo => GPIO_GET_LINEINFO_IOCTL,
            Exchange::GetLineHandle => GPIO_GET_LINEHANDLE_IOCTL,
            Exchange::GetLineEvent => GPIO_GET_LINEEVENT_IOCTL,
            Exchange::GetLineValues => GPIOHANDLE_GET_LINE_VALUES_IOCTL,
            Exchange::SetLineValues => GPIOHANDLE_SET_LINE_VALUES_IOCTL,
            Exchange::SetConfig => GPIOHANDLE_SET_CONFIG_IOCTL,
        }
    }

    /// The direction of the exchange.
    pub fn direction(&self) -> (r: Direction)
        ensures
            r == self.spec_direction(),
    {
        match self {
            Exchange::GetChipInfo => Direction::Read,
            _ => Direction::ReadWrite,
        }
    }

    /// The size in bytes of the record of the exchange.
    pub fn record_size(&self) -> (r: usize)
        ensures
            r == self.spec_record_size(),
    {
        match self {
            Exchange::GetChipInfo => CHIP_INFO_SIZE,
            Exchange::GetLineInfo => LINE_INFO_SIZE,
            Exchange::GetLineHandle => HANDLE_REQUEST_SIZE,
            Exchange::GetLineEvent => EVENT_REQUEST_SIZE,
            Exchange::GetLineValues => HANDLE_DATA_SIZE,
            Exchange::SetLineValues => HANDLE_DATA_SIZE,
            Exchange::SetConfig => HANDLE_CONFIG_SIZE,
        }
    }
}

/// An exchange that is to be made with the kernel: the descriptor to make it
/// on, which exchange it is, and the record to hand over. The kernel fills
/// the record in, or refuses with an error number.
#[derive(Debug, PartialEq, Eq)]
pub struct Request<R> {
    pub fd: i32,
    pub exchange: Exchange,
    pub record: R,
}

/// No two exchanges share a number.
pub proof fn lemma_exchange_codes_distinct(a: Exchange, b: Exchange)
    requires
        a != b,
    ensures
        a.spec_code() != b.spec_code(),
{
}

} // verus!
