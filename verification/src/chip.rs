//! A GPIO chip: its identity, and the requests that are made on its
//! descriptor.

use crate::error::{errno_from_raw, errno_of, Error, EINVAL};
use crate::line_info::{line_info_of, LineInfo};
use crate::lines::{Lines, LinesView};
use crate::text::{decode_text, decoded_text, encode_label, label_buffer};
use crate::uapi::{
    all_zero, gpiochip_info, gpiohandle_request, gpioline_info, Exchange, Request,
    GPIOHANDLES_MAX, GPIOHANDLE_REQUEST_INPUT,
};
use nix::errno::Errno;
use vstd::prelude::*;
use vstd::utf8::encode_utf8;

verus! {

/// A GPIO chip controlling a set of lines.
#[derive(Debug)]
pub struct Chip {
    name: String,
    label: String,
    lines: u32,
    fd: i32,
}

/// What a `Chip` holds: the descriptor of the open device, and the identity
/// that the chip reported when it was opened.
pub struct ChipView {
    pub fd: i32,
    pub name: Seq<char>,
    pub label: Seq<char>,
    pub lines: u32,
}

/// The chip that a chip-info record describes, on the descriptor `fd`.
pub open spec fn chip_of(fd: i32, info: gpiochip_info) -> ChipView {
    ChipView {
        fd,
        name: decoded_text(info.name@),
        label: decoded_text(info.label@),
        lines: info.lines,
    }
}

/// True where `query` is the line-info record that asks for the line at
/// `offset`: the offset, and zero everywhere else.
pub open spec fn is_line_info_query(query: gpioline_info, offset: u32) -> bool {
    &&& query.line_offset == offset
    &&& query.flags == 0
    &&& all_zero(query.name@)
    &&& all_zero(query.consumer@)
}

/// True where `request` is the handle request that asks for the lines at
/// `offsets`, in that order, as inputs, for the consumer `consumer`.
pub open spec fn is_reading_request(
    request: gpiohandle_request,
    offsets: Seq<u32>,
    consumer: Seq<char>,
) -> bool {
    &&& offsets.len() <= 64
    &&& request.lines == offsets.len()
    &&& request.lineoffsets@.take(offsets.len() as int) == offsets
    &&& all_zero(request.lineoffsets@.skip(offsets.len() as int))
    &&& request.flags == GPIOHANDLE_REQUEST_INPUT
    &&& all_zero(request.default_values@)
    &&& request.consumer_label@ == label_buffer(encode_utf8(consumer))
    &&& request.fd == 0
}

/// What a request for the lines at `offsets` comes to, given the outcome of
/// the exchange: more than 64 lines are refused as a malformed request
/// whatever the kernel says; otherwise the kernel decides, and a grant gives
/// a handle on the descriptor that the kernel stored, over the lines in the
/// order in which they were asked for.
pub open spec fn reading_lines_outcome(
    offsets: Seq<u32>,
    outcome: Result<gpiohandle_request, Errno>,
) -> Result<LinesView, Error> {
    if offsets.len() > 64 {
        Err(Error::IoctlError(errno_of(EINVAL)))
    } else {
        match outcome {
            Ok(granted) => Ok(LinesView { fd: granted.fd, offsets }),
            Err(errno) => Err(Error::IoctlError(errno)),
        }
    }
}

impl View for Chip {
    type V = ChipView;

    closed spec fn view(&self) -> ChipView {
        ChipView { fd: self.fd, name: self.name@, label: self.label@, lines: self.lines }
    }
}

impl Chip {
    /// The chip-info exchange to make on the descriptor `fd` of a device
    /// that was just opened: a record of zeros for the kernel to fill in.
    pub fn info_request(fd: i32) -> (request: Request<gpiochip_info>)
        ensures
            request.fd == fd,
            request.exchange == Exchange::GetChipInfo,
            all_zero(request.record.name@),
            all_zero(request.record.label@),
            request.record.lines == 0,
    {
        Request { fd, exchange: Exchange::GetChipInfo, record: gpiochip_info::zeroed() }
    }

    /// Create a Chip from the descriptor of its open character device and
    /// the outcome of the chip-info exchange on it: the record that the
    /// kernel filled in, or the error with which it refused.
    pub fn new(fd: i32, outcome: Result<gpiochip_info, Errno>) -> (r: Result<Chip, Error>)
        ensures
            match outcome {
                Ok(info) => r matches Ok(chip) && chip@ == chip_of(fd, info),
                Err(errno) => r matches Err(e) && e == Error::IoctlError(errno),
            },
    {
        match outcome {
            Ok(info) => Ok(
                Chip {
                    name: decode_text(info.name.as_slice()),
                    label: decode_text(info.label.as_slice()),
                    lines: info.lines,
                    fd,
                },
            ),
            Err(errno) => Err(Error::from(errno)),
        }
    }

    /// Return the descriptor of the chip's device, on which the chip's
    /// exchanges are made.
    pub fn fd(&self) -> (r: i32)
        ensures
            r == self@.fd,
    {
        self.fd
    }

    /// Return the name of the chip.
    pub fn name(&self) -> (r: &str)
        ensures
            r@ == self@.name,
    {
        self.name.as_str()
    }

    /// Return the label of the chip.
    pub fn label(&self) -> (r: &str)
        ensures
            r@ == self@.label,
    {
        self.label.as_str()
    }

    /// Return the number of lines managed by the chip.
    pub fn lines(&self) -> (r: u32)
        ensures
            r == self@.lines,
    {
        self.lines
    }

    /// The line-info exchange to make for the line at `offset`, on the
    /// chip's descriptor. The offset is not held against the chip's number
    /// of lines: the kernel rejects one that is out of range.
    pub fn line_info_request(&self, offset: u32) -> (request: Request<gpioline_info>)
        ensures
            request.fd == self@.fd,
            request.exchange == Exchange::GetLineInfo,
            is_line_info_query(request.record, offset),
    {
        let mut record = gpioline_info::zeroed();
        record.line_offset = offset;
        Request { fd: self.fd, exchange: Exchange::GetLineInfo, record }
    }

    /// Return informations about the requested line, from the outcome of the
    /// line-info exchange: the record that the kernel filled in, or the
    /// error with which it refused.
    pub fn line_info(&self, outcome: Result<gpioline_info, Errno>) -> (r: Result<LineInfo, Error>)
        ensures
            match outcome {
                Ok(record) => r matches Ok(info) && info@ == line_info_of(record),
                Err(errno) => r matches Err(e) && e == Error::IoctlError(errno),
            },
    {
        match outcome {
            Ok(record) => Ok(LineInfo::decode(&record)),
            Err(errno) => Err(Error::from(errno)),
        }
    }

    /// The handle-request exchange to make on the chip's descriptor to get
    /// `lines` as inputs. More than 64 lines do not fit in a request and are
    /// refused with the error of a malformed request, "invalid argument".
    pub fn reading_lines_request(&self, lines: &[u32], consumer: &str) -> (r: Result<
        Request<gpiohandle_request>,
        Error,
    >)
        ensures
            lines@.len() <= 64 ==> (r matches Ok(request) && request.fd == self@.fd
                && request.exchange == Exchange::GetLineHandle && is_reading_request(
                request.record,
                lines@,
                consumer@,
            )),
            lines@.len() > 64 ==> (r matches Err(e) && e == Error::IoctlError(errno_of(EINVAL))),
    {
        if lines.len() > GPIOHANDLES_MAX {
            return Err(Error::from(errno_from_raw(EINVAL)));
        }
        let mut lineoffsets = [0u32; 64];
        let mut i: usize = 0;
        while i < lines.len()
            invariant
                i <= lines@.len() <= 64,
                forall|j: int| 0 <= j < i ==> lineoffsets@[j] == lines@[j],
                forall|j: int| i <= j < 64 ==> lineoffsets@[j] == 0,
            decreases lines@.len() - i,
        {
            lineoffsets[i] = lines[i];
            i += 1;
        }
        let record = gpiohandle_request {
            lineoffsets,
            flags: GPIOHANDLE_REQUEST_INPUT,
            default_values: [0u8; 64],
            consumer_label: encode_label(consumer),
            lines: lines.len() as u32,
            fd: 0,
        };
        assert(record.lineoffsets@.take(lines@.len() as int) =~= lines@);
        Ok(Request { fd: self.fd, exchange: Exchange::GetLineHandle, record })
    }

    /// Return a set of Lines for read, from the lines that were asked for
    /// and the outcome of the handle-request exchange: the record in which
    /// the kernel stored the descriptor of the new handle, or the error with
    /// which it refused.
    pub fn request_reading_lines(
        &self,
        lines: &[u32],
        consumer: &str,
        outcome: Result<gpiohandle_request, Errno>,
    ) -> (r: Result<Lines, Error>)
        ensures
            match r {
                Ok(handle) => reading_lines_outcome(lines@, outcome) == Ok::<LinesView, Error>(
                    handle@,
                ),
                Err(e) => reading_lines_outcome(lines@, outcome) == Err::<LinesView, Error>(e),
            },
    {
        match self.reading_lines_request(lines, consumer) {
            Err(e) => Err(e),
            Ok(request) => match outcome {
                Ok(granted) => Ok(Lines::granted(request.record, granted.fd)),
                Err(errno) => Err(Error::from(errno)),
            },
        }
    }
}

/// The line count of a chip is the one that the kernel reported when the
/// chip was opened, and the descriptor is the one that it was opened on.
pub proof fn lemma_chip_reports_lines(fd: i32, info: gpiochip_info)
    ensures
        chip_of(fd, info).lines == info.lines,
        chip_of(fd, info).lines >= 0,
        chip_of(fd, info).fd == fd,
{
}

/// Where the kernel leaves the offset of a line-info query in the record,
/// as it does for every offset that it accepts, the line information that
/// is decoded from the record carries the offset that was asked for.
pub proof fn lemma_line_info_offset(offset: u32, query: gpioline_info, reply: gpioline_info)
    requires
        is_line_info_query(query, offset),
        reply.line_offset == query.line_offset,
    ensures
        line_info_of(reply).offset == offset,
{
}

/// A request for more than 64 lines gives no handle: it fails as a kernel
/// exchange fails, whatever the outcome that is handed in.
pub proof fn lemma_too_many_lines(offsets: Seq<u32>, outcome: Result<gpiohandle_request, Errno>)
    requires
        offsets.len() > 64,
    ensures
        reading_lines_outcome(offsets, outcome) matches Err(e) && e is IoctlError,
{
}

/// The library holds no line back: a request for at most 64 lines succeeds
/// exactly where the kernel grants it, however often the same lines were
/// asked for before, and fails with the kernel's error where the kernel
/// refuses, as it does while another handle holds one of the lines.
pub proof fn lemma_kernel_decides(offsets: Seq<u32>, outcome: Result<gpiohandle_request, Errno>)
    requires
        offsets.len() <= 64,
    ensures
        reading_lines_outcome(offsets, outcome) is Ok <==> outcome is Ok,
        outcome matches Ok(granted) ==> reading_lines_outcome(offsets, outcome) == Ok::<
            LinesView,
            Error,
        >(LinesView { fd: granted.fd, offsets }),
        outcome matches Err(errno) ==> reading_lines_outcome(offsets, outcome) == Err::<
            LinesView,
            Error,
        >(Error::IoctlError(errno)),
{
}

/// A request for reading carries the offsets in the order in which they
/// were given: entry `i` of the record is offset `i`.
pub proof fn lemma_reading_request_order(
    request: gpiohandle_request,
    offsets: Seq<u32>,
    consumer: Seq<char>,
    i: int,
)
    requires
        is_reading_request(request, offsets, consumer),
        0 <= i < offsets.len(),
    ensures
        request.lineoffsets@[i] == offsets[i],
{
    assert(request.lineoffsets@.take(offsets.len() as int)[i] == offsets[i]);
}

} // verus!
