//! A handle over a set of lines that were requested for reading.

use crate::error::Error;
use crate::uapi::{all_zero, gpiohandle_data, gpiohandle_request, Exchange, Request};
use nix::errno::Errno;
use vstd::prelude::*;
use vstd::slice::{slice_subrange, slice_to_vec};

verus! {

/// A set of lines that can be used simultaneously.
#[derive(Debug)]
pub struct Lines {
    h: gpiohandle_request,
}

/// What a `Lines` holds: the descriptor of the handle that the kernel
/// granted, and the offsets of its lines in the order of the request.
pub struct LinesView {
    pub fd: i32,
    pub offsets: Seq<u32>,
}

/// The values that a get-values record holds for a handle of `lines` lines:
/// its first `lines` bytes, one for each line in the order of the request.
pub open spec fn values_of(data: gpiohandle_data, lines: nat) -> Seq<u8> {
    data.values@.take(lines as int)
}

impl View for Lines {
    type V = LinesView;

    closed spec fn view(&self) -> LinesView {
        LinesView { fd: self.h.fd, offsets: self.h.lineoffsets@.take(self.h.lines as int) }
    }
}

impl Lines {
    #[verifier::type_invariant]
    spec fn well_formed(self) -> bool {
        self.h.lines <= 64
    }

    /// The handle that the kernel granted for `request`, with the
    /// descriptor `fd` that it stored in the record.
    pub(crate) fn granted(request: gpiohandle_request, fd: i32) -> (handle: Lines)
        requires
            request.lines <= 64,
        ensures
            handle@.fd == fd,
            handle@.offsets == request.lineoffsets@.take(request.lines as int),
    {
        let mut h = request;
        h.fd = fd;
        Lines { h }
    }

    /// Return the descriptor of the handle, on which its exchanges are made.
    pub fn fd(&self) -> (r: i32)
        ensures
            r == self@.fd,
    {
        self.h.fd
    }

    /// Return the number of lines of the handle.
    pub fn len(&self) -> (r: usize)
        ensures
            r == self@.offsets.len(),
            r <= 64,
    {
        proof {
            use_type_invariant(self);
        }
        self.h.lines as usize
    }

    /// The get-values exchange to make, on the handle's own descriptor: a
    /// record of zeros for the kernel to fill in.
    pub fn read_request(&self) -> (request: Request<gpiohandle_data>)
        ensures
            request.fd == self@.fd,
            request.exchange == Exchange::GetLineValues,
            all_zero(request.record.values@),
    {
        Request {
            fd: self.h.fd,
            exchange: Exchange::GetLineValues,
            record: gpiohandle_data::zeroed(),
        }
    }

    /// Return the values of the lines, one for each line and in the order
    /// in which the lines were requested, from the outcome of the get-values
    /// exchange on the handle's descriptor: the record that the kernel
    /// filled in, or the error with which it refused.
    pub fn read(&self, outcome: Result<gpiohandle_data, Errno>) -> (r: Result<Vec<u8>, Error>)
        ensures
            match outcome {
                Ok(data) => r matches Ok(values) && values@ == values_of(
                    data,
                    self@.offsets.len(),
                ),
                Err(errno) => r matches Err(e) && e == Error::IoctlError(errno),
            },
    {
        match outcome {
            Ok(data) => {
                let n = self.len();
                let values = slice_to_vec(slice_subrange(data.values.as_slice(), 0, n));
                assert(values@ =~= values_of(data, n as nat));
                Ok(values)
            },
            Err(errno) => Err(Error::from(errno)),
        }
    }
}

/// Reading a handle of `lines` lines gives exactly `lines` values, value `i`
/// being the one that the kernel stored for line `i` of the request; where
/// the kernel stored 0 or 1 for each line, each value is 0 or 1.
pub proof fn lemma_values_in_request_order(data: gpiohandle_data, lines: nat)
    requires
        lines <= 64,
    ensures
        values_of(data, lines).len() == lines,
        forall|i: int| 0 <= i < lines ==> values_of(data, lines)[i] == data.values@[i],
        (forall|i: int| 0 <= i < lines ==> data.values@[i] <= 1) ==> (forall|i: int|
            0 <= i < lines ==> values_of(data, lines)[i] == 0 || values_of(data, lines)[i] == 1),
{
}

} // verus!
