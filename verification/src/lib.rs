//! User-space access to the Linux GPIO character device.
//!
//! The library holds everything that is decided or computed when talking to a
//! GPIO chip: the records exchanged with the kernel and their layout as
//! bytes, the requests to hand to the kernel, and the decoding of what it
//! hands back. The kernel exchange itself is performed by the caller.
//!
//! Every operation has two halves. The first gives the exchange to make: the
//! descriptor, the exchange and the record (`Chip::info_request`,
//! `Chip::line_info_request`, `Chip::reading_lines_request`,
//! `Lines::read_request`). The second takes the outcome of the exchange, the
//! record that the kernel filled in or the error with which it refused, and
//! gives the result of the operation (`Chip::new`, `Chip::line_info`,
//! `Chip::request_reading_lines`, `Lines::read`).

pub mod chip;
pub mod error;
pub mod layout;
pub mod line_info;
pub mod lines;
pub mod text;
pub mod uapi;

pub use chip::Chip;
pub use error::Error;
pub use line_info::LineInfo;
pub use lines::Lines;
