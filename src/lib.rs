//! Driver logic for Brother QL series thermal label printers.
//!
//! The library covers what the driver decides and encodes: the printer
//! models, the media catalogue and its validation, the decoding of the
//! printer's 32-byte status replies, the raster command frames of a print
//! job, the PackBits codec and the print job state machine. The USB
//! transfers themselves are made by the caller, which hands the results
//! back to the state machine.

pub mod error;
pub mod media;
pub mod model;
pub mod printer;
pub mod utils;

pub use crate::error::{Error, ErrorFlag, PrinterError};
pub use crate::media::{DieCut, Endless, Geometry, Media};
pub use crate::model::{str_eq, Model};
pub use crate::printer::{
    check_written, complement, find_endpoint, initialize, is_candidate, locate_endpoints, pack_bits,
    page_frame, preamble, serial_matches, status_request, unpack_bits, Action, AutoCut, Awaiting,
    Config, Direction, Endpoint, EndpointInfo, JobState, Notification, Phase, PollStep, PrintJob, Printer, Status, StatusPoll,
    StatusType, TransferType, STATUS_LEN, STATUS_READ_ATTEMPTS, VENDOR_ID,
};
pub use crate::utils::{step_filter, step_filter_normal, step_filter_wide};

use vstd::prelude::*;

verus! {

/// A monochrome bitmap: one row per raster line, eight pixels per byte.
pub type Matrix = Vec<Vec<u8>>;

/// Number of print head pins of the standard models.
pub const NORMAL_PRINTER_WIDTH: u32 = 720;

/// Number of print head pins of the wide models.
pub const WIDE_PRINTER_WIDTH: u32 = 1296;

/// The two print head widths of the family.
#[allow(non_camel_case_types)]
pub enum PRINTER_WIDTH {
    NORMAL,
    WIDE,
}

impl PRINTER_WIDTH {
    /// Number of pins of the head, as a spec value.
    pub open spec fn spec_pins(self) -> u32 {
        match self {
            PRINTER_WIDTH::NORMAL => NORMAL_PRINTER_WIDTH,
            PRINTER_WIDTH::WIDE => WIDE_PRINTER_WIDTH,
        }
    }

    /// Number of pins of the head.
    pub fn to_int(self) -> (r: u32)
        ensures
            r == self.spec_pins(),
    {
        match self {
            PRINTER_WIDTH::NORMAL => NORMAL_PRINTER_WIDTH,
            PRINTER_WIDTH::WIDE => WIDE_PRINTER_WIDTH,
        }
    }
}

} // verus!
