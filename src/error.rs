//! Errors of the driver, and the error bits of a status reply.

use vstd::prelude::*;

use crate::media::Media;
use rusb::Error as LibusbError;

verus! {

/// `rusb::Error`, the error of rusb's libusb calls: an opaque value that
/// the library only carries; nothing is assumed of it.
#[verifier::external_type_specification]
#[verifier::external_body]
pub struct ExLibusbError(LibusbError);

/// What can go wrong while driving a printer.
#[derive(Debug)]
pub enum Error {
    /// No device matches the model and serial number.
    DeviceOffline,
    /// The device lacks a bulk endpoint in one direction.
    MissingEndpoint,
    /// A USB transfer failed.
    UsbError(LibusbError),
    /// The device accepted only this many bytes of a write.
    InvalidResponse(usize),
    /// No status reply in the receiving phase came within the retries.
    ReadStatusTimeout,
    /// The loaded media is not the one the job was set up for, which is carried.
    InvalidMedia(Media),
    /// The configuration does not suit the media; the reason is carried.
    InvalidConfig(String),
}

/// One error condition that a status reply can flag.
#[derive(Debug, Clone, Copy, PartialEq, Eq, Structural)]
pub enum ErrorFlag {
    NoMedia,
    EndOfMedia,
    CutterJam,
    PrinterInUse,
    PrinterTurnedOff,
    HighVoltageAdapter,
    FanMotor,
    ReplaceMedia,
    ExpansionBufferFull,
    Communication,
    CommunicationBufferFull,
    CoverOpen,
    Overheating,
    BlackMarkingNotDetected,
    System,
}

impl ErrorFlag {
    /// Position of the flag in the 16 error bits: byte 8 of the reply
    /// gives bits 0 to 7, byte 9 bits 8 to 15.
    pub open spec fn spec_bit(self) -> u16 {
        match self {
            ErrorFlag::NoMedia => 0,
            ErrorFlag::EndOfMedia => 1,
            ErrorFlag::CutterJam => 2,
            ErrorFlag::PrinterInUse => 4,
            ErrorFlag::PrinterTurnedOff => 5,
            ErrorFlag::HighVoltageAdapter => 6,
            ErrorFlag::FanMotor => 7,
            ErrorFlag::ReplaceMedia => 8,
            ErrorFlag::ExpansionBufferFull => 9,
            ErrorFlag::Communication => 10,
            ErrorFlag::CommunicationBufferFull => 11,
            ErrorFlag::CoverOpen => 12,
            ErrorFlag::Overheating => 13,
            ErrorFlag::BlackMarkingNotDetected => 14,
            ErrorFlag::System => 15,
        }
    }

    /// Position of the flag in the 16 error bits.
    pub fn bit(&self) -> (r: u16)
        ensures
            r == self.spec_bit(),
    {
        match self {
            ErrorFlag::NoMedia => 0,
            ErrorFlag::EndOfMedia => 1,
            ErrorFlag::CutterJam => 2,
            ErrorFlag::PrinterInUse => 4,
            ErrorFlag::PrinterTurnedOff => 5,
            ErrorFlag::HighVoltageAdapter => 6,
            ErrorFlag::FanMotor => 7,
            ErrorFlag::ReplaceMedia => 8,
            ErrorFlag::ExpansionBufferFull => 9,
            ErrorFlag::Communication => 10,
            ErrorFlag::CommunicationBufferFull => 11,
            ErrorFlag::CoverOpen => 12,
            ErrorFlag::Overheating => 13,
            ErrorFlag::BlackMarkingNotDetected => 14,
            ErrorFlag::System => 15,
        }
    }
}

/// The error bits of a status reply (bytes 8 and 9).
#[derive(Debug, Clone, Copy, PartialEq, Eq, Structural)]
pub struct PrinterError {
    /// Error information 1, byte 8 of the reply.
    pub info1: u8,
    /// Error information 2, byte 9 of the reply.
    pub info2: u8,
}

impl PrinterError {
    /// The 16 error bits, byte 8 low and byte 9 high.
    pub open spec fn spec_bits(self) -> u16 {
        (self.info1 as u16) | ((self.info2 as u16) << 8u16)
    }

    /// Reads the error bytes of a status reply.
    pub fn from_buf(buf: [u8; 32]) -> (r: Self)
        ensures
            r.info1 == buf@[8],
            r.info2 == buf@[9],
    {
        PrinterError { info1: buf[8], info2: buf[9] }
    }

    /// The 16 error bits.
    pub fn bits(&self) -> (r: u16)
        ensures
            r == self.spec_bits(),
    {
        (self.info1 as u16) | ((self.info2 as u16) << 8u16)
    }

    /// True when the reply flags `flag`.
    pub fn has(&self, flag: ErrorFlag) -> (r: bool)
        ensures
            r == ((self.spec_bits() >> flag.spec_bit()) & 1u16 == 1u16),
    {
        (self.bits() >> flag.bit()) & 1u16 == 1u16
    }

    /// True when the reply flags no error at all.
    pub fn is_clear(&self) -> (r: bool)
        ensures
            r == (self.info1 == 0 && self.info2 == 0),
    {
        self.info1 == 0 && self.info2 == 0
    }
}

} // verus!
