//! The printer's status replies, and the decisions of the USB transport:
//! which device and endpoints to bind, when a write succeeded, and when a
//! status read is retried.

use vstd::prelude::*;

use crate::error::{Error, PrinterError};
use crate::media::{spec_media_from_codes, Media};
use crate::model::{str_eq, Model};
use rusb::Error as LibusbError;

verus! {

/// USB vendor id of Brother Industries.
pub const VENDOR_ID: u16 = 0x04F9;

/// Size of a status reply in bytes.
pub const STATUS_LEN: usize = 32;

/// How many status reads are made before the driver gives up.
pub const STATUS_READ_ATTEMPTS: u32 = 10;

/// Kind of a status reply (byte 18).
#[derive(Debug, Clone, Copy, PartialEq, Eq, Structural)]
pub enum StatusType {
    ReplyToRequest,
    Completed,
    Error,
    Offline,
    Notification,
    PhaseChange,
    Unknown,
}

impl StatusType {
    pub open spec fn spec_from_code(code: u8) -> StatusType {
        match code {
            0x00 => StatusType::ReplyToRequest,
            0x01 => StatusType::Completed,
            0x02 => StatusType::Error,
            0x04 => StatusType::Offline,
            0x05 => StatusType::Notification,
            0x06 => StatusType::PhaseChange,
            _ => StatusType::Unknown,
        }
    }

    /// Decodes the status type; unknown codes give `Unknown`.
    pub fn from_code(code: u8) -> (r: StatusType)
        ensures
            r == StatusType::spec_from_code(code),
    {
        match code {
            0x00 => Self::ReplyToRequest,
            0x01 => Self::Completed,
            0x02 => Self::Error,
            0x04 => Self::Offline,
            0x05 => Self::Notification,
            0x06 => Self::PhaseChange,
            _ => Self::Unknown,
        }
    }
}

/// The printer's phase (byte 19).
#[derive(Debug, Clone, Copy, PartialEq, Eq, Structural)]
pub enum Phase {
    Receiving,
    Printing,
    Waiting(u16),
}

impl Phase {
    pub open spec fn spec_from_code(code: u8) -> Phase {
        match code {
            0x00 => Phase::Receiving,
            0x01 => Phase::Printing,
            _ => Phase::Waiting(0),
        }
    }

    /// Decodes the phase of a status reply; other codes give `Waiting(0)`.
    pub fn from_buf(buf: [u8; 32]) -> (r: Phase)
        ensures
            r == Phase::spec_from_code(buf@[19]),
    {
        match buf[19] {
            0x00 => Self::Receiving,
            0x01 => Self::Printing,
            _ => Self::Waiting(0),
        }
    }
}

/// Cooling notification of a status reply (byte 22).
#[derive(Debug, Clone, Copy, PartialEq, Eq, Structural)]
pub enum Notification {
    NotAvailable,
    CoolingStarted,
    CoolingFinished,
}

impl Notification {
    pub open spec fn spec_from_code(code: u8) -> Notification {
        match code {
            0x03 => Notification::CoolingStarted,
            0x04 => Notification::CoolingFinished,
            _ => Notification::NotAvailable,
        }
    }

    /// Decodes the notification; other codes give `NotAvailable`.
    pub fn from_code(code: u8) -> (r: Notification)
        ensures
            r == Notification::spec_from_code(code),
    {
        match code {
            0x03 => Self::CoolingStarted,
            0x04 => Self::CoolingFinished,
            _ => Self::NotAvailable,
        }
    }
}

/// A status reply of the printer.
#[derive(Debug, Clone, Copy, PartialEq, Eq, Structural)]
pub struct Status {
    /// The model, when byte 4 holds a known model code.
    pub model: Option<Model>,
    /// The error bits.
    pub error: PrinterError,
    /// The loaded media, when its codes are known.
    pub media: Option<Media>,
    /// The mode byte (byte 15).
    pub mode: u8,
    pub status_type: StatusType,
    pub phase: Phase,
    pub notification: Notification,
    /// Byte 14 of the reply.
    pub id: u8,
}

/// The status that a 32-byte reply stands for.
pub open spec fn spec_status(buf: Seq<u8>) -> Status {
    Status {
        model: Model::spec_from_code(buf[4]),
        error: PrinterError { info1: buf[8], info2: buf[9] },
        media: spec_media_from_codes(buf[11], buf[10], buf[17]),
        mode: buf[15],
        status_type: StatusType::spec_from_code(buf[18]),
        phase: Phase::spec_from_code(buf[19]),
        notification: Notification::spec_from_code(buf[22]),
        id: buf[14],
    }
}

impl Status {
    /// Decodes a status reply. Every reply decodes: unknown codes give the
    /// `Unknown`, `Waiting`, `NotAvailable` or `None` values.
    pub fn from_buf(buf: [u8; 32]) -> (s: Self)
        ensures
            s == spec_status(buf@),
    {
        Status {
            model: Model::try_from_code(buf[4]),
            error: PrinterError::from_buf(buf),
            media: Media::from_buf(buf),
            mode: buf[15],
            status_type: StatusType::from_code(buf[18]),
            phase: Phase::from_buf(buf),
            notification: Notification::from_code(buf[22]),
            id: buf[14],
        }
    }

    /// Succeeds when the reply reports `media` loaded, and fails with
    /// `InvalidMedia(media)` otherwise.
    pub fn check_media(self, media: Media) -> (r: Result<(), Error>)
        ensures
            r is Ok <==> self.media == Some(media),
            r is Err ==> r->Err_0 == Error::InvalidMedia(media),
    {
        match self.media {
            Some(m) => {
                if m == media {
                    Ok(())
                } else {
                    Err(Error::InvalidMedia(media))
                }
            },
            None => Err(Error::InvalidMedia(media)),
        }
    }
}

/// Direction of a USB endpoint.
#[derive(Debug, Clone, Copy, PartialEq, Eq, Structural)]
pub enum Direction {
    In,
    Out,
}

/// Transfer type of a USB endpoint.
#[derive(Debug, Clone, Copy, PartialEq, Eq, Structural)]
pub enum TransferType {
    Control,
    Isochronous,
    Bulk,
    Interrupt,
}

/// An endpoint as the device's descriptors list it.
#[derive(Debug, Clone, Copy, PartialEq, Eq, Structural)]
pub struct EndpointInfo {
    pub config: u8,
    pub iface: u8,
    pub setting: u8,
    pub address: u8,
    pub direction: Direction,
    pub transfer_type: TransferType,
}

/// An endpoint the driver talks through.
#[derive(Debug, Clone, Copy, PartialEq, Eq, Structural)]
pub struct Endpoint {
    pub config: u8,
    pub iface: u8,
    pub setting: u8,
    pub address: u8,
}

impl EndpointInfo {
    pub open spec fn is(self, direction: Direction, transfer_type: TransferType) -> bool {
        self.direction == direction && self.transfer_type == transfer_type
    }

    pub open spec fn spec_endpoint(self) -> Endpoint {
        Endpoint {
            config: self.config,
            iface: self.iface,
            setting: self.setting,
            address: self.address,
        }
    }
}

/// The first endpoint of `endpoints` (in descriptor order) with the given
/// direction and transfer type.
pub open spec fn spec_first_endpoint(
    endpoints: Seq<EndpointInfo>,
    direction: Direction,
    transfer_type: TransferType,
) -> Option<Endpoint>
    decreases endpoints.len(),
{
    if endpoints.len() == 0 {
        None
    } else if endpoints[0].is(direction, transfer_type) {
        Some(endpoints[0].spec_endpoint())
    } else {
        spec_first_endpoint(endpoints.drop_first(), direction, transfer_type)
    }
}

/// Finds the first endpoint with the given direction and transfer type.
pub fn find_endpoint(
    endpoints: &Vec<EndpointInfo>,
    direction: Direction,
    transfer_type: TransferType,
) -> (r: Option<Endpoint>)
    ensures
        r == spec_first_endpoint(endpoints@, direction, transfer_type),
{
    let mut i: usize = 0;
    assert(endpoints@.skip(0) =~= endpoints@);
    while i < endpoints.len()
        invariant
            i <= endpoints@.len(),
            spec_first_endpoint(endpoints@, direction, transfer_type) == spec_first_endpoint(
                endpoints@.skip(i as int),
                direction,
                transfer_type,
            ),
        decreases endpoints@.len() - i,
    {
        let e = endpoints[i];
        proof {
            assert(endpoints@.skip(i as int)[0] == e);
            assert(endpoints@.skip(i as int).drop_first() =~= endpoints@.skip(i + 1));
        }
        if e.direction == direction && e.transfer_type == transfer_type {
            return Some(Endpoint { config: e.config, iface: e.iface, setting: e.setting, address: e.address });
        }
        i = i + 1;
    }
    proof {
        assert(endpoints@.skip(i as int) =~= Seq::<EndpointInfo>::empty());
    }
    None
}

/// The bulk endpoints in and out that the driver binds, or
/// `MissingEndpoint` when the device lacks one of them.
pub fn locate_endpoints(endpoints: &Vec<EndpointInfo>) -> (r: Result<(Endpoint, Endpoint), Error>)
    ensures
        match (
            spec_first_endpoint(endpoints@, Direction::In, TransferType::Bulk),
            spec_first_endpoint(endpoints@, Direction::Out, TransferType::Bulk),
        ) {
            (Some(i), Some(o)) => r == Ok::<(Endpoint, Endpoint), Error>((i, o)),
            _ => r is Err && r->Err_0 is MissingEndpoint,
        },
{
    let endpoint_in = match find_endpoint(endpoints, Direction::In, TransferType::Bulk) {
        Some(endpoint) => endpoint,
        None => return Err(Error::MissingEndpoint),
    };
    let endpoint_out = match find_endpoint(endpoints, Direction::Out, TransferType::Bulk) {
        Some(endpoint) => endpoint,
        None => return Err(Error::MissingEndpoint),
    };
    Ok((endpoint_in, endpoint_out))
}

/// True when a device with these ids may be the printer of `model`.
pub fn is_candidate(model: Model, vendor_id: u16, product_id: u16) -> (r: bool)
    ensures
        r == (vendor_id == VENDOR_ID && product_id == model.spec_pid()),
{
    vendor_id == VENDOR_ID && product_id == model.pid()
}

/// True when the serial number read from a device is the one asked for.
pub fn serial_matches(found: &str, wanted: &str) -> (r: bool)
    ensures
        r == (found@ == wanted@),
{
    str_eq(found, wanted)
}

/// Outcome of a bulk write of `len` bytes: the count when the device took
/// the whole buffer, `InvalidResponse` with the count when it took less,
/// the USB error when the transfer failed.
pub fn check_written(len: usize, result: Result<usize, LibusbError>) -> (r: Result<usize, Error>)
    ensures
        match result {
            Ok(n) => if n == len {
                r == Ok::<usize, Error>(len)
            } else {
                r is Err && r->Err_0 == Error::InvalidResponse(n)
            },
            Err(e) => r is Err && r->Err_0 == Error::UsbError(e),
        },
{
    match result {
        Ok(n) => {
            if n == len {
                Ok(n)
            } else {
                Err(Error::InvalidResponse(n))
            }
        },
        Err(e) => Err(Error::UsbError(e)),
    }
}

/// What to do after a status read.
#[derive(Debug)]
pub enum PollStep {
    /// A reply in the receiving phase came.
    Done(Status),
    /// Wait a second and read again.
    Retry,
    /// Give up with this error.
    Failed(Error),
}

/// The retry loop of a status read: a read succeeds once a full reply in
/// the receiving phase comes; short replies and other phases are read again
/// up to `STATUS_READ_ATTEMPTS` reads in all; a USB error ends it at once.
pub struct StatusPoll {
    attempts: u32,
}

impl StatusPoll {
    /// Reads made so far that did not end the loop.
    pub closed spec fn spec_attempts(&self) -> u32 {
        self.attempts
    }

    /// A loop that has made no read yet.
    pub fn new() -> (r: Self)
        ensures
            r.spec_attempts() == 0,
    {
        StatusPoll { attempts: 0 }
    }

    /// Takes the outcome of one read: the number of bytes read, or the USB
    /// error, and the buffer read into.
    pub fn on_read(&mut self, read: Result<usize, LibusbError>, buf: [u8; 32]) -> (step: PollStep)
        ensures
            match read {
                Err(e) => step is Failed && step->Failed_0 == Error::UsbError(e) && final(self).spec_attempts() == old(self).spec_attempts(),
                Ok(n) => if old(self).spec_attempts() < STATUS_READ_ATTEMPTS && n == STATUS_LEN && spec_status(buf@).phase == Phase::Receiving {
                    step == PollStep::Done(spec_status(buf@)) && final(self).spec_attempts() == old(self).spec_attempts()
                } else if old(self).spec_attempts() + 1 < STATUS_READ_ATTEMPTS {
                    step is Retry && final(self).spec_attempts() == old(self).spec_attempts() + 1
                } else {
                    step is Failed && step->Failed_0 is ReadStatusTimeout && final(self).spec_attempts() == STATUS_READ_ATTEMPTS
                },
            },
    {
        match read {
            Err(e) => PollStep::Failed(Error::UsbError(e)),
            Ok(n) => {
                if self.attempts < STATUS_READ_ATTEMPTS && n == STATUS_LEN {
                    let status = Status::from_buf(buf);
                    if status.phase == Phase::Receiving {
                        return PollStep::Done(status);
                    }
                }
                if self.attempts < STATUS_READ_ATTEMPTS - 1 {
                    self.attempts = self.attempts + 1;
                    PollStep::Retry
                } else {
                    self.attempts = STATUS_READ_ATTEMPTS;
                    PollStep::Failed(Error::ReadStatusTimeout)
                }
            },
        }
    }
}

} // verus!
