//! The buffered snapshot of the embedded controller's address space.
//!
//! The daemon reads the whole EC byte range into this buffer before a
//! status cycle and serves every address lookup from it. A lookup past the
//! end of the buffer (never refreshed, or a truncated read) is a defined
//! no-op that returns zero: availability is preferred over strictness.
//!
//! Opening the device, seeking, and the raw reads and writes are I/O and
//! live with the caller; it hands the freshly read bytes to [`EcWriter::refresh`]
//! and performs the write effects the router returns.

use vstd::prelude::*;
use vstd::string::*;

verus! {

/// Failures of the EC channel, as reported at daemon startup.
#[derive(Debug)]
pub enum EcError {
    /// Neither kernel interface could be opened: fatal for startup.
    NoDevice,
    /// An I/O failure, with the underlying error's text.
    Io(String),
    /// A lookup was attempted before any snapshot was read.
    EmptyBuffer,
}

impl EcError {
    pub open spec fn spec_message(self) -> Seq<char> {
        match self {
            EcError::NoDevice => "failed to open any EC device file"@,
            EcError::Io(e) => "EC I/O error: "@ + e@,
            EcError::EmptyBuffer => "empty EC buffer - call refresh() first"@,
        }
    }

    /// A diagnostic line describing the failure.
    pub fn message(&self) -> (r: String)
        ensures
            r@ == self.spec_message(),
    {
        match self {
            EcError::NoDevice => String::from_str("failed to open any EC device file"),
            EcError::Io(e) => String::from_str("EC I/O error: ").concat(e.as_str()),
            EcError::EmptyBuffer => String::from_str("empty EC buffer - call refresh() first"),
        }
    }
}

/// The in-memory EC snapshot, addressed by register byte.
pub struct EcWriter {
    buffer: Vec<u8>,
}

impl View for EcWriter {
    type V = Seq<u8>;

    closed spec fn view(&self) -> Seq<u8> {
        self.buffer@
    }
}

/// The byte served for `address`: the buffered byte, or zero when the
/// buffer is shorter than `address + 1`.
pub open spec fn spec_ec_read(buf: Seq<u8>, address: u8) -> u8 {
    if (address as int) < buf.len() {
        buf[address as int]
    } else {
        0
    }
}

impl EcWriter {
    /// A channel with no snapshot yet: every read returns zero.
    pub fn new() -> (r: Self)
        ensures
            r@ == Seq::<u8>::empty(),
    {
        EcWriter { buffer: Vec::new() }
    }

    /// Replace the snapshot with freshly read bytes.
    pub fn refresh(&mut self, data: Vec<u8>)
        ensures
            final(self)@ == data@,
    {
        self.buffer = data;
    }

    /// Serve one address from the snapshot. An address beyond the buffer
    /// returns zero and never fails.
    pub fn read(&self, address: u8) -> (r: u8)
        ensures
            r == spec_ec_read(self@, address),
    {
        if (address as usize) < self.buffer.len() {
            self.buffer[address as usize]
        } else {
            0
        }
    }
}

} // verus!
