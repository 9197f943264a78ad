//! What can go wrong between two units.

use vstd::prelude::*;

verus! {

/// The kinds of failure that the networking layers report.
#[derive(Debug, PartialEq, Eq, Clone, Copy, Structural)]
pub enum NetworkError {
    /// The serial link failed to send or to receive.
    HardwareFault,
    /// A checksum that was computed over received bytes differs from
    /// the one that came with them.
    ChecksumMismatch,
    /// A flit of one type stood where another type was required, or a
    /// flit carried the wrong sequence number.
    UnexpectedFlitType,
    /// The header byte of a head flit names no header.
    UnknownHeader,
    /// A packet ended before the number of flits that its head flit
    /// declares.
    TruncatedPacket,
    /// No acknowledgement or no flit arrived within the number of polls
    /// that the sender or receiver allows.
    AckTimeout,
    /// Listening for coordinates took more polls than one cycle allows.
    BootstrapTimeout,
    /// What the neighbours reported cannot be read, or cannot all be
    /// true at once.
    BootstrapInconsistent,
    /// A position lies outside the 4x4 grid.
    GridOutOfBounds,
}

impl NetworkError {
    /// A short description for logs and displays.
    pub fn message(&self) -> (r: &'static str)
        ensures
            r@ == self.spec_message(),
    {
        match self {
            NetworkError::HardwareFault => "serial link failure",
            NetworkError::ChecksumMismatch => "checksum is not correct",
            NetworkError::UnexpectedFlitType => "unexpected flit type or flit id",
            NetworkError::UnknownHeader => "unknown header",
            NetworkError::TruncatedPacket => "the length of flits is not enough",
            NetworkError::AckTimeout => "ack timeout",
            NetworkError::BootstrapTimeout => "no coordinate was confirmed in time",
            NetworkError::BootstrapInconsistent => "confirmed coordinates contradict each other",
            NetworkError::GridOutOfBounds => "not 4 * 4 network",
        }
    }

    pub open spec fn spec_message(&self) -> Seq<char> {
        match self {
            NetworkError::HardwareFault => "serial link failure"@,
            NetworkError::ChecksumMismatch => "checksum is not correct"@,
            NetworkError::UnexpectedFlitType => "unexpected flit type or flit id"@,
            NetworkError::UnknownHeader => "unknown header"@,
            NetworkError::TruncatedPacket => "the length of flits is not enough"@,
            NetworkError::AckTimeout => "ack timeout"@,
            NetworkError::BootstrapTimeout => "no coordinate was confirmed in time"@,
            NetworkError::BootstrapInconsistent => "confirmed coordinates contradict each other"@,
            NetworkError::GridOutOfBounds => "not 4 * 4 network"@,
        }
    }
}

} // verus!
