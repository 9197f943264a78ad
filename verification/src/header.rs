//! The header byte of a packet.

use vstd::prelude::*;
use crate::error::NetworkError;

verus! {

/// What a packet is for. The names that begin with `H` belong to
/// packets that consist of a head flit alone.
#[derive(Eq, PartialEq, Debug, Clone, Copy, Hash, Structural)]
pub enum Header {
    /// Application payload.
    Data,
    /// Acknowledgement between applications.
    GeneralAck,
    /// Error report between applications.
    Error,
    /// Probe for a neighbour in another local net.
    HCheckConnection,
    /// Asks every neighbour for the coordinates it knows.
    HRequestConfirmedCoordinate,
    /// Answers such a request.
    ConfirmCoordinate,
    SendParentId,
    ReceiveParentId,
    SendChildId,
    ReceiveChildId,
    /// Acknowledges, on the link, a head flit that asks for it.
    HAck,
}

impl Header {
    /// The byte that stands for the header on the wire.
    pub open spec fn code(self) -> u8 {
        match self {
            Header::Data => 0,
            Header::GeneralAck => 1,
            Header::Error => 2,
            Header::HCheckConnection => 3,
            Header::HRequestConfirmedCoordinate => 4,
            Header::ConfirmCoordinate => 5,
            Header::SendParentId => 6,
            Header::ReceiveParentId => 7,
            Header::SendChildId => 8,
            Header::ReceiveChildId => 9,
            Header::HAck => 10,
        }
    }

    /// The header that a byte stands for, if any.
    pub open spec fn of_code(code: u8) -> Option<Header> {
        if code == 0 {
            Some(Header::Data)
        } else if code == 1 {
            Some(Header::GeneralAck)
        } else if code == 2 {
            Some(Header::Error)
        } else if code == 3 {
            Some(Header::HCheckConnection)
        } else if code == 4 {
            Some(Header::HRequestConfirmedCoordinate)
        } else if code == 5 {
            Some(Header::ConfirmCoordinate)
        } else if code == 6 {
            Some(Header::SendParentId)
        } else if code == 7 {
            Some(Header::ReceiveParentId)
        } else if code == 8 {
            Some(Header::SendChildId)
        } else if code == 9 {
            Some(Header::ReceiveChildId)
        } else if code == 10 {
            Some(Header::HAck)
        } else {
            None
        }
    }

    /// A packet with such a header is one head flit and carries no
    /// payload.
    pub open spec fn spec_only_head(self) -> bool {
        self == Header::HAck || self == Header::HRequestConfirmedCoordinate || self
            == Header::HCheckConnection
    }

    /// The receiver of a head flit with such a header answers it with
    /// an acknowledgement, and the sender waits for that.
    pub open spec fn spec_require_ack(self) -> bool {
        !self.spec_only_head() && self != Header::ConfirmCoordinate
    }

    pub fn is_only_head(&self) -> (r: bool)
        ensures
            r == self.spec_only_head(),
    {
        match self {
            Header::Data
            | Header::GeneralAck
            | Header::SendParentId
            | Header::ReceiveParentId
            | Header::SendChildId
            | Header::ReceiveChildId
            | Header::ConfirmCoordinate
            | Header::Error => false,
            Header::HAck | Header::HRequestConfirmedCoordinate | Header::HCheckConnection => true,
        }
    }

    pub fn is_require_ack(&self) -> (r: bool)
        ensures
            r == self.spec_require_ack(),
    {
        match self {
            Header::Data
            | Header::GeneralAck
            | Header::SendParentId
            | Header::ReceiveParentId
            | Header::SendChildId
            | Header::ReceiveChildId
            | Header::Error => true,
            Header::HAck
            | Header::HRequestConfirmedCoordinate
            | Header::HCheckConnection
            | Header::ConfirmCoordinate => false,
        }
    }

    pub fn to_u8(self) -> (r: u8)
        ensures
            r == self.code(),
    {
        match self {
            Header::Data => 0,
            Header::GeneralAck => 1,
            Header::Error => 2,
            Header::HCheckConnection => 3,
            Header::HRequestConfirmedCoordinate => 4,
            Header::ConfirmCoordinate => 5,
            Header::SendParentId => 6,
            Header::ReceiveParentId => 7,
            Header::SendChildId => 8,
            Header::ReceiveChildId => 9,
            Header::HAck => 10,
        }
    }

    /// Reads a header byte. Bytes above 10 name no header.
    pub fn try_from_primitive(number: u8) -> (r: Result<Header, NetworkError>)
        ensures
            match Header::of_code(number) {
                Some(header) => r == Ok::<Header, NetworkError>(header),
                None => r == Err::<Header, NetworkError>(NetworkError::UnknownHeader),
            },
    {
        match number {
            0 => Ok(Header::Data),
            1 => Ok(Header::GeneralAck),
            2 => Ok(Header::Error),
            3 => Ok(Header::HCheckConnection),
            4 => Ok(Header::HRequestConfirmedCoordinate),
            5 => Ok(Header::ConfirmCoordinate),
            6 => Ok(Header::SendParentId),
            7 => Ok(Header::ReceiveParentId),
            8 => Ok(Header::SendChildId),
            9 => Ok(Header::ReceiveChildId),
            10 => Ok(Header::HAck),
            _ => Err(NetworkError::UnknownHeader),
        }
    }
}

/// Every header is read back from its own byte, and a byte that names
/// a header is that header's byte.
pub proof fn lemma_header_code_round_trip(header: Header, code: u8)
    ensures
        Header::of_code(header.code()) == Some(header),
        Header::of_code(code) is Some ==> Header::of_code(code).unwrap().code() == code,
{
}

} // verus!
