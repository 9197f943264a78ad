//! What goes on between two units on one link: taking in frames,
//! acknowledging head flits, and waiting for an acknowledgement.
//!
//! Nothing here reads or writes the link. A driver reads a frame and
//! asks what to do with it; it is told what to write, whether to wait
//! and read again, and when to give up.

use vstd::prelude::*;
use crate::error::NetworkError;
use crate::flit::{
    spec_acknowledges, spec_flit_type, spec_head_frame, spec_head_information,
    spec_message_information, Flit, FlitType,
};
use crate::header::Header;

verus! {

/// How often a unit reads the link while it waits for a flit.
pub const MAX_POLLS: u32 = 100;

/// How long a unit waits before it reads the link again for a flit, in
/// milliseconds.
pub const POLL_DELAY_MILLIS: u64 = 10;

/// How often a unit reads the link after it has sent a flit that asks
/// for an acknowledgement, before it sends the flit again or gives up.
pub const ACK_POLLS: u32 = 100;

/// How often a unit sends a flit that asks for an acknowledgement.
pub const ACK_EMISSIONS: u32 = 2;

/// How long a unit waits before it reads the link again for an
/// acknowledgement, in milliseconds.
pub const ACK_DELAY_MILLIS: u64 = 1;

/// A flit that was taken in, and the acknowledgement that is to go
/// back for it.
#[derive(Debug)]
pub struct Received {
    pub flit: Flit,
    pub ack: Option<Flit>,
}

/// What `Received` says, in frames.
pub ghost struct ReceivedView {
    pub frame: Seq<u8>,
    pub ack: Option<Seq<u8>>,
}

impl View for Received {
    type V = ReceivedView;

    open spec fn view(&self) -> ReceivedView {
        ReceivedView {
            frame: self.flit@,
            ack: match self.ack {
                Some(ack) => Some(ack@),
                None => None,
            },
        }
    }
}

/// The acknowledgement that answers a frame: for a head flit whose
/// header asks for one, the head flit with the acknowledgement header
/// and the same source, destination and packet id. A flit of another
/// type is not answered. A head flit that cannot be read is an error.
pub open spec fn spec_process_ack(frame: Seq<u8>) -> Result<Option<Seq<u8>>, NetworkError> {
    if spec_flit_type(frame) != FlitType::Head {
        Ok(None)
    } else if Header::of_code(frame[1]) is None {
        Err(NetworkError::UnknownHeader)
    } else if !Header::of_code(frame[1]).unwrap().spec_require_ack() {
        Ok(None)
    } else {
        match spec_head_information(frame) {
            Ok(head) => Ok(Some(spec_head_frame(0, Header::HAck, head.2, head.3, head.4))),
            Err(e) => Err(e),
        }
    }
}

/// What becomes of a frame that was read from the link.
///
/// A nope flit is passed over. Every other flit must have the right
/// checksum, and a head flit a header that exists. A head flit that
/// asks for an acknowledgement is taken in together with that
/// acknowledgement.
pub open spec fn spec_accept(frame: Seq<u8>) -> Result<Option<ReceivedView>, NetworkError> {
    if spec_flit_type(frame) == FlitType::Nope {
        Ok(None)
    } else if spec_flit_type(frame) == FlitType::Head {
        match spec_head_information(frame) {
            Ok(head) => Ok(
                Some(
                    ReceivedView {
                        frame,
                        ack: if head.1.spec_require_ack() {
                            Some(spec_head_frame(0, Header::HAck, head.2, head.3, head.4))
                        } else {
                            None
                        },
                    },
                ),
            ),
            Err(e) => Err(e),
        }
    } else {
        match spec_message_information(frame) {
            Ok(_) => Ok(Some(ReceivedView { frame, ack: None })),
            Err(e) => Err(e),
        }
    }
}

/// What becomes of what a unit read from the link, where it may have
/// read nothing.
pub open spec fn spec_receive(read: Option<Seq<u8>>) -> Result<Option<ReceivedView>, NetworkError> {
    match read {
        Some(frame) => spec_accept(frame),
        None => Ok(None),
    }
}

/// The frame that a unit read, if it read one.
pub open spec fn spec_read(read: Option<[u8; 8]>) -> Option<Seq<u8>> {
    match read {
        Some(bytes) => Some(bytes@),
        None => None,
    }
}

/// A unit that waits for a flit.
#[derive(Debug)]
pub struct Waiting {
    polls: u32,
}

/// What a unit that waits does next.
#[derive(Debug)]
pub enum Polled {
    /// Wait `POLL_DELAY_MILLIS`, read the link, and come back with what
    /// was read.
    Again,
    /// The flit that was waited for.
    Ready(Received),
}

/// A flit on its way to the next unit.
#[derive(Debug)]
pub struct Transmission {
    flit: Flit,
    open: bool,
    polls: u32,
    emissions: u32,
}

/// What the sender of a flit does next.
#[derive(Debug)]
pub enum SendStep {
    /// Write the frame. Nothing more is to do.
    EmitAndFinish([u8; 8]),
    /// Write the frame, wait `ACK_DELAY_MILLIS`, read the link, and
    /// come back with what was read.
    EmitAndPoll([u8; 8]),
    /// Wait `ACK_DELAY_MILLIS`, read the link, and come back with what
    /// was read.
    Poll,
    /// The flit has been acknowledged, or needed no acknowledgement.
    Done,
}

/// What `SendStep` says, in frames.
pub ghost enum SendStepView {
    EmitAndFinish(Seq<u8>),
    EmitAndPoll(Seq<u8>),
    Poll,
    Done,
}

impl View for SendStep {
    type V = SendStepView;

    open spec fn view(&self) -> SendStepView {
        match self {
            SendStep::EmitAndFinish(bytes) => SendStepView::EmitAndFinish(bytes@),
            SendStep::EmitAndPoll(bytes) => SendStepView::EmitAndPoll(bytes@),
            SendStep::Poll => SendStepView::Poll,
            SendStep::Done => SendStepView::Done,
        }
    }
}

/// The state of a transmission.
pub ghost struct TransmissionView {
    pub frame: Seq<u8>,
    /// The sender still waits for an acknowledgement.
    pub open: bool,
    /// How often the link was read since the frame was last written.
    pub polls: nat,
    /// How often the frame was written.
    pub emissions: nat,
}

impl View for Transmission {
    type V = TransmissionView;

    closed spec fn view(&self) -> TransmissionView {
        TransmissionView {
            frame: self.flit@,
            open: self.open,
            polls: self.polls as nat,
            emissions: self.emissions as nat,
        }
    }
}

/// What the sender of a flit does with what it read from the link.
///
/// An acknowledgement of the flit ends the transmission. Anything
/// else, nothing included, counts as one reading. After `ACK_POLLS`
/// readings the flit is written again, and after `ACK_EMISSIONS`
/// writings the sender gives up.
pub open spec fn spec_on_read(state: TransmissionView, read: Option<Seq<u8>>) -> (
    TransmissionView,
    Result<SendStepView, NetworkError>,
) {
    if !state.open {
        (state, Ok(SendStepView::Done))
    } else if read is Some && spec_acknowledges(read.unwrap(), state.frame) {
        (TransmissionView { open: false, ..state }, Ok(SendStepView::Done))
    } else if state.polls + 1 < ACK_POLLS {
        (TransmissionView { polls: state.polls + 1, ..state }, Ok(SendStepView::Poll))
    } else if state.emissions < ACK_EMISSIONS {
        (
            TransmissionView { polls: 0, emissions: state.emissions + 1, ..state },
            Ok(SendStepView::EmitAndPoll(state.frame)),
        )
    } else {
        (TransmissionView { open: false, ..state }, Err(NetworkError::AckTimeout))
    }
}

/// How often the link is read at most before a transmission ends.
pub open spec fn spec_readings_left(state: TransmissionView) -> int {
    if !state.open {
        0
    } else {
        (ACK_EMISSIONS + 1 - state.emissions) * ACK_POLLS - state.polls
    }
}

/// A transmission does not go on for ever: with every reading it ends,
/// or it comes closer to its end. After it has ended nothing changes.
pub proof fn lemma_transmission_ends(state: TransmissionView, read: Option<Seq<u8>>)
    requires
        state.polls < ACK_POLLS,
        1 <= state.emissions <= ACK_EMISSIONS,
    ensures
        spec_on_read(state, read).0.polls < ACK_POLLS,
        1 <= spec_on_read(state, read).0.emissions <= ACK_EMISSIONS,
        spec_on_read(state, read).0.frame == state.frame,
        state.open ==> spec_readings_left(spec_on_read(state, read).0) < spec_readings_left(state),
        !state.open ==> spec_on_read(state, read).0 == state,
        spec_on_read(state, read).1 is Err ==> !spec_on_read(state, read).0.open,
        spec_on_read(state, read).1 matches Ok(SendStepView::Done) ==> !spec_on_read(
            state,
            read,
        ).0.open,
{
}

impl Flit {
    /// The acknowledgement that the receiver of this flit sends back,
    /// if the flit asks for one.
    pub fn process_ack(&self) -> (r: Result<Option<Flit>, NetworkError>)
        ensures
            match spec_process_ack(self@) {
                Ok(Some(frame)) => r matches Ok(Some(ack)) && ack@ == frame,
                Ok(None) => r matches Ok(None),
                Err(e) => r matches Err(got) && got == e,
            },
    {
        let (flittype, _) = match Flit::get_flit_type_and_length(self) {
            Ok(pair) => pair,
            Err(e) => {
                return Err(e);
            },
        };
        if flittype != FlitType::Head {
            return Ok(None);
        }
        let header = match self.get_header() {
            Ok(header) => header,
            Err(e) => {
                return Err(e);
            },
        };
        if header.is_require_ack() {
            match Flit::make_ack_flit(self) {
                Ok(ack_flit) => Ok(Some(ack_flit)),
                Err(e) => Err(e),
            }
        } else {
            Ok(None)
        }
    }

    /// Takes in what was read from the link, be it a frame or nothing.
    pub fn receive(read: Option<[u8; 8]>) -> (r: Result<Option<Received>, NetworkError>)
        ensures
            match spec_receive(spec_read(read)) {
                Ok(Some(received)) => r matches Ok(Some(got)) && got@ == received,
                Ok(None) => r matches Ok(None),
                Err(e) => r matches Err(got) && got == e,
            },
    {
        let bytes = match read {
            Some(bytes) => bytes,
            None => {
                return Ok(None);
            },
        };
        let flit = Flit::from_be_bytes(bytes);
        let (flittype, _) = match Flit::get_flit_type_and_length(&flit) {
            Ok(pair) => pair,
            Err(e) => {
                return Err(e);
            },
        };
        match flittype {
            FlitType::Nope => Ok(None),
            FlitType::Head => {
                let (_, header, source_id, destination_id, packet_id) =
                    match Flit::get_head_information(&flit) {
                    Ok(head) => head,
                    Err(e) => {
                        return Err(e);
                    },
                };
                let ack = if header.is_require_ack() {
                    Some(Flit::make_head_flit(0, Header::HAck, source_id, destination_id, packet_id))
                } else {
                    None
                };
                Ok(Some(Received { flit, ack }))
            },
            _ => {
                match Flit::get_body_or_tail_information(&flit) {
                    Ok(_) => Ok(Some(Received { flit, ack: None })),
                    Err(e) => Err(e),
                }
            },
        }
    }

    /// Begins to wait for a flit.
    pub fn wait_receive() -> (waiting: Waiting)
        ensures
            waiting.polls() == 0,
    {
        Waiting { polls: 0 }
    }

    /// Begins to send the flit. Where `is_ack` is set the sender waits
    /// for an acknowledgement.
    pub fn send(&self, is_ack: bool) -> (r: (Transmission, SendStep))
        ensures
            r.0@ == (TransmissionView { frame: self@, open: is_ack, polls: 0, emissions: 1 }),
            r.1@ == if is_ack {
                SendStepView::EmitAndPoll(self@)
            } else {
                SendStepView::EmitAndFinish(self@)
            },
    {
        let transmission = Transmission { flit: *self, open: is_ack, polls: 0, emissions: 1 };
        let step = if is_ack {
            SendStep::EmitAndPoll(self.to_be_bytes())
        } else {
            SendStep::EmitAndFinish(self.to_be_bytes())
        };
        (transmission, step)
    }
}

impl Waiting {
    /// How often the link was read.
    pub closed spec fn polls(&self) -> nat {
        self.polls as nat
    }

    /// Takes in what was read from the link. A unit that has read the
    /// link `MAX_POLLS` times and found no flit gives up.
    pub fn poll(&mut self, read: Option<[u8; 8]>) -> (r: Result<Polled, NetworkError>)
        ensures
            match spec_receive(spec_read(read)) {
                Ok(Some(received)) => r matches Ok(Polled::Ready(got)) && got@ == received
                    && final(self).polls() == old(self).polls(),
                Ok(None) => if old(self).polls() + 1 < MAX_POLLS {
                    r matches Ok(Polled::Again) && final(self).polls() == old(self).polls() + 1
                } else {
                    r matches Err(e) && e == NetworkError::AckTimeout && final(self).polls() == old(
                        self,
                    ).polls()
                },
                Err(e) => r matches Err(got) && got == e && final(self).polls() == old(
                    self,
                ).polls(),
            },
    {
        match Flit::receive(read) {
            Ok(Some(received)) => Ok(Polled::Ready(received)),
            Ok(None) => {
                if self.polls < MAX_POLLS - 1 {
                    self.polls = self.polls + 1;
                    Ok(Polled::Again)
                } else {
                    Err(NetworkError::AckTimeout)
                }
            },
            Err(e) => Err(e),
        }
    }
}

impl Transmission {
    /// Whether `read` holds an acknowledgement of the flit.
    fn is_acknowledged_by(&self, read: Option<[u8; 8]>) -> (r: bool)
        ensures
            r == (read is Some && spec_acknowledges(read.unwrap()@, self@.frame)),
    {
        match read {
            Some(bytes) => {
                match Flit::check_ack_flit(Flit::from_be_bytes(bytes), self.flit) {
                    Ok(acknowledged) => acknowledged,
                    Err(_) => false,
                }
            },
            None => false,
        }
    }

    /// Takes in what was read from the link after the flit was
    /// written.
    pub fn receive(&mut self, read: Option<[u8; 8]>) -> (r: Result<SendStep, NetworkError>)
        ensures
            final(self)@ == spec_on_read(old(self)@, spec_read(read)).0,
            match spec_on_read(old(self)@, spec_read(read)).1 {
                Ok(step) => r matches Ok(got) && got@ == step,
                Err(e) => r matches Err(got) && got == e,
            },
    {
        if !self.open {
            return Ok(SendStep::Done);
        }
        if self.is_acknowledged_by(read) {
            self.open = false;
            return Ok(SendStep::Done);
        }
        if self.polls < ACK_POLLS - 1 {
            self.polls = self.polls + 1;
            return Ok(SendStep::Poll);
        }
        if self.emissions < ACK_EMISSIONS {
            self.polls = 0;
            self.emissions = self.emissions + 1;
            return Ok(SendStep::EmitAndPoll(self.flit.to_be_bytes()));
        }
        self.open = false;
        Err(NetworkError::AckTimeout)
    }
}

} // verus!
