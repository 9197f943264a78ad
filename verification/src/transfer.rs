//! A packet on the link: flit after flit out, flit after flit in.

use vstd::prelude::*;
use crate::error::NetworkError;
use crate::flit::{spec_head_information, Flit};
use crate::link::{SendStep, SendStepView, Transmission, TransmissionView};
use crate::packet::{spec_frames, spec_reassemble, Packet};
use crate::utils::type_alias::Id;

verus! {

/// A packet that is coming in: the flits that are there, and the
/// number of flits that its head flit declares.
#[derive(Debug)]
pub struct Reception {
    flits: Vec<Flit>,
    length: usize,
}

/// The state of a reception.
pub ghost struct ReceptionView {
    pub frames: Seq<Seq<u8>>,
    pub length: nat,
}

impl View for Reception {
    type V = ReceptionView;

    closed spec fn view(&self) -> ReceptionView {
        ReceptionView { frames: spec_frames(self.flits@), length: self.length as nat }
    }
}

impl ReceptionView {
    /// The number of flits that are still to come.
    pub open spec fn missing(self) -> nat {
        if self.frames.len() < self.length {
            (self.length - self.frames.len()) as nat
        } else {
            0
        }
    }
}

/// The transmission of the frame `frame` as it begins.
pub open spec fn spec_begun(frame: Seq<u8>, is_ack: bool) -> (TransmissionView, SendStepView) {
    (
        TransmissionView { frame, open: is_ack, polls: 0, emissions: 1 },
        if is_ack {
            SendStepView::EmitAndPoll(frame)
        } else {
            SendStepView::EmitAndFinish(frame)
        },
    )
}

impl Packet {
    /// Begins to send the packet: one transmission for each flit, in
    /// the order in which they go out. Whether the sender waits for
    /// acknowledgements depends on the header.
    pub fn send(&self) -> (transmissions: Vec<(Transmission, SendStep)>)
        requires
            self@.sendable(),
        ensures
            transmissions@.len() == self@.frames().len(),
            forall|k: int|
                0 <= k < transmissions@.len() ==> ((#[trigger] transmissions@[k]).0@,
                transmissions@[k].1@) == spec_begun(
                    self@.frames()[k],
                    self@.header.spec_require_ack(),
                ),
    {
        let flits = self.to_flits();
        let is_ack = self.get_header().is_require_ack();
        let mut transmissions: Vec<(Transmission, SendStep)> = Vec::new();
        let mut k: usize = 0;
        assert(spec_frames(flits@).len() == flits@.len());
        while k < flits.len()
            invariant
                k <= flits.len(),
                spec_frames(flits@) == self@.frames(),
                is_ack == self@.header.spec_require_ack(),
                transmissions@.len() == k,
                forall|n: int|
                    0 <= n < k ==> ((#[trigger] transmissions@[n]).0@, transmissions@[n].1@)
                        == spec_begun(self@.frames()[n], is_ack),
            decreases flits.len() - k,
        {
            assert(spec_frames(flits@)[k as int] == flits@[k as int]@);
            transmissions.push(flits[k].send(is_ack));
            k += 1;
        }
        transmissions
    }

    /// Begins to receive a packet with its head flit. A packet that
    /// this unit sent itself, and that came back over the shared link,
    /// is passed over.
    pub fn receive(first: Flit, this_id: Id) -> (r: Result<Option<Reception>, NetworkError>)
        ensures
            match spec_head_information(first@) {
                Ok(head) => if head.2 == this_id {
                    r matches Ok(None)
                } else {
                    r matches Ok(Some(reception)) && reception@ == (ReceptionView {
                        frames: seq![first@],
                        length: head.0 as nat,
                    })
                },
                Err(e) => r matches Err(got) && got == e,
            },
    {
        let (length_of_flit, _, src, _, _) = match Flit::get_head_information(&first) {
            Ok(head) => head,
            Err(e) => {
                return Err(e);
            },
        };
        if src == this_id {
            return Ok(None);
        }
        let mut flits: Vec<Flit> = Vec::new();
        flits.push(first);
        assert(spec_frames(flits@) =~= seq![first@]);
        Ok(Some(Reception { flits, length: length_of_flit as usize }))
    }
}

impl Reception {
    /// The number of flits that are still to come.
    pub fn missing(&self) -> (r: usize)
        ensures
            r == self@.missing(),
    {
        assert(spec_frames(self.flits@).len() == self.flits@.len());
        if self.flits.len() < self.length {
            self.length - self.flits.len()
        } else {
            0
        }
    }

    /// Takes in the next flit.
    pub fn push(&mut self, flit: Flit)
        ensures
            final(self)@ == (ReceptionView {
                frames: old(self)@.frames.push(flit@),
                length: old(self)@.length,
            }),
    {
        self.flits.push(flit);
        assert(spec_frames(self.flits@) =~= spec_frames(old(self).flits@).push(flit@));
    }

    /// Puts the packet together from the flits that came in.
    pub fn finish(self) -> (r: Result<Packet, NetworkError>)
        ensures
            match spec_reassemble(self@.frames) {
                Ok(view) => r matches Ok(packet) && packet@ == view && packet@.sendable(),
                Err(e) => r matches Err(got) && got == e,
            },
    {
        Packet::from_flits(self.flits)
    }
}

} // verus!
