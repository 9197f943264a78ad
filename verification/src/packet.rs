//! The packet: one message, cut into flits for the link and put
//! together again on the other side.
//!
//! A packet whose header needs no payload is a single head flit.
//! Every other packet is a head flit, a body flit with the preamble
//! (packet id, checksum of the payload, global destination, global
//! source), and then the payload in flits of six bytes. The payload is
//! followed by one byte `0xFF` and filled up with zeros; the last flit
//! is a tail flit.

use vstd::prelude::*;
use crate::error::NetworkError;
use crate::flit::{
    lemma_head_frame_reads_back, lemma_message_frame_reads_back, lemma_sum_ignores_final_zero,
    spec_head_information, spec_head_frame,
    spec_message_frame, spec_message_information, spec_seal, spec_u16, spec_wrapping_sum, Flit,
    FlitType,
};
use crate::header::Header;
use crate::utils::type_alias::{Coordinate, Id};

verus! {

pub type PacketId = u8;

/// The address that stands for every unit.
pub const BROADCAST_ID: Id = 0xFFFF;

/// The byte that ends a payload.
pub const END_OF_MESSAGE: u8 = 0xFF;

/// The destination of a packet.
#[derive(Debug, Eq, PartialEq, Clone, Copy, Structural)]
pub enum ToId {
    Unicast(Id),
    Broadcast,
}

impl ToId {
    /// The address on the wire.
    pub open spec fn spec_to_id(self) -> Id {
        match self {
            ToId::Unicast(id) => id,
            ToId::Broadcast => 0xFFFF,
        }
    }

    /// The destination that an address on the wire stands for.
    pub open spec fn spec_from_id(id: Id) -> ToId {
        if id == 0xFFFF {
            ToId::Broadcast
        } else {
            ToId::Unicast(id)
        }
    }

    pub fn to_id(&self) -> (id: Id)
        ensures
            id == self.spec_to_id(),
    {
        match self {
            ToId::Unicast(id) => *id,
            ToId::Broadcast => BROADCAST_ID,
        }
    }

    pub fn from_id(id: Id) -> (to: ToId)
        ensures
            to == ToId::spec_from_id(id),
    {
        if id == BROADCAST_ID {
            ToId::Broadcast
        } else {
            ToId::Unicast(id)
        }
    }
}

/// What a packet says, apart from how it is stored.
pub ghost struct PacketView {
    pub packet_id: PacketId,
    pub header: Header,
    /// The unit that sent the packet over this link.
    pub from: Id,
    /// The unit that is to take it from this link.
    pub to: ToId,
    /// The unit that the packet comes from.
    pub global_from: Id,
    /// The unit that the packet is meant for.
    pub global_to: ToId,
    pub payload: Seq<u8>,
}

/// What follows the payload in a stored packet: the end byte, and six
/// zeros so that the last flit can always be filled.
pub open spec fn spec_trailer() -> Seq<u8> {
    seq![0xFFu8, 0u8, 0u8, 0u8, 0u8, 0u8, 0u8]
}

/// The number of flits of a packet.
pub open spec fn spec_length_of_flit(header: Header, payload_len: nat) -> nat {
    if header.spec_only_head() {
        1
    } else {
        2 + (payload_len + 1 + 5) / 6
    }
}

/// The messages of a packet as it stores them: the payload, and the
/// trailer unless the header needs no payload.
pub open spec fn spec_messages(header: Header, payload: Seq<u8>) -> Seq<u8> {
    if header.spec_only_head() {
        payload
    } else {
        payload + spec_trailer()
    }
}

/// The checksum of a packet: the sum, modulo 256, of the payload and
/// its end byte.
pub open spec fn spec_packet_checksum(header: Header, payload: Seq<u8>) -> u8 {
    if header.spec_only_head() {
        spec_wrapping_sum(payload)
    } else {
        spec_wrapping_sum(payload.push(0xFFu8))
    }
}

impl PacketView {
    pub open spec fn length_of_flit(self) -> nat {
        spec_length_of_flit(self.header, self.payload.len())
    }

    pub open spec fn checksum(self) -> u8 {
        spec_packet_checksum(self.header, self.payload)
    }

    pub open spec fn messages(self) -> Seq<u8> {
        spec_messages(self.header, self.payload)
    }

    /// The six bytes of the second flit.
    pub open spec fn preamble(self) -> Seq<u8> {
        seq![
            self.packet_id,
            self.checksum(),
            (self.global_to.spec_to_id() / 256) as u8,
            (self.global_to.spec_to_id() % 256) as u8,
            (self.global_from / 256) as u8,
            (self.global_from % 256) as u8,
        ]
    }

    /// The packet fits the six bits in which a head flit holds the
    /// number of flits.
    pub open spec fn sendable(self) -> bool {
        self.length_of_flit() <= 63
    }

    /// The frame of the flit with number `k`.
    pub open spec fn frame(self, k: int) -> Seq<u8> {
        if k == 0 {
            spec_head_frame(
                self.length_of_flit() as u8,
                self.header,
                self.from,
                self.to.spec_to_id(),
                self.packet_id,
            )
        } else if k == 1 {
            spec_message_frame(FlitType::Body, 1, self.preamble())
        } else {
            spec_message_frame(
                if k == self.length_of_flit() - 1 {
                    FlitType::Tail
                } else {
                    FlitType::Body
                },
                k as u8,
                self.messages().subrange(6 * (k - 2), 6 * (k - 2) + 6),
            )
        }
    }

    /// The frames of the packet, in the order in which they are sent.
    pub open spec fn frames(self) -> Seq<Seq<u8>> {
        Seq::new(self.length_of_flit(), |k: int| self.frame(k))
    }

    /// The same packet on another link.
    pub open spec fn relinked(self, from: Id, to: ToId) -> PacketView {
        PacketView { from, to, ..self }
    }

    /// The packet as the other side of the link reads it. The address
    /// `0xFFFF` always reads as a broadcast. A packet that is a head
    /// flit alone carries one pair of addresses and no payload.
    pub open spec fn as_received(self) -> PacketView {
        if self.header.spec_only_head() {
            PacketView {
                to: ToId::spec_from_id(self.to.spec_to_id()),
                global_from: self.from,
                global_to: ToId::spec_from_id(self.to.spec_to_id()),
                payload: Seq::empty(),
                ..self
            }
        } else {
            PacketView {
                to: ToId::spec_from_id(self.to.spec_to_id()),
                global_to: ToId::spec_from_id(self.global_to.spec_to_id()),
                ..self
            }
        }
    }

    /// A packet that says nothing that the wire cannot carry: it is
    /// short enough to be sent, no unicast goes to the broadcast
    /// address, and under a header that needs no payload there is no
    /// payload and one pair of addresses.
    pub open spec fn well_formed(self) -> bool {
        &&& self.sendable()
        &&& self.to != ToId::Unicast(0xFFFFu16)
        &&& self.global_to != ToId::Unicast(0xFFFFu16)
        &&& self.header.spec_only_head() ==> {
            &&& self.payload.len() == 0
            &&& self.global_from == self.from
            &&& self.global_to == self.to
        }
    }
}

/// The frames of a sequence of flits.
pub open spec fn spec_frames(flits: Seq<Flit>) -> Seq<Seq<u8>> {
    Seq::new(flits.len(), |k: int| flits[k]@)
}

/// Zeros at the end add nothing to the sum.
pub proof fn lemma_sum_ignores_final_zeros(bytes: Seq<u8>, zeros: Seq<u8>)
    requires
        forall|i: int| 0 <= i < zeros.len() ==> zeros[i] == 0,
    ensures
        spec_wrapping_sum(bytes + zeros) == spec_wrapping_sum(bytes),
    decreases zeros.len(),
{
    if zeros.len() == 0 {
        assert(bytes + zeros =~= bytes);
    } else {
        lemma_sum_ignores_final_zeros(bytes, zeros.drop_last());
        assert(bytes + zeros =~= (bytes + zeros.drop_last()).push(0));
        lemma_sum_ignores_final_zero(bytes + zeros.drop_last());
    }
}

/// What is wrong, if anything, with the frame that stands at position
/// `k` of a packet of `length` flits, for `k` from 1: it must read as
/// a body or tail flit with the flit id `k`, and only the last flit
/// may be a tail flit.
pub open spec fn spec_flit_problem(frame: Seq<u8>, k: int, length: int) -> Option<NetworkError> {
    match spec_message_information(frame) {
        Err(e) => Some(e),
        Ok((flit_type, flit_id, _)) => if flit_id != k || flit_type == FlitType::Nope || (flit_type
            == FlitType::Tail && k != length - 1) {
            Some(NetworkError::UnexpectedFlitType)
        } else {
            None
        },
    }
}

/// What is wrong with the first of the frames `k..length` that has
/// something wrong with it.
pub open spec fn spec_first_problem(frames: Seq<Seq<u8>>, length: int, k: int) -> Option<
    NetworkError,
>
    decreases length - k,
{
    if k >= length {
        None
    } else if spec_flit_problem(frames[k], k, length) is Some {
        spec_flit_problem(frames[k], k, length)
    } else {
        spec_first_problem(frames, length, k + 1)
    }
}

/// The messages of the frames `2..length`, one after the other.
pub open spec fn spec_payload_area(frames: Seq<Seq<u8>>, length: int) -> Seq<u8> {
    Seq::new((6 * (length - 2)) as nat, |i: int| frames[2 + i / 6][1 + i % 6])
}

/// The bytes up to the last `0xFF`, that byte included; nothing where
/// there is no such byte.
pub open spec fn spec_strip_padding(bytes: Seq<u8>) -> Seq<u8>
    decreases bytes.len(),
{
    if bytes.len() == 0 || bytes.last() == 0xFFu8 {
        bytes
    } else {
        spec_strip_padding(bytes.drop_last())
    }
}

/// The packet that a sequence of frames spells, or what is wrong with
/// the frames.
///
/// The first frame must read as a head flit. If its header needs no
/// payload, that is the packet: it comes from the source of the head
/// flit and is meant for its destination. Otherwise the head flit
/// gives the number of flits; that many frames must be there, each
/// one correct in its place. The payload is what the frames from the
/// third on carry, up to the last `0xFF`; its sum must be the checksum
/// of the preamble.
pub open spec fn spec_reassemble(frames: Seq<Seq<u8>>) -> Result<PacketView, NetworkError> {
    if frames.len() == 0 {
        Err(NetworkError::TruncatedPacket)
    } else {
        match spec_head_information(frames[0]) {
            Err(e) => Err(e),
            Ok((length, header, from, to, packet_id)) => {
                if header.spec_only_head() {
                    Ok(
                        PacketView {
                            packet_id,
                            header,
                            from,
                            to: ToId::spec_from_id(to),
                            global_from: from,
                            global_to: ToId::spec_from_id(to),
                            payload: Seq::empty(),
                        },
                    )
                } else if length < 2 || frames.len() < length {
                    Err(NetworkError::TruncatedPacket)
                } else if spec_first_problem(frames, length as int, 1) is Some {
                    Err(spec_first_problem(frames, length as int, 1).unwrap())
                } else {
                    let preamble = frames[1].subrange(1, 7);
                    let stripped = spec_strip_padding(spec_payload_area(frames, length as int));
                    if spec_wrapping_sum(stripped) != preamble[1] {
                        Err(NetworkError::ChecksumMismatch)
                    } else {
                        Ok(
                            PacketView {
                                packet_id: preamble[0],
                                header,
                                from,
                                to: ToId::spec_from_id(to),
                                global_from: spec_u16(preamble[4], preamble[5]) as u16,
                                global_to: ToId::spec_from_id(
                                    spec_u16(preamble[2], preamble[3]) as u16,
                                ),
                                payload: if stripped.len() == 0 {
                                    stripped
                                } else {
                                    stripped.drop_last()
                                },
                            },
                        )
                    }
                }
            },
        }
    }
}

/// A body flit that is given the tail type is the tail flit with the
/// same flit id and message.
pub proof fn lemma_retyped_body_is_tail(flit_id: u8, message: Seq<u8>)
    requires
        message.len() == 6,
    ensures
        ({
            let body = spec_message_frame(FlitType::Body, flit_id, message);
            spec_seal(body.subrange(0, 7).update(0, (3 * 64 + body[0] % 64) as u8))
                == spec_message_frame(FlitType::Tail, flit_id, message)
        }),
{
    let body = spec_message_frame(FlitType::Body, flit_id, message);
    let seven = seq![(2 * 64 + flit_id % 64) as u8] + message.subrange(0, 6);
    assert(body.subrange(0, 7) =~= seven);
    assert(seven.update(0, (3 * 64 + body[0] % 64) as u8) =~= seq![
        (3 * 64 + flit_id % 64) as u8,
    ] + message.subrange(0, 6));
}

/// Stripping takes zeros off the end, up to the end byte.
pub proof fn lemma_strip_padding_after_end_byte(bytes: Seq<u8>, zeros: Seq<u8>)
    requires
        forall|i: int| 0 <= i < zeros.len() ==> zeros[i] == 0,
    ensures
        spec_strip_padding(bytes.push(0xFFu8) + zeros) == bytes.push(0xFFu8),
    decreases zeros.len(),
{
    let all = bytes.push(0xFFu8) + zeros;
    if zeros.len() == 0 {
        assert(all =~= bytes.push(0xFFu8));
    } else {
        assert(all.last() == zeros.last());
        assert(all.drop_last() =~= bytes.push(0xFFu8) + zeros.drop_last());
        lemma_strip_padding_after_end_byte(bytes, zeros.drop_last());
    }
}

/// Nothing is wrong with any of the frames of a packet.
proof fn lemma_frames_have_no_problem(packet: PacketView, k: int)
    requires
        packet.sendable(),
        !packet.header.spec_only_head(),
        1 <= k <= packet.length_of_flit(),
    ensures
        spec_first_problem(packet.frames(), packet.length_of_flit() as int, k) is None,
    decreases packet.length_of_flit() - k,
{
    let length = packet.length_of_flit() as int;
    if k < length {
        lemma_frames_have_no_problem(packet, k + 1);
        assert(packet.frames()[k] == packet.frame(k));
        if k == 1 {
            lemma_message_frame_reads_back(FlitType::Body, 1, packet.preamble());
        } else {
            let message = packet.messages().subrange(6 * (k - 2), 6 * (k - 2) + 6);
            if k == length - 1 {
                lemma_message_frame_reads_back(FlitType::Tail, k as u8, message);
            } else {
                lemma_message_frame_reads_back(FlitType::Body, k as u8, message);
            }
        }
    }
}

/// The frames of a packet from the third on carry its stored
/// messages, as far as they reach.
proof fn lemma_payload_area_of_frames(packet: PacketView)
    requires
        packet.sendable(),
        !packet.header.spec_only_head(),
    ensures
        spec_payload_area(packet.frames(), packet.length_of_flit() as int)
            == packet.messages().subrange(0, 6 * (packet.length_of_flit() - 2)),
{
    let frames = packet.frames();
    let length = packet.length_of_flit() as int;
    let area = spec_payload_area(frames, length);
    let used = 6 * (length - 2);
    let messages = packet.messages();
    assert forall|i: int| 0 <= i < used implies area[i] == messages[i] by {
        let k = 2 + i / 6;
        assert(frames[k] == packet.frame(k));
        let message = messages.subrange(6 * (k - 2), 6 * (k - 2) + 6);
        if k == length - 1 {
            lemma_message_frame_reads_back(FlitType::Tail, k as u8, message);
        } else {
            lemma_message_frame_reads_back(FlitType::Body, k as u8, message);
        }
        assert(frames[k].subrange(1, 7)[i % 6] == frames[k][1 + i % 6]);
        assert(message.subrange(0, 6)[i % 6] == messages[6 * (k - 2) + i % 6]);
    }
    assert(area =~= messages.subrange(0, used));
}

/// What is left of the frames of a packet when the padding is taken
/// off: the payload and its end byte.
proof fn lemma_stripped_area_of_frames(packet: PacketView)
    requires
        packet.sendable(),
        !packet.header.spec_only_head(),
    ensures
        spec_strip_padding(spec_payload_area(packet.frames(), packet.length_of_flit() as int))
            == packet.payload.push(0xFFu8),
{
    lemma_payload_area_of_frames(packet);
    let length = packet.length_of_flit() as int;
    let used = 6 * (length - 2);
    let area = packet.messages().subrange(0, used);
    let zeros = Seq::new((used - packet.payload.len() - 1) as nat, |i: int| 0u8);
    assert(area =~= packet.payload.push(0xFFu8) + zeros);
    lemma_strip_padding_after_end_byte(packet.payload, zeros);
}

/// The second frame of a packet carries its preamble.
proof fn lemma_preamble_of_frames(packet: PacketView)
    requires
        packet.sendable(),
        !packet.header.spec_only_head(),
    ensures
        packet.frames()[1].subrange(1, 7) == packet.preamble(),
{
    assert(packet.frames()[1] == packet.frame(1));
    lemma_message_frame_reads_back(FlitType::Body, 1, packet.preamble());
    assert(packet.preamble().subrange(0, 6) =~= packet.preamble());
}

/// The first frame of a packet reads as its head flit.
proof fn lemma_head_of_frames(packet: PacketView)
    requires
        packet.sendable(),
    ensures
        packet.frames().len() == packet.length_of_flit(),
        spec_head_information(packet.frames()[0]) == Ok::<(u8, Header, Id, Id, u8), NetworkError>(
            (
                packet.length_of_flit() as u8,
                packet.header,
                packet.from,
                packet.to.spec_to_id(),
                packet.packet_id,
            ),
        ),
{
    assert(packet.frames()[0] == packet.frame(0));
    lemma_head_frame_reads_back(
        packet.length_of_flit() as u8,
        packet.header,
        packet.from,
        packet.to.spec_to_id(),
        packet.packet_id,
    );
}

/// A packet of one head flit that is put together again.
proof fn lemma_reassemble_head_only(packet: PacketView)
    requires
        packet.sendable(),
        packet.header.spec_only_head(),
    ensures
        spec_reassemble(packet.frames()) == Ok::<PacketView, NetworkError>(packet.as_received()),
{
    lemma_head_of_frames(packet);
}

/// A packet with a payload that is put together again.
proof fn lemma_reassemble_with_payload(packet: PacketView)
    requires
        packet.sendable(),
        !packet.header.spec_only_head(),
    ensures
        spec_reassemble(packet.frames()) == Ok::<PacketView, NetworkError>(packet.as_received()),
{
    let frames = packet.frames();
    let length = packet.length_of_flit() as int;
    lemma_head_of_frames(packet);
    lemma_frames_have_no_problem(packet, 1);
    lemma_preamble_of_frames(packet);
    lemma_stripped_area_of_frames(packet);
    let preamble = frames[1].subrange(1, 7);
    let stripped = spec_strip_padding(spec_payload_area(frames, length));
    assert(stripped == packet.payload.push(0xFFu8));
    assert(stripped.drop_last() =~= packet.payload);
    assert(preamble[0] == packet.packet_id);
    assert(preamble[1] == spec_wrapping_sum(stripped));
    assert(spec_u16(preamble[4], preamble[5]) == packet.global_from);
    assert(spec_u16(preamble[2], preamble[3]) == packet.global_to.spec_to_id());
    let read = PacketView {
        packet_id: preamble[0],
        header: packet.header,
        from: packet.from,
        to: ToId::spec_from_id(packet.to.spec_to_id()),
        global_from: spec_u16(preamble[4], preamble[5]) as u16,
        global_to: ToId::spec_from_id(spec_u16(preamble[2], preamble[3]) as u16),
        payload: stripped.drop_last(),
    };
    assert(read == packet.as_received());
    assert(spec_reassemble(frames) == Ok::<PacketView, NetworkError>(read));
}

/// A packet that is cut into flits and put together again is the
/// packet as the other side reads it.
pub proof fn lemma_reassemble_frames(packet: PacketView)
    requires
        packet.sendable(),
    ensures
        spec_reassemble(packet.frames()) == Ok::<PacketView, NetworkError>(packet.as_received()),
{
    if packet.header.spec_only_head() {
        lemma_reassemble_head_only(packet);
    } else {
        lemma_reassemble_with_payload(packet);
    }
}

/// A well-formed packet that is cut into flits and put together again
/// is the same packet.
pub proof fn lemma_fragment_then_reassemble(packet: PacketView)
    requires
        packet.well_formed(),
    ensures
        spec_reassemble(packet.frames()) == Ok::<PacketView, NetworkError>(packet),
{
    lemma_reassemble_frames(packet);
    assert(packet.as_received().payload =~= packet.payload);
}

/// Putting a packet on another link changes its head flit and no
/// other flit.
pub proof fn lemma_relinking_changes_the_head_flit_only(packet: PacketView, from: Id, to: ToId)
    ensures
        packet.relinked(from, to).frames().len() == packet.frames().len(),
        forall|k: int|
            1 <= k < packet.frames().len() ==> packet.relinked(from, to).frames()[k]
                == packet.frames()[k],
        packet.relinked(from, to).frames()[0] == spec_head_frame(
            packet.length_of_flit() as u8,
            packet.header,
            from,
            to.spec_to_id(),
            packet.packet_id,
        ),
{
}

/// Whatever link a packet with a payload is put on, the other side
/// reads the same global source, global destination and payload.
pub proof fn lemma_reassembly_ignores_the_link(packet: PacketView, from: Id, to: ToId)
    requires
        packet.sendable(),
        !packet.header.spec_only_head(),
    ensures
        spec_reassemble(packet.relinked(from, to).frames()) is Ok,
        spec_reassemble(packet.frames()) is Ok,
        spec_reassemble(packet.relinked(from, to).frames()).unwrap().global_from
            == spec_reassemble(packet.frames()).unwrap().global_from,
        spec_reassemble(packet.relinked(from, to).frames()).unwrap().global_to == spec_reassemble(
            packet.frames(),
        ).unwrap().global_to,
        spec_reassemble(packet.relinked(from, to).frames()).unwrap().payload == spec_reassemble(
            packet.frames(),
        ).unwrap().payload,
        spec_reassemble(packet.relinked(from, to).frames()).unwrap().global_from
            == packet.global_from,
        spec_reassemble(packet.relinked(from, to).frames()).unwrap().payload == packet.payload,
{
    lemma_reassemble_frames(packet);
    lemma_reassemble_frames(packet.relinked(from, to));
}

/// A message, with the addresses for this link and for the whole way.
#[derive(Debug, Eq, PartialEq)]
pub struct Packet {
    packet_id: PacketId,
    header: Header,
    from: Id,
    to: ToId,
    global_from: Id,
    global_to: ToId,
    messages: Vec<u8>,
    checksum: u8,
    length_of_flit: usize,
}

impl View for Packet {
    type V = PacketView;

    closed spec fn view(&self) -> PacketView {
        PacketView {
            packet_id: self.packet_id,
            header: self.header,
            from: self.from,
            to: self.to,
            global_from: self.global_from,
            global_to: self.global_to,
            payload: if self.header.spec_only_head() {
                self.messages@
            } else {
                self.messages@.subrange(0, self.messages@.len() - 7)
            },
        }
    }
}

impl Packet {
    #[verifier::type_invariant]
    spec fn inv(&self) -> bool {
        &&& self.messages@ == self@.messages()
        &&& self.checksum == self@.checksum()
        &&& self.length_of_flit == self@.length_of_flit()
    }

    /// A packet with the given payload. For a header that needs no
    /// payload the messages are kept as they are, and are not sent.
    pub fn new(
        packet_id: PacketId,
        header: Header,
        global_from: Id,
        global_to: ToId,
        from: Id,
        to: ToId,
        messages: Vec<u8>,
    ) -> (packet: Packet)
        requires
            messages.len() + 7 <= usize::MAX,
        ensures
            packet@ == (PacketView {
                packet_id,
                header,
                from,
                to,
                global_from,
                global_to,
                payload: messages@,
            }),
    {
        let ghost payload = messages@;
        let mut messages = messages;
        let length_of_flit = Self::calculate_length_of_flit(header, &messages);

        if !header.is_only_head() {
            messages.push(END_OF_MESSAGE);
            let mut i: usize = 0;
            while i < 6
                invariant
                    i <= 6,
                    messages@.len() == payload.len() + 1 + i,
                    messages@.subrange(0, payload.len() as int) == payload,
                    messages@[payload.len() as int] == 0xFFu8,
                    forall|j: int| payload.len() < j < messages@.len() ==> messages@[j] == 0,
                decreases 6 - i,
            {
                messages.push(0);
                i += 1;
                assert(messages@.subrange(0, payload.len() as int) =~= payload);
            }
            assert(messages@ =~= payload + spec_trailer());
            assert(messages@.subrange(0, messages@.len() - 7) =~= payload);
        }
        let checksum = Self::calculate_checksum(&messages);
        proof {
            if !header.spec_only_head() {
                assert(messages@ =~= payload.push(0xFFu8) + seq![0u8, 0u8, 0u8, 0u8, 0u8, 0u8]);
                lemma_sum_ignores_final_zeros(
                    payload.push(0xFFu8),
                    seq![0u8, 0u8, 0u8, 0u8, 0u8, 0u8],
                );
            }
        }
        Packet {
            packet_id,
            header,
            from,
            to,
            global_from,
            global_to,
            messages,
            checksum,
            length_of_flit,
        }
    }

    /// The number of flits of a packet with this header and payload.
    pub fn calculate_length_of_flit(header: Header, messages: &Vec<u8>) -> (length: usize)
        requires
            messages.len() + 6 <= usize::MAX,
        ensures
            length == spec_length_of_flit(header, messages@.len()),
    {
        if header.is_only_head() {
            return 1;
        }
        (messages.len() + 1 + 5) / 6 + 2
    }

    /// The sum of the bytes modulo 256.
    pub fn calculate_checksum(data: &Vec<u8>) -> (sum: u8)
        ensures
            sum == spec_wrapping_sum(data@),
    {
        let mut sum: u8 = 0;
        let mut i: usize = 0;
        while i < data.len()
            invariant
                i <= data.len(),
                sum == spec_wrapping_sum(data@.subrange(0, i as int)),
            decreases data.len() - i,
        {
            assert(data@.subrange(0, i + 1).drop_last() =~= data@.subrange(0, i as int));
            sum = sum.wrapping_add(data[i]);
            i += 1;
        }
        assert(data@.subrange(0, data.len() as int) =~= data@);
        sum
    }

    pub fn check_checksum(data: &Vec<u8>, checksum: u8) -> (ok: bool)
        ensures
            ok == (spec_wrapping_sum(data@) == checksum),
    {
        let sum = Self::calculate_checksum(data);
        sum == checksum
    }

    /// Puts the packet on another link. Where it comes from and where
    /// it is meant for stay as they are, and so does the payload.
    pub fn change_from_and_to(&mut self, from: Id, to: ToId)
        ensures
            final(self)@ == old(self)@.relinked(from, to),
    {
        proof {
            use_type_invariant(&*self);
        }
        self.from = from;
        self.to = to;
    }

    pub fn get_packet_id(&self) -> (r: PacketId)
        ensures
            r == self@.packet_id,
    {
        self.packet_id
    }

    pub fn get_header(&self) -> (r: Header)
        ensures
            r == self@.header,
    {
        self.header
    }

    pub fn get_global_from(&self) -> (r: Id)
        ensures
            r == self@.global_from,
    {
        self.global_from
    }

    pub fn get_global_to(&self) -> (r: ToId)
        ensures
            r == self@.global_to,
    {
        self.global_to
    }

    pub fn get_from(&self) -> (r: Id)
        ensures
            r == self@.from,
    {
        self.from
    }

    pub fn get_to(&self) -> (r: ToId)
        ensures
            r == self@.to,
    {
        self.to
    }

    /// The checksum of the payload and its end byte.
    pub fn get_checksum(&self) -> (r: u8)
        ensures
            r == self@.checksum(),
    {
        proof {
            use_type_invariant(self);
        }
        self.checksum
    }

    /// The number of flits that the packet is sent in.
    pub fn get_length_of_flit(&self) -> (r: usize)
        ensures
            r == self@.length_of_flit(),
    {
        proof {
            use_type_invariant(self);
        }
        self.length_of_flit
    }

    /// The messages as the packet stores them: the payload, then the
    /// end byte and six zeros unless the header needs no payload.
    pub fn get_ref_messages(&self) -> (r: &Vec<u8>)
        ensures
            r@ == self@.messages(),
    {
        proof {
            use_type_invariant(self);
        }
        &self.messages
    }

    /// The messages as the packet stores them.
    pub fn get_messages(self) -> (r: Vec<u8>)
        ensures
            r@ == self@.messages(),
    {
        proof {
            use_type_invariant(&self);
        }
        self.messages
    }

    /// (packet id, header, source on this link, destination on this
    /// link, stored messages).
    pub fn get_all(self) -> (r: (PacketId, Header, Id, Id, Vec<u8>))
        ensures
            r.0 == self@.packet_id,
            r.1 == self@.header,
            r.2 == self@.from,
            r.3 == self@.to.spec_to_id(),
            r.4@ == self@.messages(),
    {
        proof {
            use_type_invariant(&self);
        }
        (self.packet_id, self.header, self.from, self.to.to_id(), self.messages)
    }

    /// The preamble: the six bytes of the second flit.
    pub fn make_first_message(&self) -> (data: [u8; 6])
        ensures
            data@ == self@.preamble(),
    {
        proof {
            use_type_invariant(self);
        }
        let to = self.global_to.to_id();
        let data: [u8; 6] = [
            self.packet_id,
            self.checksum,
            (to / 256) as u8,
            (to % 256) as u8,
            (self.global_from / 256) as u8,
            (self.global_from % 256) as u8,
        ];
        assert(data@ =~= self@.preamble());
        data
    }

    /// Reads a preamble: (packet id, checksum, global source, global
    /// destination).
    pub fn load_first_message(flit: Flit) -> (r: Result<(PacketId, u8, Id, Id), NetworkError>)
        ensures
            match spec_message_information(flit@) {
                Ok((_, _, message)) => r == Ok::<(PacketId, u8, Id, Id), NetworkError>(
                    (
                        message[0],
                        message[1],
                        spec_u16(message[4], message[5]) as u16,
                        spec_u16(message[2], message[3]) as u16,
                    ),
                ),
                Err(e) => r == Err::<(PacketId, u8, Id, Id), NetworkError>(e),
            },
    {
        match Flit::get_body_or_tail_information(&flit) {
            Ok((_, _, data)) => {
                let packet_id = data[0];
                let checksum = data[1];
                let to: u16 = data[2] as u16 * 256 + data[3] as u16;
                let from: u16 = data[4] as u16 * 256 + data[5] as u16;
                Ok((packet_id, checksum, from, to))
            },
            Err(e) => Err(e),
        }
    }

    /// Whether the packet can be sent: a head flit holds the number of
    /// flits in six bits, so a packet has at most 63 of them and a
    /// payload at most 365 bytes.
    pub fn is_sendable(&self) -> (r: bool)
        ensures
            r == self@.sendable(),
    {
        proof {
            use_type_invariant(self);
        }
        self.length_of_flit <= 63
    }

    /// The flits of the packet, in the order in which they are sent.
    pub fn to_flits(&self) -> (flits: Vec<Flit>)
        requires
            self@.sendable(),
        ensures
            spec_frames(flits@) == self@.frames(),
    {
        proof {
            use_type_invariant(self);
        }
        let mut flits: Vec<Flit> = Vec::new();
        flits.push(
            Flit::make_head_flit(
                self.length_of_flit as u8,
                self.header,
                self.from,
                self.to.to_id(),
                self.packet_id,
            ),
        );
        if self.header.is_only_head() {
            assert(spec_frames(flits@) =~= self@.frames());
            return flits;
        }
        // One flit carries six bytes.

        let mut flit_id: u8 = 1;
        let data = self.make_first_message();
        flits.push(Flit::make_body_flit(flit_id, data));

        let chunks: usize = self.length_of_flit - 2;
        let mut i: usize = 0;
        while i < chunks
            invariant
                self.messages@ == self@.messages(),
                !self@.header.spec_only_head(),
                self@.length_of_flit() <= 63,
                chunks == self@.length_of_flit() - 2,
                i <= chunks,
                flit_id == i + 1,
                flits@.len() == i + 2,
                flits@[0]@ == self@.frame(0),
                flits@[1]@ == self@.frame(1),
                forall|k: int|
                    2 <= k < i + 2 ==> (#[trigger] flits@[k])@ == spec_message_frame(
                        FlitType::Body,
                        k as u8,
                        self@.messages().subrange(6 * (k - 2), 6 * (k - 2) + 6),
                    ),
            decreases chunks - i,
        {
            flit_id += 1;
            let base: usize = i * 6;
            let data: [u8; 6] = [
                self.messages[base],
                self.messages[base + 1],
                self.messages[base + 2],
                self.messages[base + 3],
                self.messages[base + 4],
                self.messages[base + 5],
            ];
            assert(data@ =~= self@.messages().subrange(6 * i, 6 * i + 6));
            flits.push(Flit::make_body_flit(flit_id, data));
            i += 1;
        }
        // The last flit of a packet is a tail flit.
        let mut last_flit = flits.pop().unwrap();
        proof {
            let k = self@.length_of_flit() - 1;
            lemma_retyped_body_is_tail(
                k as u8,
                self@.messages().subrange(6 * (k - 2), 6 * (k - 2) + 6),
            );
        }
        Flit::change_flit_type(&mut last_flit, FlitType::Tail);
        flits.push(last_flit);
        assert(spec_frames(flits@) =~= self@.frames());
        flits
    }

    /// Puts a packet together from its flits. Flits beyond the number
    /// that the head flit declares are not looked at.
    #[verifier::loop_isolation(false)]
    pub fn from_flits(flits: Vec<Flit>) -> (r: Result<Packet, NetworkError>)
        ensures
            match spec_reassemble(spec_frames(flits@)) {
                Ok(view) => r matches Ok(packet) && packet@ == view && packet@.sendable(),
                Err(e) => r matches Err(got) && got == e,
            },
    {
        let ghost frames = spec_frames(flits@);
        if flits.len() == 0 {
            return Err(NetworkError::TruncatedPacket);
        }
        let (length_of_flit, header, from, to, packet_id) = match Flit::get_head_information(
            &flits[0],
        ) {
            Ok(head) => head,
            Err(e) => {
                return Err(e);
            },
        };
        let to = ToId::from_id(to);
        let length: usize = length_of_flit as usize;

        if header.is_only_head() {
            // One address pair is all that such a packet carries.
            return Ok(Self::new(packet_id, header, from, to, from, to, Vec::new()));
        }
        if length < 2 || flits.len() < length {
            return Err(NetworkError::TruncatedPacket);
        }
        let (packet_id, checksum, global_source, global_destination) =
            match Self::check_flit(&flits[1], 1, length) {
            Ok(message) => (
                message[0],
                message[1],
                message[4] as u16 * 256 + message[5] as u16,
                message[2] as u16 * 256 + message[3] as u16,
            ),
            Err(e) => {
                return Err(e);
            },
        };

        let mut data: Vec<u8> = Vec::new();
        let mut i: usize = 2;
        while i < length
            invariant
                frames == spec_frames(flits@),
                2 <= i <= length <= flits@.len(),
                length <= 63,
                spec_first_problem(frames, length as int, 1) == spec_first_problem(
                    frames,
                    length as int,
                    i as int,
                ),
                data@ == spec_payload_area(frames, i as int),
            decreases length - i,
        {
            let message = match Self::check_flit(&flits[i], i, length) {
                Ok(message) => message,
                Err(e) => {
                    return Err(e);
                },
            };
            let ghost before = data@;
            let mut j: usize = 0;
            while j < 6
                invariant
                    j <= 6,
                    data@ == before + message@.subrange(0, j as int),
                decreases 6 - j,
            {
                data.push(message[j]);
                j += 1;
                assert(data@ =~= before + message@.subrange(0, j as int));
            }
            assert(data@ =~= spec_payload_area(frames, i + 1)) by {
                assert(message@.subrange(0, 6) =~= message@);
                assert(frames[i as int] == flits@[i as int]@);
                flits@[i as int].lemma_frame_length();
                assert forall|n: int| 0 <= n < 6 * (i - 1) implies data@[n] == frames[2 + n / 6][1
                    + n % 6] by {
                    if n < 6 * (i - 2) {
                        assert(data@[n] == before[n]);
                    } else {
                        assert(n / 6 == i - 2);
                        assert(n % 6 == n - 6 * (i - 2));
                        assert(data@[n] == message@[n - 6 * (i - 2)]);
                        assert(message@[n - 6 * (i - 2)] == frames[i as int][1 + n % 6]);
                    }
                }
            }
            i += 1;
        }
        let ghost area = data@;
        while data.len() > 0 && data[data.len() - 1] != END_OF_MESSAGE
            invariant
                spec_strip_padding(data@) == spec_strip_padding(area),
                data@.len() <= area.len(),
            decreases data.len(),
        {
            let ghost longer = data@;
            data.pop();
            assert(data@ =~= longer.drop_last());
        }
        if Self::check_checksum(&data, checksum) {
            // The end byte is no part of the payload.
            let ghost stripped = data@;
            data.pop();
            assert(stripped.len() > 0 ==> data@ =~= stripped.drop_last());
            Ok(
                Self::new(
                    packet_id,
                    header,
                    global_source,
                    ToId::from_id(global_destination),
                    from,
                    to,
                    data,
                ),
            )
        } else {
            Err(NetworkError::ChecksumMismatch)
        }
    }

    /// Reads the flit at position `k` of a packet of `length` flits and
    /// hands out its message, if nothing is wrong with the flit.
    fn check_flit(flit: &Flit, k: usize, length: usize) -> (r: Result<[u8; 6], NetworkError>)
        requires
            1 <= k < length <= 63,
        ensures
            match spec_flit_problem(flit@, k as int, length as int) {
                Some(e) => r matches Err(got) && got == e,
                None => r matches Ok(message) && message@ == flit@.subrange(1, 7),
            },
    {
        let (flittype, flit_id, message) = match Flit::get_body_or_tail_information(flit) {
            Ok(information) => information,
            Err(e) => {
                return Err(e);
            },
        };
        if flit_id as usize != k {
            return Err(NetworkError::UnexpectedFlitType);
        }
        if flittype == FlitType::Nope {
            return Err(NetworkError::UnexpectedFlitType);
        }
        if flittype == FlitType::Tail && k != length - 1 {
            return Err(NetworkError::UnexpectedFlitType);
        }
        Ok(message)
    }
}

} // verus!
