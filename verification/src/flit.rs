//! The flit: the 8-byte frame that travels over a serial link.
//!
//! ```text
//! head:        | type (2) | length (6) | header (8) | source (16) | destination (16) | packet id (8) | checksum (8) |
//! body, tail:  | type (2) | flit id (6) | message (48) | checksum (8) |
//! nope:        | type (2) | zeros (62) |
//! ```
//!
//! The most significant byte goes first. The last byte is the sum of
//! the seven bytes before it, modulo 256.

use vstd::prelude::*;
use crate::error::NetworkError;
use crate::header::Header;
use crate::utils::type_alias::Id;

verus! {

/// One frame, held as the 64-bit number that its eight bytes spell.
/// The view of a flit is the eight bytes as they go over the wire.
#[derive(Debug, Clone, Copy)]
pub struct Flit(u64);

/// The two bits at the top of a flit.
#[derive(PartialEq, Eq, Debug, Clone, Copy, Structural)]
pub enum FlitType {
    Nope,
    Head,
    Body,
    Tail,
}

/// A packet has at most 63 flits: its length is written in 6 bits.
pub const MAX_FLIT_LENGTH: u8 = 64;

impl FlitType {
    /// The value of the two type bits.
    pub open spec fn code(self) -> int {
        match self {
            FlitType::Nope => 0,
            FlitType::Head => 1,
            FlitType::Body => 2,
            FlitType::Tail => 3,
        }
    }

    pub fn to_u8(self) -> (r: u8)
        ensures
            r == self.code(),
    {
        match self {
            FlitType::Nope => 0,
            FlitType::Head => 1,
            FlitType::Body => 2,
            FlitType::Tail => 3,
        }
    }

    /// Reads two type bits. Higher bits of `number` are not looked at.
    pub fn from_bits(number: u8) -> (r: FlitType)
        ensures
            r.code() == number % 4,
    {
        match number % 4 {
            0 => FlitType::Nope,
            1 => FlitType::Head,
            2 => FlitType::Body,
            _ => FlitType::Tail,
        }
    }
}

/// The sum of the bytes modulo 256.
pub open spec fn spec_wrapping_sum(bytes: Seq<u8>) -> u8
    decreases bytes.len(),
{
    if bytes.len() == 0 {
        0
    } else {
        ((spec_wrapping_sum(bytes.drop_last()) + bytes.last()) % 256) as u8
    }
}

/// The checksum that belongs at the end of a frame: the sum of its
/// first seven bytes modulo 256.
pub open spec fn spec_checksum(frame: Seq<u8>) -> u8 {
    spec_wrapping_sum(frame.subrange(0, 7))
}

/// A frame of eight bytes whose last byte is the checksum of the rest.
pub open spec fn spec_sound(frame: Seq<u8>) -> bool {
    frame.len() == 8 && frame[7] == spec_checksum(frame)
}

/// The type that the two top bits of a frame spell.
pub open spec fn spec_type_code(frame: Seq<u8>) -> int {
    frame[0] as int / 64
}

/// The six bits below the type: the number of flits in a head flit,
/// the sequence number in a body or tail flit.
pub open spec fn spec_low_six(frame: Seq<u8>) -> int {
    frame[0] as int % 64
}

/// The 16-bit number whose more significant byte is `high`.
pub open spec fn spec_u16(high: u8, low: u8) -> int {
    high as int * 256 + low as int
}

/// Seven bytes, completed by their checksum.
pub open spec fn spec_seal(seven: Seq<u8>) -> Seq<u8> {
    seven.push(spec_wrapping_sum(seven))
}

/// The frame of a head flit. Of `length` only the six low bits go into
/// the frame.
pub open spec fn spec_head_frame(
    length: u8,
    header: Header,
    source: Id,
    destination: Id,
    packet_id: u8,
) -> Seq<u8> {
    spec_seal(
        seq![
            (64 + length % 64) as u8,
            header.code(),
            (source / 256) as u8,
            (source % 256) as u8,
            (destination / 256) as u8,
            (destination % 256) as u8,
            packet_id,
        ],
    )
}

/// The frame of a flit of the given type that carries six bytes. Of
/// `flit_id` only the six low bits go into the frame.
pub open spec fn spec_message_frame(flit_type: FlitType, flit_id: u8, message: Seq<u8>) -> Seq<
    u8,
> {
    spec_seal(seq![(flit_type.code() * 64 + flit_id % 64) as u8] + message.subrange(0, 6))
}

/// What a sound head frame says: number of flits, header, source,
/// destination and packet id.
pub open spec fn spec_head_fields(frame: Seq<u8>) -> (u8, Header, Id, Id, u8) {
    (
        spec_low_six(frame) as u8,
        Header::of_code(frame[1]).unwrap(),
        spec_u16(frame[2], frame[3]) as u16,
        spec_u16(frame[4], frame[5]) as u16,
        frame[6],
    )
}

/// Reading a frame as a head flit: what is wrong with it, if anything.
/// The type is looked at first, then the header byte, then the
/// checksum.
pub open spec fn spec_head_information(frame: Seq<u8>) -> Result<
    (u8, Header, Id, Id, u8),
    NetworkError,
> {
    if spec_type_code(frame) != FlitType::Head.code() {
        Err(NetworkError::UnexpectedFlitType)
    } else if Header::of_code(frame[1]) is None {
        Err(NetworkError::UnknownHeader)
    } else if frame[7] != spec_checksum(frame) {
        Err(NetworkError::ChecksumMismatch)
    } else {
        Ok(spec_head_fields(frame))
    }
}

/// Reading a frame as a flit that carries a message: anything but a
/// head flit, with a correct checksum.
pub open spec fn spec_message_information(frame: Seq<u8>) -> Result<
    (FlitType, u8, Seq<u8>),
    NetworkError,
> {
    if spec_type_code(frame) == FlitType::Head.code() {
        Err(NetworkError::UnexpectedFlitType)
    } else if frame[7] != spec_checksum(frame) {
        Err(NetworkError::ChecksumMismatch)
    } else {
        Ok((spec_flit_type(frame), spec_low_six(frame) as u8, frame.subrange(1, 7)))
    }
}

/// The type of a frame.
pub open spec fn spec_flit_type(frame: Seq<u8>) -> FlitType {
    let code = spec_type_code(frame);
    if code == 0 {
        FlitType::Nope
    } else if code == 1 {
        FlitType::Head
    } else if code == 2 {
        FlitType::Body
    } else {
        FlitType::Tail
    }
}

/// Whether `ack` acknowledges `sent`: both are sound head frames,
/// `ack` has the acknowledgement header and the packet id of `sent`,
/// and it comes from the unit that `sent` went to.
pub open spec fn spec_acknowledges(ack: Seq<u8>, sent: Seq<u8>) -> bool {
    &&& spec_head_information(ack) is Ok
    &&& spec_head_information(sent) is Ok
    &&& spec_head_fields(ack).1 == Header::HAck
    &&& spec_head_fields(ack).4 == spec_head_fields(sent).4
    &&& spec_head_fields(ack).2 == spec_head_fields(sent).3
}

/// The eight bytes of a 64-bit number, most significant first.
pub open spec fn spec_be_bytes(value: u64) -> Seq<u8> {
    seq![
        ((value >> 56) & 0xff) as u8,
        ((value >> 48) & 0xff) as u8,
        ((value >> 40) & 0xff) as u8,
        ((value >> 32) & 0xff) as u8,
        ((value >> 24) & 0xff) as u8,
        ((value >> 16) & 0xff) as u8,
        ((value >> 8) & 0xff) as u8,
        (value & 0xff) as u8,
    ]
}

/// Each of the eight bytes of a number is a byte.
proof fn lemma_byte_range(value: u64)
    by (bit_vector)
    ensures
        (value >> 56) & 0xff < 256,
        (value >> 48) & 0xff < 256,
        (value >> 40) & 0xff < 256,
        (value >> 32) & 0xff < 256,
        (value >> 24) & 0xff < 256,
        (value >> 16) & 0xff < 256,
        (value >> 8) & 0xff < 256,
        value & 0xff < 256,
{
}

/// A number that is put together from eight bytes holds those bytes.
proof fn lemma_compose(
    value: u64,
    b0: u8,
    b1: u8,
    b2: u8,
    b3: u8,
    b4: u8,
    b5: u8,
    b6: u8,
    b7: u8,
)
    by (bit_vector)
    requires
        value == ((b0 as u64) << 56) | ((b1 as u64) << 48) | ((b2 as u64) << 40) | ((b3 as u64)
            << 32) | ((b4 as u64) << 24) | ((b5 as u64) << 16) | ((b6 as u64) << 8) | (b7 as u64),
    ensures
        (value >> 56) & 0xff == b0,
        (value >> 48) & 0xff == b1,
        (value >> 40) & 0xff == b2,
        (value >> 32) & 0xff == b3,
        (value >> 24) & 0xff == b4,
        (value >> 16) & 0xff == b5,
        (value >> 8) & 0xff == b6,
        value & 0xff == b7,
{
}

/// Masks cut out small numbers, and the top byte splits into the type
/// and the six bits below it.
proof fn lemma_masks(value: u64)
    by (bit_vector)
    ensures
        value & 0xffff < 0x10000,
        value & 0xff < 0x100,
        value & 0x3f < 0x40,
        value & 0x3 < 0x4,
        (value >> 62) & 0x3 == ((value >> 56) & 0xff) / 64,
        (value >> 56) & 0x3f == ((value >> 56) & 0xff) % 64,
{
}

/// Two bits above six bits are four times 64 values.
proof fn lemma_two_and_six_bits(val2bit: u8, val6bit: u8)
    by (bit_vector)
    ensures
        (0u8 | ((val2bit << 6u8) & 0xc0u8)) | (val6bit & 0x3fu8) == (val2bit % 4) * 64 + val6bit
            % 64,
{
}

/// Clearing the two top bits leaves the six bits below them and the
/// seven other bytes.
proof fn lemma_clear_type(value: u64, cleared: u64)
    by (bit_vector)
    requires
        cleared == value & !(0x3u64 << 62),
    ensures
        (cleared >> 56) & 0xff == ((value >> 56) & 0xff) % 64,
        (cleared >> 48) & 0xff == (value >> 48) & 0xff,
        (cleared >> 40) & 0xff == (value >> 40) & 0xff,
        (cleared >> 32) & 0xff == (value >> 32) & 0xff,
        (cleared >> 24) & 0xff == (value >> 24) & 0xff,
        (cleared >> 16) & 0xff == (value >> 16) & 0xff,
        (cleared >> 8) & 0xff == (value >> 8) & 0xff,
        cleared & 0xff == value & 0xff,
{
}

/// Setting type bits changes the top byte and no other.
proof fn lemma_set_type(value: u64, code: u64, marked: u64)
    by (bit_vector)
    requires
        code < 4,
        marked == value | (code << 62),
    ensures
        ((marked >> 56) & 0xff) as u8 == (((value >> 56) & 0xff) as u8) | ((code * 64) as u8),
        ((value >> 56) & 0xff) < 64 ==> (marked >> 56) & 0xff == code * 64 + ((value >> 56)
            & 0xff),
        (marked >> 48) & 0xff == (value >> 48) & 0xff,
        (marked >> 40) & 0xff == (value >> 40) & 0xff,
        (marked >> 32) & 0xff == (value >> 32) & 0xff,
        (marked >> 24) & 0xff == (value >> 24) & 0xff,
        (marked >> 16) & 0xff == (value >> 16) & 0xff,
        (marked >> 8) & 0xff == (value >> 8) & 0xff,
        marked & 0xff == value & 0xff,
{
}

/// Clearing the last byte and writing it anew leaves the seven bytes
/// before it.
proof fn lemma_replace_last_byte(value: u64, last: u64, replaced: u64)
    by (bit_vector)
    requires
        last < 256,
        replaced == (value & !0xffu64) | last,
    ensures
        (replaced >> 56) & 0xff == (value >> 56) & 0xff,
        (replaced >> 48) & 0xff == (value >> 48) & 0xff,
        (replaced >> 40) & 0xff == (value >> 40) & 0xff,
        (replaced >> 32) & 0xff == (value >> 32) & 0xff,
        (replaced >> 24) & 0xff == (value >> 24) & 0xff,
        (replaced >> 16) & 0xff == (value >> 16) & 0xff,
        (replaced >> 8) & 0xff == (value >> 8) & 0xff,
        replaced & 0xff == last,
        (value & !0xffu64) & 0xff == 0,
        ((value & !0xffu64) >> 56) & 0xff == (value >> 56) & 0xff,
        ((value & !0xffu64) >> 48) & 0xff == (value >> 48) & 0xff,
        ((value & !0xffu64) >> 40) & 0xff == (value >> 40) & 0xff,
        ((value & !0xffu64) >> 32) & 0xff == (value >> 32) & 0xff,
        ((value & !0xffu64) >> 24) & 0xff == (value >> 24) & 0xff,
        ((value & !0xffu64) >> 16) & 0xff == (value >> 16) & 0xff,
        ((value & !0xffu64) >> 8) & 0xff == (value >> 8) & 0xff,
{
}

/// A zero at the end adds nothing to the sum.
pub proof fn lemma_sum_ignores_final_zero(bytes: Seq<u8>)
    ensures
        spec_wrapping_sum(bytes.push(0)) == spec_wrapping_sum(bytes),
{
    assert(bytes.push(0).drop_last() =~= bytes);
}

/// The checksum of a frame that was completed by `spec_seal` is its
/// last byte.
pub proof fn lemma_sealed_frame_is_sound(seven: Seq<u8>)
    requires
        seven.len() == 7,
    ensures
        spec_sound(spec_seal(seven)),
        spec_seal(seven).subrange(0, 7) == seven,
{
    assert(spec_seal(seven).subrange(0, 7) =~= seven);
}

/// Zeros add up to zero.
pub proof fn lemma_sum_of_zeros(n: nat)
    ensures
        spec_wrapping_sum(Seq::new(n, |i: int| 0u8)) == 0,
    decreases n,
{
    if n > 0 {
        lemma_sum_of_zeros((n - 1) as nat);
        assert(Seq::new(n, |i: int| 0u8).drop_last() =~= Seq::new((n - 1) as nat, |i: int| 0u8));
    }
}

/// A head frame reads back as what it was made from.
pub proof fn lemma_head_frame_reads_back(
    length: u8,
    header: Header,
    source: Id,
    destination: Id,
    packet_id: u8,
)
    ensures
        spec_head_information(spec_head_frame(length, header, source, destination, packet_id))
            == Ok::<(u8, Header, Id, Id, u8), NetworkError>(
            ((length % 64) as u8, header, source, destination, packet_id),
        ),
{
    let seven = seq![
        (64 + length % 64) as u8,
        header.code(),
        (source / 256) as u8,
        (source % 256) as u8,
        (destination / 256) as u8,
        (destination % 256) as u8,
        packet_id,
    ];
    lemma_sealed_frame_is_sound(seven);
    let frame = spec_head_frame(length, header, source, destination, packet_id);
    assert(frame[0] == seven[0]);
    assert(frame[1] == seven[1]);
    assert(frame[2] == seven[2]);
    assert(frame[3] == seven[3]);
    assert(frame[4] == seven[4]);
    assert(frame[5] == seven[5]);
    assert(frame[6] == seven[6]);
}

/// A frame that carries a message reads back as what it was made from.
pub proof fn lemma_message_frame_reads_back(flit_type: FlitType, flit_id: u8, message: Seq<u8>)
    requires
        flit_type != FlitType::Head,
        message.len() >= 6,
    ensures
        spec_message_information(spec_message_frame(flit_type, flit_id, message)) == Ok::<
            (FlitType, u8, Seq<u8>),
            NetworkError,
        >((flit_type, (flit_id % 64) as u8, message.subrange(0, 6))),
{
    let seven = seq![(flit_type.code() * 64 + flit_id % 64) as u8] + message.subrange(0, 6);
    lemma_sealed_frame_is_sound(seven);
    let frame = spec_message_frame(flit_type, flit_id, message);
    assert(frame[0] == seven[0]);
    assert(frame.subrange(1, 7) =~= message.subrange(0, 6));
}

/// A frame that reads as a flit has the checksum of its first seven
/// bytes as its last byte.
pub proof fn lemma_flits_that_read_are_sound(frame: Seq<u8>)
    ensures
        spec_head_information(frame) is Ok ==> frame[7] == spec_wrapping_sum(frame.subrange(0, 7)),
        spec_message_information(frame) is Ok ==> frame[7] == spec_wrapping_sum(
            frame.subrange(0, 7),
        ),
{
}

impl View for Flit {
    type V = Seq<u8>;

    closed spec fn view(&self) -> Seq<u8> {
        spec_be_bytes(self.0)
    }
}

impl Flit {
    /// A flit has eight bytes.
    pub proof fn lemma_frame_length(self)
        ensures
            self@.len() == 8,
    {
    }

    pub fn to_be_bytes(&self) -> (bytes: [u8; 8])
        ensures
            bytes@ == self@,
    {
        let value = self.0;
        proof {
            lemma_byte_range(value);
        }
        let bytes: [u8; 8] = [
            ((value >> 56) & 0xff) as u8,
            ((value >> 48) & 0xff) as u8,
            ((value >> 40) & 0xff) as u8,
            ((value >> 32) & 0xff) as u8,
            ((value >> 24) & 0xff) as u8,
            ((value >> 16) & 0xff) as u8,
            ((value >> 8) & 0xff) as u8,
            (value & 0xff) as u8,
        ];
        assert(bytes@ =~= self@);
        bytes
    }

    pub fn from_be_bytes(bytes: [u8; 8]) -> (flit: Flit)
        ensures
            flit@ == bytes@,
    {
        let value: u64 = ((bytes[0] as u64) << 56) | ((bytes[1] as u64) << 48) | ((bytes[2] as u64)
            << 40) | ((bytes[3] as u64) << 32) | ((bytes[4] as u64) << 24) | ((bytes[5] as u64)
            << 16) | ((bytes[6] as u64) << 8) | (bytes[7] as u64);
        let flit = Flit(value);
        proof {
            lemma_compose(
                value,
                bytes[0],
                bytes[1],
                bytes[2],
                bytes[3],
                bytes[4],
                bytes[5],
                bytes[6],
                bytes[7],
            );
            assert(flit@ =~= bytes@);
        }
        flit
    }

    /// Two bits and six bits, packed into one byte. Higher bits of the
    /// arguments are dropped.
    pub fn set_2_6bits(val2bit: u8, val6bit: u8) -> (r: u8)
        ensures
            r == (val2bit % 4) * 64 + val6bit % 64,
    {
        proof {
            lemma_two_and_six_bits(val2bit, val6bit);
        }
        let mut data: u8 = 0;
        data |= (val2bit << 6) & 0b11000000;
        data |= val6bit & 0b00111111;
        data
    }

    /// The sum of the eight bytes modulo 256.
    pub fn calculate_checksum(flitbyte: &[u8; 8]) -> (sum: u8)
        ensures
            sum == spec_wrapping_sum(flitbyte@),
    {
        let mut sum: u8 = 0;
        let mut i: usize = 0;
        while i < 8
            invariant
                i <= 8,
                sum == spec_wrapping_sum(flitbyte@.subrange(0, i as int)),
            decreases 8 - i,
        {
            assert(flitbyte@.subrange(0, i + 1).drop_last() =~= flitbyte@.subrange(0, i as int));
            sum = sum.wrapping_add(flitbyte[i]);
            i += 1;
        }
        assert(flitbyte@.subrange(0, 8) =~= flitbyte@);
        sum
    }

    /// The flit of the given seven bytes and their checksum.
    fn seal(seven: [u8; 7]) -> (flit: Flit)
        ensures
            flit@ == spec_seal(seven@),
    {
        let open: [u8; 8] = [
            seven[0],
            seven[1],
            seven[2],
            seven[3],
            seven[4],
            seven[5],
            seven[6],
            0,
        ];
        let checksum = Self::calculate_checksum(&open);
        proof {
            assert(open@ =~= seven@.push(0));
            lemma_sum_ignores_final_zero(seven@);
        }
        let sealed: [u8; 8] = [
            seven[0],
            seven[1],
            seven[2],
            seven[3],
            seven[4],
            seven[5],
            seven[6],
            checksum,
        ];
        assert(sealed@ =~= spec_seal(seven@));
        Flit::from_be_bytes(sealed)
    }

    /// The head flit of a packet of `len_of_flit` flits.
    pub fn make_head_flit(
        len_of_flit: u8,
        header: Header,
        source_id: Id,
        destination_id: Id,
        packet_id: u8,
    ) -> (flit: Flit)
        ensures
            flit@ == spec_head_frame(len_of_flit, header, source_id, destination_id, packet_id),
            spec_sound(flit@),
    {
        let seven: [u8; 7] = [
            Self::set_2_6bits(FlitType::Head.to_u8(), len_of_flit),
            header.to_u8(),
            (source_id / 256) as u8,
            (source_id % 256) as u8,
            (destination_id / 256) as u8,
            (destination_id % 256) as u8,
            packet_id,
        ];
        proof {
            assert(seven@ =~= seq![
                (64 + len_of_flit % 64) as u8,
                header.code(),
                (source_id / 256) as u8,
                (source_id % 256) as u8,
                (destination_id / 256) as u8,
                (destination_id % 256) as u8,
                packet_id,
            ]);
            lemma_sealed_frame_is_sound(seven@);
        }
        Self::seal(seven)
    }

    pub fn make_body_or_tail_flit(flittype: FlitType, flit_id: u8, message: [u8; 6]) -> (flit:
        Flit)
        ensures
            flit@ == spec_message_frame(flittype, flit_id, message@),
            spec_sound(flit@),
    {
        let seven: [u8; 7] = [
            Self::set_2_6bits(flittype.to_u8(), flit_id),
            message[0],
            message[1],
            message[2],
            message[3],
            message[4],
            message[5],
        ];
        proof {
            assert(seven@ =~= seq![(flittype.code() * 64 + flit_id % 64) as u8]
                + message@.subrange(0, 6));
            lemma_sealed_frame_is_sound(seven@);
        }
        Self::seal(seven)
    }

    pub fn make_body_flit(flit_id: u8, message: [u8; 6]) -> (flit: Flit)
        ensures
            flit@ == spec_message_frame(FlitType::Body, flit_id, message@),
            spec_sound(flit@),
    {
        Self::make_body_or_tail_flit(FlitType::Body, flit_id, message)
    }

    pub fn make_tail_flit(flit_id: u8, message: [u8; 6]) -> (flit: Flit)
        ensures
            flit@ == spec_message_frame(FlitType::Tail, flit_id, message@),
            spec_sound(flit@),
    {
        Self::make_body_or_tail_flit(FlitType::Tail, flit_id, message)
    }

    /// The flit that says nothing: eight zero bytes.
    pub fn make_nope_flit() -> (flit: Flit)
        ensures
            flit@ == Seq::new(8, |i: int| 0u8),
            spec_sound(flit@),
            spec_flit_type(flit@) == FlitType::Nope,
    {
        let flit = Flit::from_be_bytes([0, 0, 0, 0, 0, 0, 0, 0]);
        proof {
            assert(flit@ =~= Seq::new(8, |i: int| 0u8));
            reveal_with_fuel(spec_wrapping_sum, 8);
            assert(flit@.subrange(0, 7) =~= seq![0u8, 0u8, 0u8, 0u8, 0u8, 0u8, 0u8]);
            lemma_sum_of_zeros(7);
        }
        flit
    }

    /// Sets the two type bits to zero and leaves the checksum as it is.
    pub fn clear_flit_type(flit: &mut Flit)
        ensures
            final(flit)@ == old(flit)@.update(0, (old(flit)@[0] % 64) as u8),
    {
        proof {
            lemma_clear_type(flit.0, flit.0 & !(0x3u64 << 62));
            lemma_byte_range(flit.0);
            lemma_byte_range(flit.0 & !(0x3u64 << 62));
        }
        flit.0 = flit.0 & !(0b11u64 << 62);
        assert(flit@ =~= old(flit)@.update(0, (old(flit)@[0] % 64) as u8));
    }

    /// Sets the type bits that the type has set and leaves the checksum
    /// as it is. On type bits that are zero this writes the type.
    pub fn set_flit_type(flit: &mut Flit, flit_type: FlitType)
        ensures
            final(flit)@ == old(flit)@.update(
                0,
                old(flit)@[0] | ((flit_type.code() * 64) as u8),
            ),
            old(flit)@[0] < 64 ==> final(flit)@ == old(flit)@.update(
                0,
                (flit_type.code() * 64 + old(flit)@[0]) as u8,
            ),
    {
        let code: u64 = flit_type.to_u8() as u64;
        proof {
            lemma_set_type(flit.0, code, flit.0 | (code << 62));
            lemma_byte_range(flit.0);
            lemma_byte_range(flit.0 | (code << 62));
        }
        flit.0 = flit.0 | (code << 62);
        assert(flit@ =~= old(flit)@.update(0, old(flit)@[0] | ((flit_type.code() * 64) as u8)));
    }

    /// Gives the flit another type and the checksum that goes with it.
    /// The other 54 bits stay.
    pub fn change_flit_type(flit: &mut Flit, flit_type: FlitType)
        ensures
            final(flit)@ == spec_seal(
                old(flit)@.subrange(0, 7).update(
                    0,
                    (flit_type.code() * 64 + old(flit)@[0] % 64) as u8,
                ),
            ),
            spec_sound(final(flit)@),
    {
        Self::clear_flit_type(flit);
        Self::set_flit_type(flit, flit_type);
        let ghost typed = flit@;
        let ghost seven = typed.subrange(0, 7);
        proof {
            lemma_replace_last_byte(flit.0, 0, (flit.0 & !0xffu64) | 0);
            lemma_byte_range(flit.0);
            lemma_byte_range(flit.0 & !0xffu64);
        }
        flit.0 = flit.0 & !0xffu64;
        assert(flit@ =~= seven.push(0));
        let sum = Self::calculate_checksum(&flit.to_be_bytes());
        proof {
            lemma_sum_ignores_final_zero(seven);
            let open = flit.0;
            assert(open & !0xffu64 == open) by (bit_vector)
                requires
                    open & 0xff == 0,
            ;
            lemma_replace_last_byte(open, sum as u64, open | (sum as u64));
            lemma_byte_range(open);
            lemma_byte_range(open | (sum as u64));
        }
        flit.0 = flit.0 | (sum as u64);
        proof {
            assert(flit@ =~= spec_seal(seven));
            assert(seven =~= old(flit)@.subrange(0, 7).update(
                0,
                (flit_type.code() * 64 + old(flit)@[0] % 64) as u8,
            ));
            lemma_sealed_frame_is_sound(seven);
        }
    }

    /// Sixteen bits of `val`, the lowest of them at bit `start`.
    pub fn get_u16_from_u64(val: u64, start: u8) -> (r: u16)
        requires
            start < 64,
        ensures
            r == (val >> (start as u64)) & 0xffff,
    {
        proof {
            lemma_masks(val >> (start as u64));
        }
        ((val >> (start as u64)) & 0xffff) as u16
    }

    /// Eight bits of `val`, the lowest of them at bit `start`.
    pub fn get_u8_from_u64(val: u64, start: u8) -> (r: u8)
        requires
            start < 64,
        ensures
            r == (val >> (start as u64)) & 0xff,
    {
        proof {
            lemma_masks(val >> (start as u64));
        }
        ((val >> (start as u64)) & 0xff) as u8
    }

    /// Two bits of `val`, the lower of them at bit `start`.
    pub fn get_2bits_from_u64(val: u64, start: u8) -> (r: u8)
        requires
            start < 64,
        ensures
            r == (val >> (start as u64)) & 0x3,
    {
        proof {
            lemma_masks(val >> (start as u64));
        }
        ((val >> (start as u64)) & 0b11) as u8
    }

    /// Six bits of `val`, the lowest of them at bit `start`.
    pub fn get_6bits_from_u64(val: u64, start: u8) -> (r: u8)
        requires
            start < 64,
        ensures
            r == (val >> (start as u64)) & 0x3f,
    {
        proof {
            lemma_masks(val >> (start as u64));
        }
        ((val >> (start as u64)) & 0b111111) as u8
    }

    /// The type of the flit and the six bits that follow it. This never
    /// fails: two bits always spell a type.
    pub fn get_flit_type_and_length(flit: &Flit) -> (r: Result<(FlitType, u8), NetworkError>)
        ensures
            r == Ok::<(FlitType, u8), NetworkError>(
                (spec_flit_type(flit@), spec_low_six(flit@) as u8),
            ),
    {
        proof {
            lemma_masks(flit.0);
            lemma_byte_range(flit.0);
        }
        let flit_type = FlitType::from_bits(Flit::get_2bits_from_u64(flit.0, 62));
        let flit_length = Flit::get_6bits_from_u64(flit.0, 56);
        assert(flit_type.code() == spec_type_code(flit@));
        Ok((flit_type, flit_length))
    }

    /// The checksum that the first seven bytes of a frame call for.
    fn checksum_of(bytes: &[u8; 8]) -> (sum: u8)
        ensures
            sum == spec_checksum(bytes@),
    {
        let mut sum: u8 = 0;
        let mut i: usize = 0;
        while i <= 6
            invariant
                i <= 7,
                sum == spec_wrapping_sum(bytes@.subrange(0, i as int)),
            decreases 7 - i,
        {
            assert(bytes@.subrange(0, i + 1).drop_last() =~= bytes@.subrange(0, i as int));
            sum = sum.wrapping_add(bytes[i]);
            i += 1;
        }
        sum
    }

    /// Reads a head flit: (number of flits, header, source,
    /// destination, packet id).
    pub fn get_head_information(flit: &Flit) -> (r: Result<(u8, Header, Id, Id, u8), NetworkError>)
        ensures
            r == spec_head_information(flit@),
    {
        let bytes: [u8; 8] = flit.to_be_bytes();
        let (flit_type, length_of_flit) = match Flit::get_flit_type_and_length(flit) {
            Ok(pair) => pair,
            Err(e) => {
                return Err(e);
            },
        };
        if flit_type != FlitType::Head {
            return Err(NetworkError::UnexpectedFlitType);
        }
        let header = match Header::try_from_primitive(bytes[1]) {
            Ok(header) => header,
            Err(e) => {
                return Err(e);
            },
        };
        let source_id: u16 = bytes[2] as u16 * 256 + bytes[3] as u16;
        let destination_id: u16 = bytes[4] as u16 * 256 + bytes[5] as u16;
        let packet_id = bytes[6];
        let checksum = bytes[7];
        let sum = Self::checksum_of(&bytes);
        if sum == checksum {
            Ok((length_of_flit, header, source_id, destination_id, packet_id))
        } else {
            Err(NetworkError::ChecksumMismatch)
        }
    }

    /// Reads a flit that carries a message: (type, flit id, message).
    pub fn get_body_or_tail_information(flit: &Flit) -> (r: Result<
        (FlitType, u8, [u8; 6]),
        NetworkError,
    >)
        ensures
            match spec_message_information(flit@) {
                Ok((flit_type, flit_id, message)) => r matches Ok(got) && got.0 == flit_type
                    && got.1 == flit_id && got.2@ == message,
                Err(e) => r == Err::<(FlitType, u8, [u8; 6]), NetworkError>(e),
            },
    {
        let bytes: [u8; 8] = flit.to_be_bytes();
        let (flit_type, flit_id) = match Flit::get_flit_type_and_length(flit) {
            Ok(pair) => pair,
            Err(e) => {
                return Err(e);
            },
        };
        if flit_type == FlitType::Head {
            return Err(NetworkError::UnexpectedFlitType);
        }
        let message = [bytes[1], bytes[2], bytes[3], bytes[4], bytes[5], bytes[6]];
        let checksum = bytes[7];
        let sum = Self::checksum_of(&bytes);
        if checksum == sum {
            assert(message@ =~= flit@.subrange(1, 7));
            Ok((flit_type, flit_id, message))
        } else {
            Err(NetworkError::ChecksumMismatch)
        }
    }

    /// The header that the second byte of the flit names. Whether the
    /// flit is a head flit is not looked at.
    pub fn get_header(&self) -> (r: Result<Header, NetworkError>)
        ensures
            match Header::of_code(self@[1]) {
                Some(header) => r == Ok::<Header, NetworkError>(header),
                None => r == Err::<Header, NetworkError>(NetworkError::UnknownHeader),
            },
    {
        let header = Self::get_u8_from_u64(self.0, 48);
        Header::try_from_primitive(header)
    }

    /// The acknowledgement of a head flit: a head flit with the
    /// acknowledgement header and the same source, destination and
    /// packet id.
    pub fn make_ack_flit(flit: &Flit) -> (r: Result<Flit, NetworkError>)
        ensures
            match spec_head_information(flit@) {
                Ok(head) => r matches Ok(ack) && ack@ == spec_head_frame(
                    0,
                    Header::HAck,
                    head.2,
                    head.3,
                    head.4,
                ),
                Err(e) => r matches Err(got) && got == e,
            },
    {
        match Flit::get_head_information(flit) {
            Ok((_, _, source_id, destination_id, packet_id)) => Ok(
                Self::make_head_flit(0, Header::HAck, source_id, destination_id, packet_id),
            ),
            Err(e) => Err(e),
        }
    }

    /// Whether `ack_flit` acknowledges `sent_flit`. Both must read
    /// as head flits: what is wrong with the first is reported before
    /// what is wrong with the second.
    pub fn check_ack_flit(ack_flit: Flit, sent_flit: Flit) -> (r: Result<bool, NetworkError>)
        ensures
            match (spec_head_information(ack_flit@), spec_head_information(sent_flit@)) {
                (Err(e), _) => r == Err::<bool, NetworkError>(e),
                (Ok(_), Err(e)) => r == Err::<bool, NetworkError>(e),
                (Ok(_), Ok(_)) => r == Ok::<bool, NetworkError>(
                    spec_acknowledges(ack_flit@, sent_flit@),
                ),
            },
    {
        let (_, header, source_id, _, packet_id) = match Flit::get_head_information(&ack_flit) {
            Ok(head) => head,
            Err(e) => {
                return Err(e);
            },
        };
        let (_, _, _, sent_destination_id, sent_packet_id) =
            match Flit::get_head_information(&sent_flit) {
            Ok(head) => head,
            Err(e) => {
                return Err(e);
            },
        };
        if header != Header::HAck {
            return Ok(false);
        }
        if sent_packet_id != packet_id {
            return Ok(false);
        }
        if sent_destination_id != source_id {
            return Ok(false);
        }
        Ok(true)
    }
}

} // verus!
