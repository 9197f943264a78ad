//! The packets with which units tell each other where they are.
//!
//! The payload of a coordinate report is one byte that says whether
//! the sender knows its own place (`0xFF`) or only passes on what it
//! heard (`0x00`), and then one record of six bytes for each unit:
//! identity word, x and y, each 16 bits with the high byte first.

use vstd::prelude::*;
use crate::error::NetworkError;
use crate::flit::spec_u16;
use crate::header::Header;
use crate::packet::{Packet, PacketView, ToId, END_OF_MESSAGE};
use crate::bootstrap::ConfirmedNeighbor;
use crate::localnet::LocalNetworkLocation;
use crate::utils::type_alias::{Coordinate, Id};
use crate::utils::util::{
    is_neighbor_node_in_localnet, is_same_localnet, spec_neighbor_in_localnet, spec_same_localnet,
};

verus! {

/// The 16 bits that stand for a signed number.
pub open spec fn spec_i16_bits(value: i16) -> int {
    if value < 0 {
        value + 65536
    } else {
        value as int
    }
}

/// The signed number that 16 bits stand for.
pub open spec fn spec_i16_of_bits(bits: int) -> i16 {
    if bits >= 32768 {
        (bits - 65536) as i16
    } else {
        bits as i16
    }
}

/// The six bytes of one record.
pub open spec fn spec_record(row: (Id, Coordinate)) -> Seq<u8> {
    seq![
        (row.0 / 256) as u8,
        (row.0 % 256) as u8,
        (spec_i16_bits(row.1.0) / 256) as u8,
        (spec_i16_bits(row.1.0) % 256) as u8,
        (spec_i16_bits(row.1.1) / 256) as u8,
        (spec_i16_bits(row.1.1) % 256) as u8,
    ]
}

/// The payload of a report with the given records.
pub open spec fn spec_report_payload(confirmed: bool, rows: Seq<(Id, Coordinate)>) -> Seq<u8> {
    Seq::new(
        1 + 6 * rows.len(),
        |i: int|
            if i == 0 {
                if confirmed {
                    0xFFu8
                } else {
                    0u8
                }
            } else {
                spec_record(rows[(i - 1) / 6])[(i - 1) % 6]
            },
    )
}

/// The record with number `n` of a payload.
pub open spec fn spec_row(payload: Seq<u8>, n: int) -> (Id, Coordinate) {
    let at = 1 + 6 * n;
    (
        spec_u16(payload[at], payload[at + 1]) as u16,
        (
            spec_i16_of_bits(spec_u16(payload[at + 2], payload[at + 3])),
            spec_i16_of_bits(spec_u16(payload[at + 4], payload[at + 5])),
        ),
    )
}

/// The records of a payload.
pub open spec fn spec_rows(payload: Seq<u8>) -> Seq<(Id, Coordinate)> {
    Seq::new(((payload.len() - 1) / 6) as nat, |n: int| spec_row(payload, n))
}

/// A report from `source`: it goes to every unit.
pub open spec fn spec_report(source: Id, payload: Seq<u8>) -> PacketView {
    PacketView {
        packet_id: 0,
        header: Header::ConfirmCoordinate,
        from: source,
        to: ToId::Broadcast,
        global_from: source,
        global_to: ToId::Broadcast,
        payload,
    }
}

/// A packet of one head flit from `source` to every unit.
pub open spec fn spec_announcement(header: Header, source: Id) -> PacketView {
    PacketView {
        packet_id: 0,
        header,
        from: source,
        to: ToId::Broadcast,
        global_from: source,
        global_to: ToId::Broadcast,
        payload: Seq::empty(),
    }
}

/// The answer of `source` to a request from `destination`.
pub open spec fn spec_reply(
    source: Id,
    destination: Id,
    rows: Seq<(Id, Coordinate)>,
    place: Option<Coordinate>,
) -> Result<PacketView, NetworkError> {
    if spec_same_localnet(source, destination) {
        Ok(spec_report(source, spec_report_payload(place is Some, rows)))
    } else {
        match place {
            Some(place) => Ok(
                spec_report(source, spec_report_payload(true, seq![(source, place)])),
            ),
            None => Err(NetworkError::BootstrapInconsistent),
        }
    }
}

/// The records that a table passes on: for each report the unit it is
/// about and the place of that unit.
pub open spec fn spec_passed_on(table: Seq<ConfirmedNeighbor>) -> Seq<(Id, Coordinate)> {
    Seq::new(table.len(), |k: int| (table[k].1, table[k].2))
}

/// The answer of a unit that does not know its own place to a request
/// from `destination`: what its table holds, for a unit of its own
/// local net, as long as that fits into one packet. A unit of another
/// local net would not listen, and gets no answer.
pub open spec fn spec_confirm_coordinate(
    source: Id,
    destination: Id,
    table: Seq<ConfirmedNeighbor>,
) -> Option<PacketView> {
    let report = spec_report(source, spec_report_payload(false, spec_passed_on(table)));
    if spec_same_localnet(source, destination) && report.sendable() {
        Some(report)
    } else {
        None
    }
}

/// What the unit `reader` takes from a report.
///
/// The payload must be the first byte and whole records. A sender that
/// does not know its own place is listened to only by its neighbours
/// inside the local net: to every other reader its report is empty. A
/// sender that knows its place must report one record.
pub open spec fn spec_load_report(packet: PacketView, reader: Id) -> Result<
    Seq<(Id, Coordinate)>,
    NetworkError,
> {
    let payload = packet.payload;
    if packet.header.spec_only_head() || payload.len() == 0 || (payload.len() - 1) % 6 != 0 {
        Err(NetworkError::BootstrapInconsistent)
    } else if payload[0] == 0 && !spec_neighbor_in_localnet(packet.global_from, reader) {
        Ok(Seq::empty())
    } else if payload[0] != 0 && spec_rows(payload).len() != 1 {
        Err(NetworkError::BootstrapInconsistent)
    } else {
        Ok(spec_rows(payload))
    }
}

/// The position of the last `0xFF` among the bytes, or 0 where there
/// is none.
pub open spec fn spec_real_length(messages: Seq<u8>) -> int
    decreases messages.len(),
{
    if messages.len() == 0 {
        0
    } else if messages.last() == 0xFFu8 {
        messages.len() - 1
    } else {
        spec_real_length(messages.drop_last())
    }
}

/// Sixteen bits that were made from a signed number stand for that
/// number.
pub proof fn lemma_i16_bits_round_trip(value: i16)
    ensures
        0 <= spec_i16_bits(value) < 65536,
        spec_i16_of_bits(spec_i16_bits(value)) == value,
{
}

/// The records of a payload that was made from records are those
/// records.
pub proof fn lemma_rows_of_report_payload(confirmed: bool, rows: Seq<(Id, Coordinate)>)
    ensures
        spec_rows(spec_report_payload(confirmed, rows)) == rows,
        spec_report_payload(confirmed, rows).len() == 1 + 6 * rows.len(),
        spec_report_payload(confirmed, rows)[0] == if confirmed {
            0xFFu8
        } else {
            0u8
        },
{
    let payload = spec_report_payload(confirmed, rows);
    assert forall|n: int| 0 <= n < rows.len() implies spec_row(payload, n) == rows[n] by {
        let at = 1 + 6 * n;
        let record = spec_record(rows[n]);
        assert((at - 1) / 6 == n && (at - 1) % 6 == 0);
        assert(at / 6 == n && at % 6 == 1);
        assert((at + 1) / 6 == n && (at + 1) % 6 == 2);
        assert((at + 2) / 6 == n && (at + 2) % 6 == 3);
        assert((at + 3) / 6 == n && (at + 3) % 6 == 4);
        assert((at + 4) / 6 == n && (at + 4) % 6 == 5);
        assert(payload[at] == record[0]);
        assert(payload[at + 1] == record[1]);
        assert(payload[at + 2] == record[2]);
        assert(payload[at + 3] == record[3]);
        assert(payload[at + 4] == record[4]);
        assert(payload[at + 5] == record[5]);
        lemma_i16_bits_round_trip(rows[n].1.0);
        lemma_i16_bits_round_trip(rows[n].1.1);
    }
    assert(spec_rows(payload) =~= rows);
}

/// Behind a payload and its end byte, zeros do not move the place of
/// the last `0xFF`.
pub proof fn lemma_real_length_of_stored_payload(payload: Seq<u8>, zeros: Seq<u8>)
    requires
        forall|i: int| 0 <= i < zeros.len() ==> zeros[i] == 0,
    ensures
        spec_real_length(payload.push(0xFFu8) + zeros) == payload.len(),
    decreases zeros.len(),
{
    let all = payload.push(0xFFu8) + zeros;
    if zeros.len() == 0 {
        assert(all =~= payload.push(0xFFu8));
    } else {
        assert(all.last() == zeros.last());
        assert(all.drop_last() =~= payload.push(0xFFu8) + zeros.drop_last());
        lemma_real_length_of_stored_payload(payload, zeros.drop_last());
    }
}

/// The two bytes of a signed 16-bit number, high byte first.
fn i16_to_be_bytes(value: i16) -> (bytes: (u8, u8))
    ensures
        bytes.0 == spec_i16_bits(value) / 256,
        bytes.1 == spec_i16_bits(value) % 256,
{
    let bits: u32 = if value < 0 {
        (value as i32 + 65536) as u32
    } else {
        value as u32
    };
    ((bits / 256) as u8, (bits % 256) as u8)
}

/// The signed 16-bit number of two bytes, high byte first.
fn i16_from_be_bytes(high: u8, low: u8) -> (value: i16)
    ensures
        value == spec_i16_of_bits(spec_u16(high, low)),
{
    let bits: i32 = high as i32 * 256 + low as i32;
    if bits >= 32768 {
        (bits - 65536) as i16
    } else {
        bits as i16
    }
}

/// Appends the six bytes of a record.
fn push_record(messages: &mut Vec<u8>, id: Id, coordinate: Coordinate)
    ensures
        final(messages)@ == old(messages)@ + spec_record((id, coordinate)),
{
    let x = i16_to_be_bytes(coordinate.0);
    let y = i16_to_be_bytes(coordinate.1);
    messages.push((id / 256) as u8);
    messages.push((id % 256) as u8);
    messages.push(x.0);
    messages.push(x.1);
    messages.push(y.0);
    messages.push(y.1);
    assert(messages@ =~= old(messages)@ + spec_record((id, coordinate)));
}

impl Packet {
    /// The probe for a neighbour in another local net.
    pub fn make_check_connection_packet(source: Id) -> (packet: Packet)
        ensures
            packet@ == spec_announcement(Header::HCheckConnection, source),
    {
        Self::new(
            0,
            Header::HCheckConnection,
            source,
            ToId::Broadcast,
            source,
            ToId::Broadcast,
            Vec::new(),
        )
    }

    /// The request that asks every neighbour for the coordinates it
    /// knows.
    pub fn make_request_confirmed_coordinate_packet(source: Id) -> (packet: Packet)
        ensures
            packet@ == spec_announcement(Header::HRequestConfirmedCoordinate, source),
    {
        Self::new(
            0,
            Header::HRequestConfirmedCoordinate,
            source,
            ToId::Broadcast,
            source,
            ToId::Broadcast,
            Vec::new(),
        )
    }

    /// The answer of `source` to a request from `destination`.
    ///
    /// To a unit of its own local net, `source` reports the records in
    /// `coordinate`, and whether it knows its own place. To a unit of
    /// another local net it reports its own place and nothing else; if
    /// it does not know its place, there is no answer.
    pub fn make_reply_for_request_confirmed_coordinate_packet(
        source: Id,
        destination: Id,
        coordinate: &Vec<(Id, Coordinate)>,
        this_coordinate: Option<Coordinate>,
    ) -> (r: Result<Packet, NetworkError>)
        requires
            6 * coordinate.len() + 8 <= usize::MAX,
        ensures
            match spec_reply(source, destination, coordinate@, this_coordinate) {
                Ok(view) => r matches Ok(packet) && packet@ == view,
                Err(e) => r matches Err(got) && got == e,
            },
    {
        if !is_same_localnet(source, destination) {
            return Self::make_reply_for_request_confirmed_coordinate_packet_in_different_localnet(
                source,
                this_coordinate,
            );
        }
        let mut messages: Vec<u8> = Vec::new();
        if this_coordinate.is_some() {
            messages.push(0b11111111);
        } else {
            messages.push(0);
        }
        let mut n: usize = 0;
        while n < coordinate.len()
            invariant
                n <= coordinate.len(),
                messages@ == spec_report_payload(
                    this_coordinate is Some,
                    coordinate@.subrange(0, n as int),
                ),
            decreases coordinate.len() - n,
        {
            let ghost before = messages@;
            let (id, place) = coordinate[n];
            push_record(&mut messages, id, place);
            proof {
                let rows = coordinate@.subrange(0, n as int);
                let more = coordinate@.subrange(0, n + 1);
                let wanted = spec_report_payload(this_coordinate is Some, more);
                assert forall|i: int| 0 <= i < wanted.len() implies messages@[i] == wanted[i] by {
                    if i == 0 {
                        assert(messages@[0] == before[0]);
                    } else if i < 1 + 6 * n {
                        assert(messages@[i] == before[i]);
                        assert(rows[(i - 1) / 6] == more[(i - 1) / 6]);
                    } else {
                        assert((i - 1) / 6 == n);
                        assert((i - 1) % 6 == i - 1 - 6 * n);
                        assert(more[n as int] == coordinate@[n as int]);
                    }
                }
                assert(messages@ =~= wanted);
            }
            n += 1;
        }
        assert(coordinate@.subrange(0, coordinate.len() as int) =~= coordinate@);
        Ok(
            Self::new(
                0,
                Header::ConfirmCoordinate,
                source,
                ToId::Broadcast,
                source,
                ToId::Broadcast,
                messages,
            ),
        )
    }

    /// The answer of `source` to a request from another local net:
    /// its own place, if it knows it.
    pub fn make_reply_for_request_confirmed_coordinate_packet_in_different_localnet(
        source: Id,
        this_coordinate: Option<Coordinate>,
    ) -> (r: Result<Packet, NetworkError>)
        ensures
            match this_coordinate {
                None => r matches Err(e) && e == NetworkError::BootstrapInconsistent,
                Some(place) => r matches Ok(packet) && packet@ == spec_report(
                    source,
                    spec_report_payload(true, seq![(source, place)]),
                ),
            },
    {
        let place = match this_coordinate {
            Some(place) => place,
            None => {
                return Err(NetworkError::BootstrapInconsistent);
            },
        };
        let mut messages: Vec<u8> = Vec::new();
        messages.push(0b11111111);
        push_record(&mut messages, source, place);
        proof {
            let wanted = spec_report_payload(true, seq![(source, place)]);
            assert forall|i: int| 0 <= i < wanted.len() implies messages@[i] == wanted[i] by {
                if i > 0 {
                    assert((i - 1) / 6 == 0);
                    assert((i - 1) % 6 == i - 1);
                }
            }
            assert(messages@ =~= wanted);
        }
        Ok(
            Self::new(
                0,
                Header::ConfirmCoordinate,
                source,
                ToId::Broadcast,
                source,
                ToId::Broadcast,
                messages,
            ),
        )
    }

    /// The position of the last `0xFF` in the stored messages, or 0
    /// where there is none. For a packet with a payload this is the
    /// length of the payload.
    pub fn get_real_messages_length(&self) -> (length: usize)
        ensures
            length == spec_real_length(self@.messages()),
            !self@.header.spec_only_head() ==> length == self@.payload.len(),
    {
        let messages = self.get_ref_messages();
        let mut length: usize = 0;
        let mut i: usize = 0;
        while i < messages.len()
            invariant
                i <= messages.len(),
                length == spec_real_length(messages@.subrange(0, i as int)),
            decreases messages.len() - i,
        {
            assert(messages@.subrange(0, i + 1).drop_last() =~= messages@.subrange(0, i as int));
            if messages[i] == END_OF_MESSAGE {
                length = i;
            }
            i += 1;
        }
        proof {
            assert(messages@.subrange(0, messages.len() as int) =~= messages@);
            if !self@.header.spec_only_head() {
                let zeros = seq![0u8, 0u8, 0u8, 0u8, 0u8, 0u8];
                assert(self@.messages() =~= self@.payload.push(0xFFu8) + zeros);
                lemma_real_length_of_stored_payload(self@.payload, zeros);
            }
        }
        length
    }

    /// What the unit `source_id` takes from this report.
    pub fn load_confirmed_coordinate_packet(&self, source_id: Id) -> (r: Result<
        Vec<(Id, Coordinate)>,
        NetworkError,
    >)
        ensures
            match spec_load_report(self@, source_id) {
                Ok(rows) => r matches Ok(got) && got@ == rows,
                Err(e) => r matches Err(got) && got == e,
            },
    {
        if self.get_header().is_only_head() {
            return Err(NetworkError::BootstrapInconsistent);
        }
        let messages = self.get_ref_messages();
        let length = self.get_real_messages_length();
        let ghost payload = self@.payload;
        assert(forall|i: int| 0 <= i < length ==> messages@[i] == payload[i]);
        // One byte, then six for each record.
        if length == 0 || (length - 1) % 6 != 0 {
            return Err(NetworkError::BootstrapInconsistent);
        }
        let is_confirmed = messages[0] != 0;
        if !is_confirmed && !is_neighbor_node_in_localnet(self.get_global_from(), source_id) {
            return Ok(Vec::new());
        }
        let count: usize = (length - 1) / 6;
        if is_confirmed && count != 1 {
            return Err(NetworkError::BootstrapInconsistent);
        }
        let mut coordinates: Vec<(Id, Coordinate)> = Vec::new();
        let mut n: usize = 0;
        while n < count
            invariant
                n <= count,
                count == (length - 1) / 6,
                (length - 1) % 6 == 0,
                length == payload.len(),
                length + 7 == messages@.len(),
                forall|i: int| 0 <= i < length ==> messages@[i] == payload[i],
                coordinates@.len() == n,
                forall|m: int| 0 <= m < n ==> coordinates@[m] == spec_row(payload, m),
            decreases count - n,
        {
            let at: usize = 1 + 6 * n;
            let id: u16 = messages[at] as u16 * 256 + messages[at + 1] as u16;
            let x = i16_from_be_bytes(messages[at + 2], messages[at + 3]);
            let y = i16_from_be_bytes(messages[at + 4], messages[at + 5]);
            coordinates.push((id, (x, y)));
            n += 1;
        }
        assert(coordinates@ =~= spec_rows(payload));
        Ok(coordinates)
    }

    /// The answer of a unit that does not know its own place yet to a
    /// request from `destination`: the reports of its table, if
    /// `destination` is a unit of the same local net and the reports
    /// fit into one packet.
    pub fn make_confirm_coordinate_packet(
        source: Id,
        destination: Id,
        neighbor_confirmed: &Vec<ConfirmedNeighbor>,
    ) -> (r: Option<Packet>)
        ensures
            match spec_confirm_coordinate(source, destination, neighbor_confirmed@) {
                Some(view) => r matches Some(packet) && packet@ == view && packet@.sendable(),
                None => r is None,
            },
    {
        if !is_same_localnet(source, destination) {
            return None;
        }
        // A packet holds 365 bytes: one byte and 60 records.
        if neighbor_confirmed.len() > 60 {
            return None;
        }
        let mut rows: Vec<(Id, Coordinate)> = Vec::new();
        let mut k: usize = 0;
        while k < neighbor_confirmed.len()
            invariant
                k <= neighbor_confirmed.len(),
                rows@ == spec_passed_on(neighbor_confirmed@.subrange(0, k as int)),
            decreases neighbor_confirmed.len() - k,
        {
            let (_, id, place) = neighbor_confirmed[k];
            rows.push((id, place));
            assert(rows@ =~= spec_passed_on(neighbor_confirmed@.subrange(0, k + 1)));
            k += 1;
        }
        assert(neighbor_confirmed@.subrange(0, neighbor_confirmed.len() as int)
            =~= neighbor_confirmed@);
        match Self::make_reply_for_request_confirmed_coordinate_packet(
            source,
            destination,
            &rows,
            None,
        ) {
            Ok(packet) => Some(packet),
            Err(_) => None,
        }
    }

    /// The answer of a unit that knows its own place to a request: one
    /// record, its own. Where the request came from and in which
    /// corner the unit lies do not show in the answer.
    pub fn make_confirm_coordinate_packet_by_confirmed_node(
        source: Id,
        _destination: Id,
        coordinate: Coordinate,
        _global_location: LocalNetworkLocation,
    ) -> (r: Result<Packet, NetworkError>)
        ensures
            r matches Ok(packet) && packet@ == spec_report(
                source,
                spec_report_payload(true, seq![(source, coordinate)]),
            ) && packet@.sendable(),
    {
        Self::make_reply_for_request_confirmed_coordinate_packet_in_different_localnet(
            source,
            Some(coordinate),
        )
    }
}

} // verus!
