use network_node::error::NetworkError;
use network_node::flit::Flit;
use network_node::header::Header;
use network_node::link::{
    Polled, SendStep, ACK_DELAY_MILLIS, ACK_EMISSIONS, ACK_POLLS, MAX_POLLS, POLL_DELAY_MILLIS,
};
use network_node::packet::{Packet, ToId};

/// A link that hands back what was written to it, last frame first.
struct TestSerial {
    data: Vec<[u8; 8]>,
}

impl TestSerial {
    fn new() -> Self {
        Self { data: Vec::new() }
    }

    fn send(&mut self, data: &[u8; 8]) {
        self.data.push(*data);
    }

    fn receive(&mut self) -> Option<[u8; 8]> {
        self.data.pop()
    }
}

/// Sends a flit as a driver does, without waiting between the steps.
fn send_flit(flit: &Flit, serial: &mut TestSerial, is_ack: bool) -> Result<(), NetworkError> {
    let (mut transmission, mut step) = flit.send(is_ack);
    loop {
        match step {
            SendStep::EmitAndFinish(bytes) => {
                serial.send(&bytes);
                return Ok(());
            }
            SendStep::EmitAndPoll(bytes) => {
                serial.send(&bytes);
                step = transmission.receive(serial.receive())?;
            }
            SendStep::Poll => {
                step = transmission.receive(serial.receive())?;
            }
            SendStep::Done => return Ok(()),
        }
    }
}

/// Receives a packet as a driver does, without waiting between the
/// steps.
fn receive_packet(serial: &mut TestSerial, this_id: u16) -> Result<Option<Packet>, NetworkError> {
    let first = match Flit::receive(serial.receive())? {
        Some(received) => {
            if let Some(ack) = received.ack {
                serial.send(&ack.to_be_bytes());
            }
            received.flit
        }
        None => return Ok(None),
    };
    let mut reception = match Packet::receive(first, this_id)? {
        Some(reception) => reception,
        None => return Ok(None),
    };
    while reception.missing() > 0 {
        let mut waiting = Flit::wait_receive();
        let flit = loop {
            match waiting.poll(serial.receive())? {
                Polled::Again => {}
                Polled::Ready(received) => break received.flit,
            }
        };
        reception.push(flit);
    }
    Ok(Some(reception.finish()?))
}

#[test]
fn test_for_flit_with_display() {
    let ip_address = 0;
    let header = Header::HCheckConnection;
    let flit = Flit::make_head_flit(0, header, ip_address, 0xFF, 0);
    let (length_of_flit, header, source_id, destination_id, packet_id) =
        Flit::get_head_information(&flit).unwrap();
    assert_eq!(length_of_flit, 0);
    assert_eq!(header, Header::HCheckConnection);
    assert_eq!(source_id, 0);
    assert_eq!(destination_id, 0xFF);
    assert_eq!(packet_id, 0);

    let mut serial = TestSerial::new();
    send_flit(&flit, &mut serial, header.is_require_ack()).unwrap();
    println!("flit in serial: {:?}", serial.data[0]);

    match Flit::receive(serial.receive()) {
        Ok(data) => {
            if let Some(data) = data {
                if let Ok((len, head, src, dst, pid)) = Flit::get_head_information(&data.flit) {
                    assert_eq!(len, 0);
                    assert_eq!(head, Header::HCheckConnection);
                    assert_eq!(src, 0);
                    assert_eq!(dst, 0xFF);
                    assert_eq!(pid, 0);
                } else {
                    panic!("the flit is no head flit");
                }
            } else {
                panic!("data is None");
            }
        }
        Err(e) => {
            panic!("error: {:?}", e);
        }
    }
}

#[test]
fn test_send() {
    let mut serial = TestSerial::new();
    let packet_data = [].to_vec();
    let packet = Packet::new(
        1,
        Header::HCheckConnection,
        5,
        ToId::Broadcast,
        5,
        ToId::Broadcast,
        packet_data,
    );
    for (mut transmission, mut step) in packet.send() {
        loop {
            match step {
                SendStep::EmitAndFinish(bytes) => {
                    serial.send(&bytes);
                    break;
                }
                SendStep::EmitAndPoll(bytes) => {
                    serial.send(&bytes);
                    step = transmission
                        .receive(serial.receive())
                        .expect("failed to send packet");
                }
                SendStep::Poll => {
                    step = transmission
                        .receive(serial.receive())
                        .expect("failed to send packet");
                }
                SendStep::Done => break,
            }
        }
    }

    let received = match receive_packet(&mut serial, 4).expect("failed to receive packet") {
        Some(packet) => packet,
        None => panic!("failed to receive packet"),
    };
    assert_eq!(packet, received);
}

#[test]
fn a_packet_of_ones_own_is_passed_over() {
    let mut serial = TestSerial::new();
    let packet = Packet::make_check_connection_packet(5);
    for flit in packet.to_flits() {
        send_flit(&flit, &mut serial, false).unwrap();
    }
    assert!(receive_packet(&mut serial, 5).unwrap().is_none());
    // And an empty link gives nothing.
    assert!(receive_packet(&mut serial, 4).unwrap().is_none());
}

#[test]
fn a_packet_with_a_payload_goes_over_the_link_flit_by_flit() {
    let packet = Packet::new(
        8,
        Header::ConfirmCoordinate,
        1,
        ToId::Broadcast,
        1,
        ToId::Broadcast,
        vec![1, 2, 3, 4, 5, 6, 7, 8, 9, 10],
    );
    let transmissions = packet.send();
    assert_eq!(transmissions.len(), 4);
    let mut frames: Vec<[u8; 8]> = Vec::new();
    for (_, step) in transmissions {
        match step {
            // This header asks for no acknowledgement.
            SendStep::EmitAndFinish(bytes) => frames.push(bytes),
            _ => panic!("one emission is all"),
        }
    }
    // The first frame is to come in first.
    frames.reverse();
    let mut serial = TestSerial { data: frames };
    let received = receive_packet(&mut serial, 2).unwrap().unwrap();
    assert_eq!(received, packet);
}

#[test]
fn a_frame_that_is_read_is_checked() {
    assert!(Flit::receive(None).unwrap().is_none());
    // A nope flit is passed over.
    assert!(Flit::receive(Some([0; 8])).unwrap().is_none());
    assert!(Flit::receive(Some([0x3F, 1, 2, 3, 4, 5, 6, 7])).unwrap().is_none());
    // A body flit with a wrong checksum.
    let mut bytes = Flit::make_body_flit(3, [1, 2, 3, 4, 5, 6]).to_be_bytes();
    assert!(Flit::receive(Some(bytes)).unwrap().unwrap().ack.is_none());
    bytes[7] ^= 1;
    assert_eq!(
        Flit::receive(Some(bytes)).map(|_| ()),
        Err(NetworkError::ChecksumMismatch)
    );
    // A head flit with a wrong checksum, and one with an unknown header.
    let mut bytes = Flit::make_head_flit(1, Header::HAck, 1, 2, 3).to_be_bytes();
    bytes[7] ^= 1;
    assert_eq!(
        Flit::receive(Some(bytes)).map(|_| ()),
        Err(NetworkError::ChecksumMismatch)
    );
    let bytes = [0x41, 99, 0, 0, 0, 0, 0, 0x41u8.wrapping_add(99)];
    assert_eq!(
        Flit::receive(Some(bytes)).map(|_| ()),
        Err(NetworkError::UnknownHeader)
    );
}

#[test]
fn a_head_flit_that_asks_for_it_is_acknowledged() {
    let flit = Flit::make_head_flit(3, Header::Data, 0x0A, 0x0B, 0x0C);
    let received = Flit::receive(Some(flit.to_be_bytes())).unwrap().unwrap();
    assert_eq!(received.flit.to_be_bytes(), flit.to_be_bytes());
    let ack = received.ack.unwrap();
    assert_eq!(
        Flit::get_head_information(&ack).unwrap(),
        (0, Header::HAck, 0x0A, 0x0B, 0x0C)
    );
    assert_eq!(
        flit.process_ack().unwrap().unwrap().to_be_bytes(),
        ack.to_be_bytes()
    );

    for header in [
        Header::HCheckConnection,
        Header::HRequestConfirmedCoordinate,
        Header::ConfirmCoordinate,
        Header::HAck,
    ] {
        let flit = Flit::make_head_flit(1, header, 1, 2, 3);
        assert!(Flit::receive(Some(flit.to_be_bytes())).unwrap().unwrap().ack.is_none());
        assert!(flit.process_ack().unwrap().is_none());
    }
    // Flits of other types are not answered.
    assert!(Flit::make_body_flit(1, [0; 6]).process_ack().unwrap().is_none());
    assert!(Flit::make_nope_flit().process_ack().unwrap().is_none());
    // A head flit that cannot be read is an error.
    let bytes = [0x41, 99, 0, 0, 0, 0, 0, 0x41u8.wrapping_add(99)];
    assert_eq!(
        Flit::from_be_bytes(bytes).process_ack().map(|_| ()),
        Err(NetworkError::UnknownHeader)
    );
    let mut bytes = Flit::make_head_flit(3, Header::Data, 1, 2, 3).to_be_bytes();
    bytes[7] ^= 0x80;
    assert_eq!(
        Flit::from_be_bytes(bytes).process_ack().map(|_| ()),
        Err(NetworkError::ChecksumMismatch)
    );
}

#[test]
fn waiting_for_a_flit_ends_after_a_number_of_readings() {
    assert_eq!(MAX_POLLS, 100);
    assert_eq!(POLL_DELAY_MILLIS, 10);
    let mut waiting = Flit::wait_receive();
    for _ in 0..99 {
        assert!(matches!(waiting.poll(None), Ok(Polled::Again)));
    }
    assert!(matches!(waiting.poll(None), Err(NetworkError::AckTimeout)));

    // A nope flit counts as nothing; a flit ends the wait.
    let mut waiting = Flit::wait_receive();
    assert!(matches!(waiting.poll(Some([0; 8])), Ok(Polled::Again)));
    let flit = Flit::make_tail_flit(4, [1, 1, 1, 1, 1, 1]);
    match waiting.poll(Some(flit.to_be_bytes())) {
        Ok(Polled::Ready(received)) => {
            assert_eq!(received.flit.to_be_bytes(), flit.to_be_bytes());
            assert!(received.ack.is_none());
        }
        other => panic!("no flit: {:?}", other),
    }
    // A damaged flit ends it with an error.
    let mut bytes = flit.to_be_bytes();
    bytes[1] = 9;
    assert!(matches!(
        waiting.poll(Some(bytes)),
        Err(NetworkError::ChecksumMismatch)
    ));
}

#[test]
fn a_flit_without_acknowledgement_is_written_once() {
    let flit = Flit::make_head_flit(1, Header::HCheckConnection, 1, 0xFFFF, 0);
    let (mut transmission, step) = flit.send(false);
    match step {
        SendStep::EmitAndFinish(bytes) => assert_eq!(bytes, flit.to_be_bytes()),
        other => panic!("{:?}", other),
    }
    assert!(matches!(transmission.receive(None), Ok(SendStep::Done)));
}

#[test]
fn the_sender_waits_for_the_acknowledgement_of_the_receiver() {
    assert_eq!(ACK_DELAY_MILLIS, 1);
    let flit = Flit::make_head_flit(3, Header::Data, 0x0A, 0x0B, 0x0C);
    let (mut transmission, step) = flit.send(true);
    match step {
        SendStep::EmitAndPoll(bytes) => assert_eq!(bytes, flit.to_be_bytes()),
        other => panic!("{:?}", other),
    }
    assert!(matches!(transmission.receive(None), Ok(SendStep::Poll)));
    // Another flit, an acknowledgement of another packet, and one that
    // comes from another unit do not end the wait.
    let strangers = [
        Flit::make_body_flit(1, [0; 6]),
        Flit::make_head_flit(0, Header::HAck, 0x0B, 0x0A, 0x0D),
        Flit::make_head_flit(0, Header::HAck, 0x0A, 0x0B, 0x0C),
        Flit::make_head_flit(0, Header::Data, 0x0B, 0x0A, 0x0C),
    ];
    for stranger in strangers {
        assert!(matches!(
            transmission.receive(Some(stranger.to_be_bytes())),
            Ok(SendStep::Poll)
        ));
    }
    // The acknowledgement comes from the unit that the flit went to.
    let ack = Flit::make_head_flit(0, Header::HAck, 0x0B, 0x0A, 0x0C);
    assert!(matches!(
        transmission.receive(Some(ack.to_be_bytes())),
        Ok(SendStep::Done)
    ));
    assert!(matches!(transmission.receive(None), Ok(SendStep::Done)));
}

#[test]
fn the_sender_writes_again_and_then_gives_up() {
    assert_eq!(ACK_POLLS, 100);
    assert_eq!(ACK_EMISSIONS, 2);
    let flit = Flit::make_head_flit(3, Header::Data, 0x0A, 0x0B, 0x0C);
    let (mut transmission, _) = flit.send(true);
    for _ in 0..99 {
        assert!(matches!(transmission.receive(None), Ok(SendStep::Poll)));
    }
    match transmission.receive(None) {
        Ok(SendStep::EmitAndPoll(bytes)) => assert_eq!(bytes, flit.to_be_bytes()),
        other => panic!("{:?}", other),
    }
    for _ in 0..99 {
        assert!(matches!(transmission.receive(None), Ok(SendStep::Poll)));
    }
    assert!(matches!(
        transmission.receive(None),
        Err(NetworkError::AckTimeout)
    ));
    assert!(matches!(transmission.receive(None), Ok(SendStep::Done)));
}

#[test]
fn a_reception_counts_the_flits_that_are_to_come() {
    let packet = Packet::new(
        1,
        Header::Data,
        1,
        ToId::Unicast(2),
        1,
        ToId::Unicast(2),
        vec![5; 7],
    );
    let mut flits = packet.to_flits();
    assert_eq!(flits.len(), 4);
    let mut reception = Packet::receive(flits.remove(0), 2).unwrap().unwrap();
    assert_eq!(reception.missing(), 3);
    reception.push(flits.remove(0));
    assert_eq!(reception.missing(), 2);
    reception.push(flits.remove(0));
    reception.push(flits.remove(0));
    assert_eq!(reception.missing(), 0);
    assert_eq!(reception.finish().unwrap(), packet);

    // It begins with a head flit.
    let body = Flit::make_body_flit(1, [0; 6]);
    assert_eq!(
        Packet::receive(body, 2).map(|_| ()),
        Err(NetworkError::UnexpectedFlitType)
    );
    // What comes in wrong makes no packet.
    let mut flits = packet.to_flits();
    let mut reception = Packet::receive(flits.remove(0), 2).unwrap().unwrap();
    reception.push(flits.remove(1));
    reception.push(flits.remove(0));
    reception.push(flits.remove(0));
    assert_eq!(reception.finish(), Err(NetworkError::UnexpectedFlitType));
}
