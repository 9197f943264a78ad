use network_node::error::NetworkError;
use network_node::flit::{Flit, FlitType, MAX_FLIT_LENGTH};
use network_node::header::Header;

fn wrapping_sum(bytes: &[u8]) -> u8 {
    let mut sum: u8 = 0;
    for byte in bytes {
        sum = sum.wrapping_add(*byte);
    }
    sum
}

#[test]
fn test_set_2_6bits() {
    assert_eq!(Flit::set_2_6bits(0b01, 0b111111), 0b01111111);
    assert_eq!(Flit::set_2_6bits(0b10, 0b111111), 0b10111111);
    assert_eq!(Flit::set_2_6bits(0b11, 0b000000), 0b11000000);
    assert_eq!(Flit::set_2_6bits(FlitType::Head as u8, 0), 0b01000000);
}

#[test]
fn test_simple_head_flit() {
    // make head flit
    let flit = Flit::make_head_flit(0, Header::Data, 0, 1, 0);
    assert_eq!(Header::Data as u8, 0b00000000);

    let (flit_type, length_of_flit) = Flit::get_flit_type_and_length(&flit).unwrap();
    assert_eq!(
        flit_type,
        FlitType::Head,
        "fail get_flit_type: flit {:064b}",
        u64::from_be_bytes(flit.to_be_bytes())
    );
    assert_eq!(
        length_of_flit,
        0,
        "fail get_flit_type: flit {:064b}",
        u64::from_be_bytes(flit.to_be_bytes())
    );

    let (length_of_flit, header, source_id, destination_id, packet_id) =
        Flit::get_head_information(&flit).unwrap();
    assert_eq!(length_of_flit, 0);
    assert_eq!(header, Header::Data);
    assert_eq!(source_id, 0);
    assert_eq!(destination_id, 1);
    assert_eq!(packet_id, 0);
}

#[test]
fn test_simple_body_or_tail_information() {
    // body flit
    let flit = Flit::make_body_flit(0, [0; 6]);
    let (flit_type, flit_id, message) = Flit::get_body_or_tail_information(&flit).unwrap();
    assert_eq!(flit_type, FlitType::Body);
    assert_eq!(flit_id, 0);
    assert_eq!(message, [0; 6]);
    let flit = Flit::make_body_flit(0b111111, [0, 1, 2, 3, 4, 5]);
    let (flit_type, flit_id, message) = Flit::get_body_or_tail_information(&flit).unwrap();
    assert_eq!(flit_type, FlitType::Body);
    assert_eq!(flit_id, 0b111111);
    assert_eq!(message, [0, 1, 2, 3, 4, 5]);

    // tail flit
    let flit = Flit::make_tail_flit(0, [0; 6]);
    let (flit_type, flit_id, message) = Flit::get_body_or_tail_information(&flit).unwrap();
    assert_eq!(flit_type, FlitType::Tail);
    assert_eq!(flit_id, 0);
    assert_eq!(message, [0; 6]);

    let flit = Flit::make_tail_flit(0b111111, [0, 1, 2, 3, 4, 5]);
    let (flit_type, flit_id, message) = Flit::get_body_or_tail_information(&flit).unwrap();
    assert_eq!(flit_type, FlitType::Tail);
    assert_eq!(flit_id, 0b111111);
    assert_eq!(message, [0, 1, 2, 3, 4, 5]);
}

#[test]
fn test_get_header() {
    let flit = Flit::make_head_flit(0, Header::Data, 0, 1, 0);
    assert_eq!(flit.get_header().unwrap(), Header::Data);
    let flit = Flit::make_head_flit(0, Header::HCheckConnection, 0, 1, 0);
    assert_eq!(flit.get_header().unwrap(), Header::HCheckConnection);
}

#[test]
fn test_get_flit_type_and_length() {
    let flit = Flit::make_head_flit(0, Header::Data, 0, 1, 0);

    let (flit_type, length_of_flit) = Flit::get_flit_type_and_length(&flit).unwrap();
    assert_eq!(flit_type, FlitType::Head);
    assert_eq!(length_of_flit, 0);

    let flit = Flit::make_body_flit(0, [0; 6]);
    let (flit_type, length_of_flit) = Flit::get_flit_type_and_length(&flit).unwrap();
    assert_eq!(flit_type, FlitType::Body);
    assert_eq!(length_of_flit, 0);

    let flit = Flit::make_tail_flit(0, [0; 6]);
    let (flit_type, length_of_flit) = Flit::get_flit_type_and_length(&flit).unwrap();
    assert_eq!(flit_type, FlitType::Tail);
    assert_eq!(length_of_flit, 0);
}

#[test]
fn test_loader_utils() {
    assert_eq!(Flit::get_2bits_from_u64(0b001111, 3), 0b01, "fail get_2bits");
    assert_eq!(Flit::get_2bits_from_u64(0b001111, 0), 0b11, "fail get_2bits");
    assert_eq!(
        Flit::get_6bits_from_u64(0b111110011, 1),
        0b111001,
        "fail get_6bits"
    );
    assert_eq!(
        Flit::get_u8_from_u64(0b010100101110011111, 3),
        0b01110011,
        "fail get_u8"
    );
    assert_eq!(
        Flit::get_u16_from_u64(0b11111101111110110111, 2),
        0b1111011111101101,
        "fail get_u16"
    );
}

#[test]
fn test_flit_type() {}

#[test]
fn test_flit_loader_head() {}

#[test]
fn test_random_flit() {}

#[test]
fn head_flit_bytes_are_laid_out_most_significant_first() {
    let flit = Flit::make_head_flit(0, Header::Data, 0x0000, 0x0001, 0);
    let bytes = flit.to_be_bytes();
    assert_eq!(&bytes[0..7], &[0x40, 0x00, 0x00, 0x00, 0x00, 0x01, 0x00]);
    // The checksum is the wrapping sum of the seven bytes before it.
    assert_eq!(bytes[7], 0x41);
    assert_eq!(
        Flit::get_head_information(&flit).unwrap(),
        (0, Header::Data, 0, 1, 0)
    );

    let flit = Flit::make_head_flit(63, Header::HAck, 0x1234, 0xABCD, 0xEE);
    let bytes = flit.to_be_bytes();
    assert_eq!(
        &bytes[0..7],
        &[0x40 | 63, 10, 0x12, 0x34, 0xAB, 0xCD, 0xEE]
    );
    assert_eq!(bytes[7], wrapping_sum(&bytes[0..7]));
    assert_eq!(
        Flit::get_head_information(&flit).unwrap(),
        (63, Header::HAck, 0x1234, 0xABCD, 0xEE)
    );
}

#[test]
fn length_of_a_head_flit_keeps_six_bits() {
    let flit = Flit::make_head_flit(MAX_FLIT_LENGTH + 3, Header::Data, 1, 2, 3);
    let (flit_type, length) = Flit::get_flit_type_and_length(&flit).unwrap();
    assert_eq!(flit_type, FlitType::Head);
    assert_eq!(length, 3);
}

#[test]
fn body_flit_bytes_are_laid_out_most_significant_first() {
    let flit = Flit::make_body_flit(5, [10, 20, 30, 40, 50, 250]);
    let bytes = flit.to_be_bytes();
    assert_eq!(bytes, [0x80 | 5, 10, 20, 30, 40, 50, 250, 0x80u8.wrapping_add(5 + 10 + 20 + 30 + 40 + 50).wrapping_add(250)]);
    let flit = Flit::make_tail_flit(62, [1, 2, 3, 4, 5, 6]);
    let bytes = flit.to_be_bytes();
    assert_eq!(bytes[0], 0xC0 | 62);
    assert_eq!(bytes[7], wrapping_sum(&bytes[0..7]));
}

#[test]
fn checksum_is_the_wrapping_sum_of_the_first_seven_bytes() {
    let headers = [
        Header::Data,
        Header::GeneralAck,
        Header::Error,
        Header::HCheckConnection,
        Header::HRequestConfirmedCoordinate,
        Header::ConfirmCoordinate,
        Header::SendParentId,
        Header::ReceiveParentId,
        Header::SendChildId,
        Header::ReceiveChildId,
        Header::HAck,
    ];
    for (n, header) in headers.iter().enumerate() {
        let n = n as u16;
        let flit = Flit::make_head_flit(
            (n * 7 % 64) as u8,
            *header,
            n.wrapping_mul(4099),
            0xFFFF - n * 257,
            (n * 23) as u8,
        );
        let bytes = flit.to_be_bytes();
        assert_eq!(bytes[7], wrapping_sum(&bytes[0..7]));
        let flit = Flit::make_body_flit(n as u8, [n as u8, 255, 254, 253, 1, 2]);
        let bytes = flit.to_be_bytes();
        assert_eq!(bytes[7], wrapping_sum(&bytes[0..7]));
    }
    let nope = Flit::make_nope_flit();
    assert_eq!(nope.to_be_bytes(), [0; 8]);
}

#[test]
fn calculate_checksum_sums_all_eight_bytes() {
    assert_eq!(Flit::calculate_checksum(&[0; 8]), 0);
    assert_eq!(Flit::calculate_checksum(&[1, 2, 3, 4, 5, 6, 7, 8]), 36);
    assert_eq!(Flit::calculate_checksum(&[255, 255, 0, 0, 0, 0, 0, 3]), 1);
}

#[test]
fn bytes_round_trip() {
    let bytes = [0x12, 0x34, 0x56, 0x78, 0x9A, 0xBC, 0xDE, 0xF0];
    assert_eq!(Flit::from_be_bytes(bytes).to_be_bytes(), bytes);
    let bytes = [0xFF; 8];
    assert_eq!(Flit::from_be_bytes(bytes).to_be_bytes(), bytes);
}

#[test]
fn a_flit_with_a_wrong_checksum_is_rejected() {
    let mut bytes = Flit::make_head_flit(1, Header::HCheckConnection, 7, 0xFFFF, 9).to_be_bytes();
    bytes[7] = bytes[7].wrapping_add(1);
    let flit = Flit::from_be_bytes(bytes);
    assert_eq!(
        Flit::get_head_information(&flit),
        Err(NetworkError::ChecksumMismatch)
    );
    let mut bytes = Flit::make_body_flit(1, [1, 2, 3, 4, 5, 6]).to_be_bytes();
    bytes[3] ^= 0x10;
    let flit = Flit::from_be_bytes(bytes);
    assert_eq!(
        Flit::get_body_or_tail_information(&flit).map(|_| ()),
        Err(NetworkError::ChecksumMismatch)
    );
}

#[test]
fn a_flit_of_the_wrong_type_is_rejected() {
    let body = Flit::make_body_flit(1, [0; 6]);
    assert_eq!(
        Flit::get_head_information(&body),
        Err(NetworkError::UnexpectedFlitType)
    );
    let head = Flit::make_head_flit(1, Header::Data, 0, 0, 0);
    assert_eq!(
        Flit::get_body_or_tail_information(&head).map(|_| ()),
        Err(NetworkError::UnexpectedFlitType)
    );
    assert_eq!(
        Flit::get_head_information(&Flit::make_nope_flit()),
        Err(NetworkError::UnexpectedFlitType)
    );
}

#[test]
fn a_head_flit_with_an_unknown_header_is_rejected() {
    // A head flit with the header byte 11 and a fitting checksum.
    let mut bytes = [0x41, 11, 0, 0, 0, 1, 0, 0];
    bytes[7] = wrapping_sum(&bytes[0..7]);
    let flit = Flit::from_be_bytes(bytes);
    assert_eq!(
        Flit::get_head_information(&flit),
        Err(NetworkError::UnknownHeader)
    );
    assert_eq!(flit.get_header(), Err(NetworkError::UnknownHeader));
    assert_eq!(Header::try_from_primitive(10), Ok(Header::HAck));
    assert_eq!(
        Header::try_from_primitive(255),
        Err(NetworkError::UnknownHeader)
    );
}

#[test]
fn header_bytes_follow_the_order_of_the_headers() {
    assert_eq!(Header::Data.to_u8(), 0);
    assert_eq!(Header::GeneralAck.to_u8(), 1);
    assert_eq!(Header::Error.to_u8(), 2);
    assert_eq!(Header::HCheckConnection.to_u8(), 3);
    assert_eq!(Header::HRequestConfirmedCoordinate.to_u8(), 4);
    assert_eq!(Header::ConfirmCoordinate.to_u8(), 5);
    assert_eq!(Header::SendParentId.to_u8(), 6);
    assert_eq!(Header::ReceiveParentId.to_u8(), 7);
    assert_eq!(Header::SendChildId.to_u8(), 8);
    assert_eq!(Header::ReceiveChildId.to_u8(), 9);
    assert_eq!(Header::HAck.to_u8(), 10);
    for code in 0..=10u8 {
        assert_eq!(Header::try_from_primitive(code).unwrap().to_u8(), code);
        assert_eq!(Header::try_from_primitive(code).unwrap() as u8, code);
    }
}

#[test]
fn headers_say_whether_they_stand_alone_and_want_an_acknowledgement() {
    let table = [
        (Header::Data, false, true),
        (Header::GeneralAck, false, true),
        (Header::Error, false, true),
        (Header::HCheckConnection, true, false),
        (Header::HRequestConfirmedCoordinate, true, false),
        (Header::ConfirmCoordinate, false, false),
        (Header::SendParentId, false, true),
        (Header::ReceiveParentId, false, true),
        (Header::SendChildId, false, true),
        (Header::ReceiveChildId, false, true),
        (Header::HAck, true, false),
    ];
    for (header, only_head, require_ack) in table {
        assert_eq!(header.is_only_head(), only_head, "{:?}", header);
        assert_eq!(header.is_require_ack(), require_ack, "{:?}", header);
    }
}

#[test]
fn change_flit_type_keeps_the_rest_and_renews_the_checksum() {
    let mut flit = Flit::make_body_flit(9, [1, 2, 3, 4, 5, 6]);
    Flit::change_flit_type(&mut flit, FlitType::Tail);
    assert_eq!(
        flit.to_be_bytes(),
        Flit::make_tail_flit(9, [1, 2, 3, 4, 5, 6]).to_be_bytes()
    );
    let (flit_type, flit_id, message) = Flit::get_body_or_tail_information(&flit).unwrap();
    assert_eq!(flit_type, FlitType::Tail);
    assert_eq!(flit_id, 9);
    assert_eq!(message, [1, 2, 3, 4, 5, 6]);

    Flit::change_flit_type(&mut flit, FlitType::Body);
    assert_eq!(
        flit.to_be_bytes(),
        Flit::make_body_flit(9, [1, 2, 3, 4, 5, 6]).to_be_bytes()
    );
}

#[test]
fn clear_and_set_flit_type_touch_the_two_top_bits() {
    let mut flit = Flit::make_tail_flit(33, [9, 8, 7, 6, 5, 4]);
    let before = flit.to_be_bytes();
    Flit::clear_flit_type(&mut flit);
    let cleared = flit.to_be_bytes();
    assert_eq!(cleared[0], 33);
    assert_eq!(&cleared[1..], &before[1..]);
    Flit::set_flit_type(&mut flit, FlitType::Body);
    let set = flit.to_be_bytes();
    assert_eq!(set[0], 0x80 | 33);
    assert_eq!(&set[1..], &before[1..]);
    // Bits that are set stay set.
    Flit::set_flit_type(&mut flit, FlitType::Head);
    let set = flit.to_be_bytes();
    assert_eq!(set[0], 0xC0 | 33);
    assert_eq!(&set[1..], &before[1..]);
    Flit::set_flit_type(&mut flit, FlitType::Nope);
    assert_eq!(flit.to_be_bytes(), set);
}

#[test]
fn an_acknowledgement_keeps_source_destination_and_packet_id() {
    let flit = Flit::make_head_flit(4, Header::Data, 0x0102, 0x0304, 77);
    let ack = Flit::make_ack_flit(&flit).unwrap();
    assert_eq!(
        Flit::get_head_information(&ack).unwrap(),
        (0, Header::HAck, 0x0102, 0x0304, 77)
    );
    let body = Flit::make_body_flit(1, [0; 6]);
    assert_eq!(
        Flit::make_ack_flit(&body).map(|_| ()),
        Err(NetworkError::UnexpectedFlitType)
    );
}

#[test]
fn an_acknowledgement_is_checked_against_the_flit_it_answers() {
    let sent = Flit::make_head_flit(4, Header::Data, 0x0102, 0x0304, 77);
    // It comes from the unit that the flit was sent to.
    let ack = Flit::make_head_flit(0, Header::HAck, 0x0304, 0x0102, 77);
    assert_eq!(Flit::check_ack_flit(ack, sent), Ok(true));
    // Another packet id.
    let other = Flit::make_head_flit(0, Header::HAck, 0x0304, 0x0102, 78);
    assert_eq!(Flit::check_ack_flit(other, sent), Ok(false));
    // Another source.
    let other = Flit::make_head_flit(0, Header::HAck, 0x0305, 0x0102, 77);
    assert_eq!(Flit::check_ack_flit(other, sent), Ok(false));
    // Another header.
    let other = Flit::make_head_flit(0, Header::GeneralAck, 0x0304, 0x0102, 77);
    assert_eq!(Flit::check_ack_flit(other, sent), Ok(false));
    // No head flit at all.
    let body = Flit::make_body_flit(1, [0; 6]);
    assert_eq!(
        Flit::check_ack_flit(body, sent),
        Err(NetworkError::UnexpectedFlitType)
    );
    assert_eq!(
        Flit::check_ack_flit(ack, body),
        Err(NetworkError::UnexpectedFlitType)
    );
}
