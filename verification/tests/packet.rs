use longshot::protocol::command::{
    DecodeError, EncodeError, MonitorRequestVersion, Request, Response, StateRequest,
};
use longshot::protocol::packet;
use longshot::protocol::packet::{
    checksum, packetize, EcamDriverPacket, EcamPacket, MAX_PAYLOAD_LEN,
};

fn from_hex_str(s: &str) -> Vec<u8> {
    hex::decode(s.replace(' ', "")).unwrap()
}

#[test]
fn test_checksum() {
    assert_eq!(
        checksum(&from_hex_str("0d 0f 83 f0 02 01 01 00 67 02 02 00 00 06")),
        [0x77, 0xff]
    );
    assert_eq!(
        checksum(&from_hex_str("0d 0d 83 f0 05 01 01 00 78 00 00 06")),
        [0xc4, 0x7e]
    );
    assert_eq!(checksum(&from_hex_str("0d 07 84 0f 02 01")), [0x55, 0x12]);
}

#[test]
fn test_packetize() {
    assert_eq!(
        packetize(&from_hex_str("83 f0 02 01 01 00 67 02 02 00 00 06")),
        from_hex_str("0d 0f 83 f0 02 01 01 00 67 02 02 00 00 06 77 ff")
    );
    assert_eq!(
        packetize(&from_hex_str("83 f0 05 01 01 00 78 00 00 06")),
        from_hex_str("0d 0d 83 f0 05 01 01 00 78 00 00 06 c4 7e")
    );
    assert_eq!(
        packetize(&from_hex_str("84 0f 02 01")),
        from_hex_str("0d 07 84 0f 02 01 55 12")
    );
}

#[test]
fn checksum_of_nothing_is_the_seed() {
    assert_eq!(checksum(&[]), [0x1d, 0x0f]);
}

#[test]
fn checksum_of_single_bytes() {
    assert_eq!(checksum(&[0x00]), [0xcc, 0x9c]);
    assert_eq!(checksum(&[0xff]), [0xd2, 0x6c]);
}

#[test]
fn checksum_gives_the_same_result_twice() {
    let buffer = from_hex_str("0d 05 75 0f");
    assert_eq!(checksum(&buffer), checksum(&buffer));
    assert_eq!(checksum(&buffer), [0xda, 0x25]);
}

#[test]
fn packetize_empty_payload() {
    assert_eq!(packetize(&[]), from_hex_str("0d 03 c2 ff"));
}

#[test]
fn packetize_monitor_requests() {
    assert_eq!(packetize(&[0x75, 0x0f]), from_hex_str("0d 05 75 0f da 25"));
    assert_eq!(packetize(&[0x60, 0x0f]), from_hex_str("0d 05 60 0f 26 a3"));
}

#[test]
fn packetize_layout_holds_for_many_payloads() {
    for len in [0usize, 1, 2, 3, 17, 100, 251, 252] {
        let payload: Vec<u8> = (0..len).map(|i| (i * 7 + 3) as u8).collect();
        let out = packetize(&payload);
        assert_eq!(out.len(), len + 4);
        assert_eq!(out[0], 0x0d);
        assert_eq!(out[1] as usize, len + 3);
        assert_eq!(&out[2..len + 2], &payload[..]);
        assert_eq!(&out[len + 2..], &checksum(&out[..len + 2])[..]);
    }
}

#[test]
fn packetize_largest_payload() {
    let payload: Vec<u8> = (0..MAX_PAYLOAD_LEN).map(|i| i as u8).collect();
    let out = packetize(&payload);
    assert_eq!(out.len(), 256);
    assert_eq!(&out[..2], &[0x0d, 0xff]);
    assert_eq!(&out[254..], &[0xc2, 0x3a]);
}

#[test]
fn stringify_is_lower_case_hex() {
    assert_eq!(packet::stringify(&[]), "");
    assert_eq!(packet::stringify(&[0x0d, 0xff, 0x00, 0xa5]), "0dff00a5");
    assert_eq!(packet::stringify(&[0x09, 0x0a, 0x9f, 0xf0]), "090a9ff0");
    let all: Vec<u8> = (0..=255u8).collect();
    assert_eq!(packet::stringify(&all), hex::encode(&all));
}

#[test]
fn driver_packet_keeps_its_bytes() {
    let bytes = from_hex_str("84 0f 02 01");
    let from_slice = EcamDriverPacket::from_slice(&bytes);
    let from_vec = EcamDriverPacket::from_vec(bytes.clone());
    assert_eq!(from_slice, from_vec);
    assert_eq!(from_slice.bytes, bytes);
    assert_eq!(from_vec.stringify(), "840f0201");
    assert_eq!(from_vec.packetize(), from_hex_str("0d 07 84 0f 02 01 55 12"));
}

#[test]
fn packet_from_bytes_holds_both_forms() {
    let bytes = from_hex_str("01 02 03");
    let packet = EcamPacket::<Response>::from_bytes(&bytes).unwrap();
    assert_eq!(packet.bytes, bytes);
    assert_eq!(packet.representation, Response::Raw);
    assert_eq!(
        EcamPacket::<Response>::from_bytes(&[]),
        Err(DecodeError::Truncated)
    );
}

#[test]
fn packet_from_representation_holds_the_encoding() {
    let packet =
        EcamPacket::from_represenation(Request::Monitor(MonitorRequestVersion::V1)).unwrap();
    assert_eq!(packet.bytes, vec![0x70, 0x0f]);
    assert!(matches!(
        packet.representation,
        Request::Monitor(MonitorRequestVersion::V1)
    ));
    let refused = EcamPacket::from_represenation(Request::State(StateRequest::TurnOff));
    assert!(matches!(refused, Err(EncodeError::EncodingNotSupported)));
}
