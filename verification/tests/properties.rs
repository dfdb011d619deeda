//! Scenario tests for the protocol's stated properties: flag-field
//! consumption, the payload-size selector round trip, both address
//! encodings, beacon parsing, and every decode error.

use compass::error::DecodeError;
use compass::header::{encode_payload_size, read_payload_size, CompassHeader, CompassHeaderFlags};
use compass::header::network::RouteData;
use compass::payload::network::{
    addr_from_micro_mode, addr_from_normal_mode, NetworkInfo, NetworkPayload, NetworkType,
};
use compass::payload::ServicePayload;

#[test]
fn one_byte_flags_consume_one_byte() {
    // Terminator bit of byte 1 set: exactly one byte, no byte-2/3 fields.
    let (flags, consumed) = CompassHeaderFlags::from_bytes_buf(&[0b1010_0101, 0xFF, 0xFF], 0)
        .unwrap();
    assert_eq!(consumed, 1);
    assert_eq!(flags.pidset, 1);
    assert_eq!(flags.refset, 0);
    assert_eq!(flags.api, 1);
    assert_eq!(flags.dtn, 0);
    assert_eq!(flags.adtn, 0);
    assert_eq!(flags.sizelen0, 1);
    assert_eq!(flags.routeset, 0);
    assert_eq!(flags.halt0, 1);
    // Every field of the absent bytes 2 and 3 reads as zero.
    let absent = CompassHeaderFlags { pidset: 1, api: 1, sizelen0: 1, halt0: 1, ..Default::default() };
    assert_eq!(flags, absent);
}

#[test]
fn extension_chain_consumes_two_then_three_bytes() {
    let (flags, consumed) = CompassHeaderFlags::from_bytes_buf(&[0b0010_0101, 0b1001_0000], 0)
        .unwrap();
    assert_eq!(consumed, 2);
    assert_eq!(flags.halt0, 0);
    assert_eq!(flags.halt1, 1);
    assert_eq!(flags.time, 1);

    let (flags, consumed) =
        CompassHeaderFlags::from_bytes_buf(&[0b0010_0101, 0b0001_0000, 0b1000_1000], 0).unwrap();
    assert_eq!(consumed, 3);
    assert_eq!(flags.halt0, 0);
    assert_eq!(flags.halt1, 0);
    assert_eq!(flags.halt2, 1);
    assert_eq!(flags.err, 1);
}

#[test]
fn unterminated_flags_are_malformed() {
    assert_eq!(
        CompassHeaderFlags::from_bytes_buf(&[0b0010_0101, 0b0001_0000, 0b0000_1000], 0),
        Err(DecodeError::MalformedHeader)
    );
    // Too few bytes for the terminator chain.
    assert_eq!(CompassHeaderFlags::from_bytes_buf(&[], 0), Err(DecodeError::MalformedHeader));
    assert_eq!(
        CompassHeaderFlags::from_bytes_buf(&[0b0010_0101], 0),
        Err(DecodeError::MalformedHeader)
    );
    assert_eq!(
        CompassHeaderFlags::from_raw(&[0b0010_0101, 0b0001_0000]),
        Err(DecodeError::MalformedHeader)
    );
}

#[test]
fn payload_size_selector_round_trips() {
    for (selector, size) in [(0u8, 0u32), (1, 0xDEAD_BEEF), (2, 200), (3, 40_000)] {
        let encoded = encode_payload_size(selector, size);
        let expected_len = match selector {
            0 => 0,
            1 => 4,
            2 => 1,
            _ => 2,
        };
        assert_eq!(encoded.len(), expected_len);
        let (decoded, consumed) = read_payload_size(&encoded, 0, selector).unwrap();
        assert_eq!(decoded, size);
        assert_eq!(consumed, expected_len);
    }
}

#[test]
fn normal_mode_addr_size_2_zero_extends() {
    let ((addr, qualifier), consumed) =
        addr_from_normal_mode(&[0x01, 0x02, 0x03, 0x42], 0, 2).unwrap();
    assert_eq!(addr, 0x0003_0201);
    assert!(addr < 0x0100_0000);
    assert_eq!(qualifier, 0x42);
    assert_eq!(consumed, 4);
}

#[test]
fn micro_mode_addr_size_1_splits_six_two() {
    let ((addr, qualifier), consumed) = addr_from_micro_mode(&[0b0100_1001], 0, 1).unwrap();
    assert_eq!(addr, 18); // top 6 bits
    assert_eq!(qualifier, 1); // bottom 2 bits
    assert_eq!(consumed, 1);
}

#[test]
fn beacon_with_one_micro_entry() {
    let (payload, consumed) = NetworkPayload::from_bytes(&[0x00, 0x70, 0x00, 0x1F], 0, 4).unwrap();
    assert_eq!(payload.network_type, NetworkType::Beacon);
    assert_eq!(payload.entries.len(), 1);
    let entry = &payload.entries[0];
    assert_eq!(entry.dtn, 0);
    assert_eq!(entry.active, 1);
    assert_eq!(entry.size_mode, 1);
    assert_eq!(entry.addr_size, 2); // bits 4-3 of 0x70
    assert_eq!(entry.hops, 0);
    assert_eq!(entry.age, 0);
    assert_eq!(entry.addr, (1, 15)); // micro split (4, 4) of 0x1F
    assert_eq!(entry.info, None);
    assert_eq!(consumed, 4);
}

#[test]
fn size_zero_is_ack_and_consumes_nothing() {
    let (payload, consumed) = NetworkPayload::from_bytes(&[0x99, 0x99], 0, 0).unwrap();
    assert_eq!(payload.network_type, NetworkType::ACK);
    assert!(payload.entries.is_empty());
    assert_eq!(consumed, 0);
}

#[test]
fn tag_one_is_request_beacon() {
    let (payload, consumed) = NetworkPayload::from_bytes(&[0x01], 0, 1).unwrap();
    assert_eq!(payload.network_type, NetworkType::RequestBeacon);
    assert!(payload.entries.is_empty());
    assert_eq!(consumed, 1);
}

#[test]
fn unknown_tag_is_rejected() {
    assert_eq!(
        NetworkPayload::from_bytes(&[0x02, 0x70, 0x00, 0x1F], 0, 4),
        Err(DecodeError::UnsupportedNetworkPacketType)
    );
}

#[test]
fn entry_loop_overruns_inexact_declared_size() {
    // Declared size 3 is not a multiple of the 3-byte entry width (plus the
    // tag byte): the final entry reads one byte past the declared boundary.
    let bytes = [0x00, 0x70, 0x00, 0x1F, 0xEE];
    let (payload, consumed) = NetworkPayload::from_bytes(&bytes, 0, 3).unwrap();
    assert_eq!(payload.network_type, NetworkType::Beacon);
    assert_eq!(payload.entries.len(), 1);
    assert_eq!(consumed, 4);
}

#[test]
fn declared_size_of_256_or_more_is_not_truncated() {
    // A declared size past one byte must run through whole: the tag byte is
    // still read, so a bad tag is still rejected, never mistaken for an ACK.
    assert_eq!(
        NetworkPayload::from_bytes(&[0x02], 0, 256),
        Err(DecodeError::UnsupportedNetworkPacketType)
    );
    assert_eq!(
        ServicePayload::parse_network(&[0x02], 0, 256),
        Err(DecodeError::UnsupportedNetworkPacketType)
    );
}

#[test]
fn beacon_with_256_byte_budget_decodes_all_entries() {
    // Tag byte plus 85 three-byte micro-mode entries: exactly 256 bytes.
    let mut bytes: Vec<u8> = vec![0x00];
    for _ in 0..85 {
        bytes.extend_from_slice(&[0x70, 0x00, 0x1F]);
    }
    let (payload, consumed) = NetworkPayload::from_bytes(&bytes, 0, 256).unwrap();
    assert_eq!(payload.network_type, NetworkType::Beacon);
    assert_eq!(payload.entries.len(), 85);
    assert_eq!(consumed, 256);
    assert_eq!(payload.entries[84].addr, (1, 15));
}

#[test]
fn alternate_route_format_is_rejected() {
    // routeset (bit 6) and the terminator (bit 7) set in a 1-byte flag field.
    assert_eq!(
        CompassHeader::from_raw(&[0b1100_0000, 0x00, 0x00, 0x00, 0x00, 0x00, 0x00], 0),
        Err(DecodeError::UnsupportedRouteFormat)
    );
}

#[test]
fn nonzero_api_id_is_rejected() {
    // api flag (bit 2) set, API id byte 7: dispatch has no such service.
    let frame = [0b1000_0100, 0x00, 0x00, 0x01, 0x02, 0x03, 0x04, 0x07];
    assert_eq!(
        compass::packet::ServicePacket::from_bytes(&frame, 0),
        Err(DecodeError::UnsupportedApi)
    );
}

#[test]
fn truncated_frame_is_insufficient_data() {
    // A 1-byte flag field, then the unconditional packet id read runs dry.
    assert_eq!(CompassHeader::from_raw(&[0b1000_0000], 0), Err(DecodeError::InsufficientData));
    // An entry's address bytes run dry mid-read.
    assert_eq!(
        NetworkPayload::from_bytes(&[0x00, 0x49, 0x00, 0x2B], 0, 5),
        Err(DecodeError::InsufficientData)
    );
}

#[test]
fn network_type_values() {
    assert_eq!(NetworkType::ACK.value(), None);
    assert_eq!(NetworkType::Beacon.value(), Some(0));
    assert_eq!(NetworkType::RequestBeacon.value(), Some(1));
    assert_eq!(NetworkType::ExtendedBeacon.value(), Some(5));
}

#[test]
fn network_info_bit_split() {
    let info = NetworkInfo::from_byte(0b1011_1111);
    assert_eq!(info, NetworkInfo { packet_size: 7, speed: 7, dl_only: 0, halt: 1 });
}

#[test]
fn route_data_keeps_insertion_order() {
    let mut route = RouteData { entries: Vec::new() };
    route.add((1, 15));
    route.add((0, 0));
    assert_eq!(route.entries, vec![(1, 15), (0, 0)]);
}

#[test]
fn parse_network_wraps_network_payload() {
    let (payload, consumed) = ServicePayload::parse_network(&[0x01], 0, 1).unwrap();
    match payload {
        ServicePayload::Network(p) => assert_eq!(p.network_type, NetworkType::RequestBeacon),
        other => panic!("{:?}", other),
    }
    assert_eq!(consumed, 1);
}
