use zwift_capture::ZwiftMessage;

fn decode_hex(s: &str) -> Vec<u8> {
    let digits: Vec<u8> = s
        .bytes()
        .map(|b| match b {
            b'0'..=b'9' => b - b'0',
            b'a'..=b'f' => b - b'a' + 10,
            b'A'..=b'F' => b - b'A' + 10,
            _ => panic!("not a hex digit"),
        })
        .collect();
    digits.chunks(2).map(|pair| pair[0] * 16 + pair[1]).collect()
}

const FROM_SERVER_HEX: &str = "08011086d30618d5a3fbcce80520ca154273089dc630109da2fbcce805184220af993a280030d0d0ea0a4096adfd0448e1e13250005800602268b2c9a40170c3a13d780080010f9801958018a0018f808010a80100b80100c001a801cd01ab4a8247d501066f1c46dd01376f34c7e0019dc630e80100f801009502016ccb45980206b00201428b0108c8c1de0110caa2fbcce805188f1020ee923a280030f0f6df0440ec96c60448abeeab01500058a501600068adece1ffffffffffff017090dd3c78018001bd06980190809810a0018f808008a80180a201b001e4cdc8cce805b80100c001b08c01cd0190568147d501be411d46dd01615a39c7e001c8c1de01e80100f801019502c2074a48980206b00200427808fdcdae0110e3a2fbcce805189c06208f8e3a28003098a6a80940c68ad00448fef131500358626088016896a6df0270deee3c780480017f9801918018a0018f808010a801800cb80100c001bc1fcd01e00a8047d501ecf51d46dd012b173ac7e001fdcdae01e80100f801009502774b9a47980206b0020088017f900101980101";

const TO_SERVER_HEX: &str = "0686a9010008011086d30618e1a6fbcce80520ab023a6e0886d30610e1a6fbcce8051800208fac3a2800300040f4fa860548005000584f600068cbd5aa0170c0843d7800800100980195809808a0018f808008a80100b80100c00100cd01ae378847d50119191a46dd01a0d52ec7e00186d306e80100f80100950200000000980206b002001f403176";

#[test]
fn it_works_parse_from_server() {
    let packet_payload = decode_hex(FROM_SERVER_HEX);
    let message = ZwiftMessage::FromServer(&packet_payload);
    let _players = message.get_players().unwrap();
}

#[test]
fn it_works_parse_to_server() {
    let packet_payload = decode_hex(TO_SERVER_HEX);
    let message = ZwiftMessage::ToServer(&packet_payload);
    let players = message.get_players().unwrap();
    assert_eq!(players.len(), 1);
}

#[test]
fn clone_player() {
    let packet_payload = decode_hex(TO_SERVER_HEX);
    let message = ZwiftMessage::ToServer(&packet_payload);
    let player = message.get_players().unwrap().pop().unwrap();
    let _player_copy = player.clone();
}

#[test]
fn from_server_yields_each_entry_in_order() {
    let packet_payload = decode_hex(FROM_SERVER_HEX);
    let message = ZwiftMessage::FromServer(&packet_payload);
    let players = message.get_players().unwrap();
    assert_eq!(players.len(), 3);
    assert_eq!(players[0].id, 795421);
    assert_eq!(players[1].id, 3645640);
    assert_eq!(players[2].id, 2860797);
    assert_eq!(players[0].world_time, 199877382429);
    assert_eq!(players[0].power, 34);
    assert_eq!(players[0].power_up, 15);
    assert_eq!(players[0].cadence, 49);
    assert_eq!(players[1].heartrate, 165);
    assert_eq!(players[1].heading, -494035);
    assert_eq!(players[1].distance, 2063);
    assert_eq!(players[2].climbing, 4);
    assert_eq!(players[2].watching_rider_id, 2860797);
}

#[test]
fn to_server_decodes_the_embedded_entry() {
    let packet_payload = decode_hex(TO_SERVER_HEX);
    let message = ZwiftMessage::ToServer(&packet_payload);
    let players = message.get_players().unwrap();
    assert_eq!(players.len(), 1);
    let player = &players[0];
    assert_eq!(player.id, 108934);
    assert_eq!(player.world_time, 199877383009);
    assert_eq!(player.x_cm, 1200109486);
    assert_eq!(player.y_cm, -953231968);
    assert_eq!(player.heading, 2796235);
    assert_eq!(player.lean, 1000000);
    assert_eq!(player.road_position, 10599796);
    assert_eq!(player.heartrate, 79);
    assert_eq!(player.power_up, 15);
    assert_eq!(player.watching_rider_id, 108934);
    assert_eq!(player.speed_raw, 0);
    assert_eq!(player.cadence, 0);
}

#[test]
fn invalid_server_window_yields_no_records() {
    // A lone continuation byte is no valid varint, so the decode fails.
    let packet_payload: Vec<u8> = vec![0xFF];
    let message = ZwiftMessage::FromServer(&packet_payload);
    let players = message.get_players().unwrap();
    assert_eq!(players.len(), 0);
}

#[test]
fn invalid_client_window_yields_no_records() {
    // Offset 8 is at or past limit 2, no 0x08 byte up to the limit, so the
    // window starts at 0; its first field claims a 64-bit value that the
    // window cannot hold, so the decode fails.
    let packet_payload: Vec<u8> = vec![9, 9, 9, 9, 9, 9];
    let message = ZwiftMessage::ToServer(&packet_payload);
    let players = message.get_players().unwrap();
    assert_eq!(players.len(), 0);
}

#[test]
fn unreliable_header_byte_triggers_scan_fallback() {
    // payload[0] - 1 = 254 is far past limit = 4, so the locator scans and
    // finds 0x08 at index 2; the window [2, 4) is a valid message without an
    // embedded entry, so the one record is all zeros.
    let packet_payload: Vec<u8> = vec![0xFF, 0x00, 0x08, 0x01, 0xAA, 0xBB, 0xCC, 0xDD];
    let message = ZwiftMessage::ToServer(&packet_payload);
    let players = message.get_players().unwrap();
    assert_eq!(players.len(), 1);
    assert_eq!(players[0].id, 0);
    assert_eq!(players[0].world_time, 0);
}

#[test]
fn scan_without_tag_byte_defaults_to_offset_zero() {
    // payload[0] - 1 = 254 is past limit = 4 and no byte up to the limit is
    // 0x08, so the offset defaults to 0; the full truncated window is not a
    // valid message, so the decode fails downstream.
    let packet_payload: Vec<u8> = vec![0xFF, 0x01, 0x02, 0x03, 0x09, 0x09, 0x09, 0x09];
    let message = ZwiftMessage::ToServer(&packet_payload);
    let players = message.get_players().unwrap();
    assert_eq!(players.len(), 0);
}

#[test]
fn empty_server_payload_yields_no_records() {
    let packet_payload: Vec<u8> = Vec::new();
    let message = ZwiftMessage::FromServer(&packet_payload);
    let players = message.get_players().unwrap();
    assert_eq!(players.len(), 0);
}
