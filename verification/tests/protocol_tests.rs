use derp_network::error::{labelled, DerpError};
use derp_network::bytes::{append_bytes, bytes_equal, copy_range};
use derp_network::frame::{
    choose_payload, decode, encode, frame_around, split_frame, FrameType,
};
use derp_network::protocol::{
    contains_text, copy_texts, have_common_feature, keepalive_due, HandshakeState, ProtocolState, ServerInfo,
};
use uuid::Uuid;

fn own_version() -> String {
    ProtocolState::protocol_version()
}

fn server_info_bytes(versions: Vec<String>, features: Vec<String>, keepalive: u32) -> Vec<u8> {
    bincode::serialize(&(
        own_version(),
        Uuid::new_v4().to_string(),
        versions,
        features,
        16384u32,
        keepalive,
    ))
    .unwrap()
}

fn default_feature_list() -> Vec<String> {
    vec!["compression".to_string(), "encryption".to_string(), "ipv6".to_string()]
}

fn awaiting_server_info() -> ProtocolState {
    let mut protocol = ProtocolState::new();
    protocol.start_handshake().unwrap();
    protocol.handle_server_key(vec![0; 32]).unwrap();
    protocol
}

#[test]
fn test_frame_encoding() {
    let protocol = ProtocolState::new();
    let payload = b"test data";
    let frame = protocol.encode_frame(FrameType::Send, payload);

    assert_eq!(frame[0], FrameType::Send.code());
    let len = u32::from_be_bytes([frame[1], frame[2], frame[3], frame[4]]) as usize;
    assert_eq!(&frame[5..5 + len], payload);
}

#[test]
fn test_frame_decoding() {
    let mut frame = vec![FrameType::Send.code()];
    let payload = b"test data";
    frame.extend_from_slice(&(payload.len() as u32).to_be_bytes());
    frame.extend_from_slice(payload);

    let (frame_type, decoded_payload) = ProtocolState::decode_frame(&frame).unwrap();
    assert_eq!(frame_type, FrameType::Send);
    assert_eq!(decoded_payload, payload);
}

#[test]
fn test_compression() {
    let mut protocol = ProtocolState::new();
    protocol.compression_enabled = true;

    let payload = vec![b'a'; 1000];
    let frame = protocol.encode_frame(FrameType::Send, &payload);

    let frame_len = u32::from_be_bytes([frame[1], frame[2], frame[3], frame[4]]) as usize;
    assert!(frame_len < payload.len());

    let (frame_type, decoded_payload) = ProtocolState::decode_frame(&frame).unwrap();
    assert_eq!(frame_type, FrameType::Send);
    assert_eq!(decoded_payload, payload);
}

#[test]
fn test_small_payload_no_compression() {
    let mut protocol = ProtocolState::new();
    protocol.compression_enabled = true;

    let payload = b"small";
    let frame = protocol.encode_frame(FrameType::Send, payload);

    let frame_len = u32::from_be_bytes([frame[1], frame[2], frame[3], frame[4]]) as usize;
    assert_eq!(frame_len, payload.len());

    let (frame_type, decoded_payload) = ProtocolState::decode_frame(&frame).unwrap();
    assert_eq!(frame_type, FrameType::Send);
    assert_eq!(decoded_payload, payload);
}

#[test]
fn test_handshake_flow() {
    let mut protocol = ProtocolState::new();

    let _ = protocol.start_handshake().unwrap();
    assert!(matches!(protocol.handshake_state, HandshakeState::AwaitingServerKey));

    let _ = protocol.handle_server_key(vec![0; 32]).unwrap();
    assert!(matches!(protocol.handshake_state, HandshakeState::AwaitingServerInfo));

    let server_info_data = server_info_bytes(vec![own_version()], default_feature_list(), 30);
    let _ = protocol.handle_server_info(server_info_data).unwrap();

    assert!(matches!(protocol.handshake_state, HandshakeState::Complete));
    assert!(protocol.is_compression_enabled());
}

#[test]
fn send_frame_has_exact_bytes() {
    let frame = encode(FrameType::Send, b"test data", false);
    assert_eq!(frame, vec![6, 0, 0, 0, 9, b't', b'e', b's', b't', b' ', b'd', b'a', b't', b'a']);
    let (frame_type, payload) = decode(&frame).unwrap();
    assert_eq!(frame_type, FrameType::Send);
    assert_eq!(payload, b"test data");
}

#[test]
fn small_payload_stands_verbatim_under_compression() {
    let frame = encode(FrameType::Send, b"small", true);
    assert_eq!(frame, vec![6, 0, 0, 0, 5, b's', b'm', b'a', b'l', b'l']);
    let exactly_threshold = vec![7u8; 64];
    let frame = encode(FrameType::RecvFromPeer, &exactly_threshold, true);
    assert_eq!(frame.len(), 69);
    assert_eq!(&frame[..5], &[7, 0, 0, 0, 64]);
    assert_eq!(&frame[5..], &exactly_threshold[..]);
}

#[test]
fn payload_above_threshold_is_deflated() {
    let payload = vec![9u8; 65];
    let frame = encode(FrameType::Send, &payload, true);
    let body = &frame[5..];
    assert_ne!(body, &payload[..]);
    assert_eq!(body, &miniz_oxide::deflate::compress_to_vec(&payload, 6)[..]);
    assert_eq!(decode(&frame).unwrap(), (FrameType::Send, payload));
}

#[test]
fn length_field_is_big_endian() {
    let payload = vec![0xABu8; 0x0102];
    let frame = frame_around(FrameType::ClientInfo, &payload);
    assert_eq!(&frame[..5], &[3, 0, 0, 1, 2]);
    assert_eq!(frame.len(), 5 + 0x0102);
}

#[test]
fn every_frame_type_round_trips() {
    let types = [
        (FrameType::ServerKey, 1u8),
        (FrameType::ServerInfo, 2),
        (FrameType::ClientInfo, 3),
        (FrameType::Ping, 4),
        (FrameType::Pong, 5),
        (FrameType::Send, 6),
        (FrameType::RecvFromPeer, 7),
    ];
    for (frame_type, code) in types {
        assert_eq!(frame_type.code(), code);
        assert_eq!(FrameType::try_from(code).unwrap(), frame_type);
        let frame = encode(frame_type, b"plain words", false);
        assert_eq!(decode(&frame).unwrap(), (frame_type, b"plain words".to_vec()));
        let empty = encode(frame_type, b"", false);
        assert_eq!(empty, vec![code, 0, 0, 0, 0]);
        assert_eq!(decode(&empty).unwrap(), (frame_type, vec![]));
    }
}

#[test]
fn unknown_frame_types_are_rejected() {
    assert!(matches!(FrameType::try_from(0), Err(DerpError::InvalidProtocol(_))));
    assert!(matches!(FrameType::try_from(8), Err(DerpError::InvalidProtocol(_))));
    assert!(matches!(decode(&[9, 0, 0, 0, 0]), Err(DerpError::InvalidProtocol(_))));
}

#[test]
fn short_and_incomplete_frames_are_rejected() {
    match decode(&[6, 0, 0, 0]) {
        Err(DerpError::InvalidProtocol(text)) => assert_eq!(text, "Frame too short"),
        other => panic!("unexpected {:?}", other),
    }
    match decode(&[6, 0, 0, 0, 3, 1, 2]) {
        Err(DerpError::InvalidProtocol(text)) => assert_eq!(text, "Incomplete frame"),
        other => panic!("unexpected {:?}", other),
    }
    match split_frame(&[]) {
        Err(DerpError::InvalidProtocol(text)) => assert_eq!(text, "Frame too short"),
        other => panic!("unexpected {:?}", other),
    }
}

#[test]
fn trailing_bytes_after_the_body_are_ignored() {
    let (frame_type, payload) = decode(&[6, 0, 0, 0, 2, 10, 20, 30, 40]).unwrap();
    assert_eq!(frame_type, FrameType::Send);
    assert_eq!(payload, vec![10, 20]);
}

#[test]
fn keepalive_bodies_are_never_inflated() {
    let stored_empty_block = [0x01u8, 0x00, 0x00, 0xFF, 0xFF];
    let ping = encode(FrameType::Ping, &stored_empty_block, false);
    assert_eq!(decode(&ping).unwrap(), (FrameType::Ping, stored_empty_block.to_vec()));
    let pong = encode(FrameType::Pong, &stored_empty_block, false);
    assert_eq!(decode(&pong).unwrap(), (FrameType::Pong, stored_empty_block.to_vec()));
}

#[test]
fn raw_payload_that_is_valid_deflate_is_inflated() {
    let stored_empty_block = [0x01u8, 0x00, 0x00, 0xFF, 0xFF];
    let frame = encode(FrameType::Send, &stored_empty_block, false);
    assert_eq!(decode(&frame).unwrap(), (FrameType::Send, vec![]));
}

#[test]
fn fresh_state_machine_defaults() {
    let protocol = ProtocolState::new();
    assert_eq!(protocol.handshake_state, HandshakeState::Initial);
    assert!(!protocol.is_connected());
    assert!(!protocol.is_compression_enabled());
    assert_eq!(protocol.get_keepalive_interval(), None);
    assert!(!protocol.should_send_ping());
    assert_eq!(*protocol.supported_features(), default_feature_list());
}

#[test]
fn start_handshake_announces_the_client() {
    let mut protocol = ProtocolState::new();
    let frame = protocol.start_handshake().unwrap();
    let (frame_type, payload) = split_frame(&frame).unwrap();
    assert_eq!(frame_type, FrameType::ClientInfo);
    let (version, client_id, features, max_packet_size): (String, String, Vec<String>, u32) =
        bincode::deserialize(&payload).unwrap();
    assert_eq!(version, "0.1.0");
    assert_eq!(client_id.len(), 36);
    assert_eq!(Uuid::parse_str(&client_id).unwrap().get_version_num(), 4);
    assert_eq!(features, default_feature_list());
    assert_eq!(max_packet_size, 16384);
    let stored = protocol.client_info().unwrap();
    assert_eq!(stored.client_id, client_id);
    assert_eq!(stored.max_packet_size, 16384);
}

#[test]
fn start_handshake_twice_is_a_state_error() {
    let mut protocol = ProtocolState::new();
    protocol.start_handshake().unwrap();
    assert!(matches!(protocol.start_handshake(), Err(DerpError::InvalidState(_))));
    assert_eq!(protocol.handshake_state, HandshakeState::AwaitingServerKey);
}

#[test]
fn server_key_of_wrong_length_is_a_protocol_error() {
    let mut protocol = ProtocolState::new();
    protocol.start_handshake().unwrap();
    assert!(matches!(protocol.handle_server_key(vec![0; 31]), Err(DerpError::InvalidProtocol(_))));
    assert_eq!(protocol.handshake_state, HandshakeState::AwaitingServerKey);
    assert!(matches!(protocol.handle_server_key(vec![0; 33]), Err(DerpError::InvalidProtocol(_))));
    assert_eq!(protocol.handle_server_key(vec![1; 32]).unwrap(), Vec::<u8>::new());
}

#[test]
fn events_out_of_order_are_state_errors() {
    let mut protocol = ProtocolState::new();
    assert!(matches!(protocol.handle_server_key(vec![0; 32]), Err(DerpError::InvalidState(_))));
    let info = server_info_bytes(vec![own_version()], default_feature_list(), 30);
    assert!(matches!(protocol.handle_server_info(info), Err(DerpError::InvalidState(_))));
    assert_eq!(protocol.handshake_state, HandshakeState::Initial);
}

#[test]
fn incompatible_version_fails_the_handshake() {
    let mut protocol = awaiting_server_info();
    let info = server_info_bytes(vec!["0.0.0".to_string()], default_feature_list(), 30);
    assert!(matches!(protocol.handle_server_info(info), Err(DerpError::InvalidProtocol(_))));
    assert!(matches!(protocol.handshake_state, HandshakeState::Failed(_)));
    assert!(!protocol.is_connected());
}

#[test]
fn no_common_feature_fails_the_handshake() {
    let mut protocol = awaiting_server_info();
    let info = server_info_bytes(vec![own_version()], vec!["quic".to_string()], 30);
    assert!(matches!(protocol.handle_server_info(info), Err(DerpError::InvalidProtocol(_))));
    assert!(matches!(protocol.handshake_state, HandshakeState::Failed(_)));
    let mut protocol = awaiting_server_info();
    let info = server_info_bytes(vec![own_version()], vec![], 30);
    assert!(matches!(protocol.handle_server_info(info), Err(DerpError::InvalidProtocol(_))));
}

#[test]
fn malformed_server_info_changes_nothing() {
    let mut protocol = awaiting_server_info();
    match protocol.handle_server_info(vec![1, 2, 3]) {
        Err(DerpError::InvalidProtocol(text)) => assert!(text.starts_with("Invalid server info: ")),
        other => panic!("unexpected {:?}", other),
    }
    assert_eq!(protocol.handshake_state, HandshakeState::AwaitingServerInfo);
}

#[test]
fn compression_needs_both_sides() {
    let mut protocol = awaiting_server_info();
    let info = server_info_bytes(vec![own_version()], vec!["ipv6".to_string()], 45);
    assert_eq!(protocol.handle_server_info(info).unwrap(), Vec::<u8>::new());
    assert!(protocol.is_connected());
    assert!(!protocol.is_compression_enabled());
    assert_eq!(protocol.get_keepalive_interval(), Some(45));
}

#[test]
fn accept_server_info_takes_a_record() {
    let mut protocol = awaiting_server_info();
    let info = ServerInfo {
        version: own_version(),
        server_id: "relay".to_string(),
        supported_versions: vec!["9.9.9".to_string(), own_version()],
        supported_features: vec!["compression".to_string()],
        max_packet_size: 16384,
        keepalive_interval: 30,
    };
    protocol.accept_server_info(info).unwrap();
    assert!(protocol.is_connected());
    assert!(protocol.is_compression_enabled());
    assert_eq!(protocol.server_info().unwrap().server_id, "relay");
}

#[test]
fn ping_is_answered_with_an_empty_pong() {
    let mut protocol = awaiting_server_info();
    assert!(matches!(protocol.handle_ping(), Err(DerpError::InvalidState(_))));
    assert!(protocol.last_ping_time().is_none());
    let info = server_info_bytes(vec![own_version()], default_feature_list(), 30);
    protocol.handle_server_info(info).unwrap();
    assert_eq!(protocol.handle_ping().unwrap(), vec![5, 0, 0, 0, 0]);
    assert!(protocol.last_ping_time().is_some());
    assert!(protocol.is_connected());
    assert!(matches!(ProtocolState::new().handle_ping(), Err(DerpError::InvalidState(_))));
}

#[test]
fn ping_is_due_once_the_interval_has_passed() {
    let mut protocol = awaiting_server_info();
    let info = server_info_bytes(vec![own_version()], default_feature_list(), 0);
    protocol.handle_server_info(info).unwrap();
    assert!(!protocol.should_send_ping());
    protocol.handle_ping().unwrap();
    assert!(protocol.should_send_ping());

    let mut protocol = awaiting_server_info();
    let info = server_info_bytes(vec![own_version()], default_feature_list(), 3600);
    protocol.handle_server_info(info).unwrap();
    protocol.handle_ping().unwrap();
    assert!(!protocol.should_send_ping());
}

#[test]
fn keepalive_due_compares_elapsed_with_interval() {
    assert!(keepalive_due(30, 30));
    assert!(keepalive_due(31, 30));
    assert!(!keepalive_due(29, 30));
    assert!(keepalive_due(0, 0));
    assert!(keepalive_due(u64::MAX, u32::MAX));
    assert!(!keepalive_due(u32::MAX as u64 - 1, u32::MAX));
}

#[test]
fn feature_lists_are_compared_by_text() {
    let client = default_feature_list();
    assert!(contains_text(&client, &"ipv6".to_string()));
    assert!(!contains_text(&client, &"IPV6".to_string()));
    assert!(!contains_text(&vec![], &"ipv6".to_string()));
    assert!(have_common_feature(&vec!["x".to_string(), "encryption".to_string()], &client));
    assert!(!have_common_feature(&vec!["x".to_string()], &client));
    assert!(!have_common_feature(&vec![], &client));
}

#[test]
fn errors_render_with_their_kind() {
    assert_eq!(DerpError::InvalidState("a".into()).describe(), "Invalid state: a");
    assert_eq!(DerpError::InvalidProtocol("b".into()).describe(), "Protocol error: b");
    assert_eq!(DerpError::WebSocketError("c".into()).describe(), "WebSocket error: c");
    assert_eq!(DerpError::CryptoError("d".into()).describe(), "Cryptography error: d");
    assert_eq!(DerpError::SerializationError("".into()).describe(), "Serialization error: ");
    assert_eq!(labelled("Decryption failed: ", &"aead::Error".to_string()), "Decryption failed: aead::Error");
}

#[test]
fn peers_come_and_go() {
    let mut protocol = ProtocolState::new();
    assert_eq!(protocol.peers().len(), 0);
    assert_eq!(protocol.peers().last_seen(&[1u8; 32]), None);

    assert_eq!(protocol.handle_peer_present(vec![1u8; 32], 1000).unwrap(), Vec::<u8>::new());
    protocol.handle_peer_present(vec![2u8; 32], 1500).unwrap();
    assert_eq!(protocol.peers().len(), 2);
    assert_eq!(protocol.peers().last_seen(&[1u8; 32]), Some(1000));
    assert_eq!(protocol.peers().last_seen(&[2u8; 32]), Some(1500));
    assert_eq!(protocol.peers().last_seen(&[3u8; 32]), None);

    protocol.handle_peer_present(vec![1u8; 32], 2000).unwrap();
    assert_eq!(protocol.peers().len(), 2);
    assert_eq!(protocol.peers().last_seen(&[1u8; 32]), Some(2000));
    assert_eq!(protocol.peers().last_seen(&[2u8; 32]), Some(1500));

    protocol.handle_peer_gone(vec![2u8; 32]).unwrap();
    assert_eq!(protocol.peers().len(), 1);
    assert_eq!(protocol.peers().last_seen(&[2u8; 32]), None);
    protocol.handle_peer_gone(vec![2u8; 32]).unwrap();
    assert_eq!(protocol.peers().len(), 1);
    protocol.handle_peer_gone(vec![1u8; 32]).unwrap();
    assert_eq!(protocol.peers().len(), 0);
    assert_eq!(protocol.handshake_state, HandshakeState::Initial);
}

#[test]
fn peer_keys_must_be_32_bytes() {
    let mut protocol = ProtocolState::new();
    assert!(matches!(
        protocol.handle_peer_present(vec![1u8; 31], 1),
        Err(DerpError::InvalidProtocol(_))
    ));
    assert!(matches!(
        protocol.handle_peer_present(vec![], 1),
        Err(DerpError::InvalidProtocol(_))
    ));
    assert!(matches!(protocol.handle_peer_gone(vec![1u8; 33]), Err(DerpError::InvalidProtocol(_))));
    assert_eq!(protocol.peers().len(), 0);
    assert_eq!(protocol.peers().last_seen(&[1u8; 31]), None);
}

#[test]
fn client_info_frame_wraps_or_reports() {
    let protocol = ProtocolState::new();
    assert_eq!(protocol.client_info_frame(Ok(vec![1, 2, 3])).unwrap(), vec![3, 0, 0, 0, 3, 1, 2, 3]);
    match protocol.client_info_frame(Err("too large".to_string())) {
        Err(DerpError::SerializationError(text)) => assert_eq!(text, "too large"),
        other => panic!("unexpected {:?}", other),
    }
}

#[test]
fn choose_payload_prefers_the_inflated_body() {
    assert_eq!(choose_payload(FrameType::Send, vec![1, 2, 3], Some(vec![9])), vec![9]);
    assert_eq!(choose_payload(FrameType::Send, vec![1, 2, 3], None), vec![1, 2, 3]);
    assert_eq!(choose_payload(FrameType::Send, vec![1, 2], Some(vec![9])), vec![1, 2]);
    assert_eq!(choose_payload(FrameType::Ping, vec![1, 2, 3], Some(vec![9])), vec![1, 2, 3]);
    assert_eq!(choose_payload(FrameType::Pong, vec![1, 2, 3], Some(vec![9])), vec![1, 2, 3]);
}

#[test]
fn byte_helpers_are_exact() {
    let mut buffer = vec![1u8, 2];
    append_bytes(&mut buffer, &[3, 4]);
    assert_eq!(buffer, vec![1, 2, 3, 4]);
    append_bytes(&mut buffer, &[]);
    assert_eq!(buffer, vec![1, 2, 3, 4]);
    assert_eq!(copy_range(&buffer, 1, 3), vec![2, 3]);
    assert_eq!(copy_range(&buffer, 2, 2), Vec::<u8>::new());
    assert!(bytes_equal(&[1, 2], &[1, 2]));
    assert!(!bytes_equal(&[1, 2], &[1, 3]));
    assert!(!bytes_equal(&[1, 2], &[1, 2, 3]));
    assert!(bytes_equal(&[], &[]));
}

#[test]
fn feature_lists_are_copied_whole() {
    assert_eq!(copy_texts(&default_feature_list()), default_feature_list());
    assert_eq!(copy_texts(&vec![]), Vec::<String>::new());
}

#[test]
fn client_id_is_made_from_the_random_bytes() {
    let random: Vec<u8> = (0u8..16).collect();
    let mut protocol = ProtocolState::new();
    let frame = protocol.start_handshake_with(&random).unwrap();
    assert_eq!(protocol.handshake_state, HandshakeState::AwaitingServerKey);
    let stored = protocol.client_info().unwrap();
    assert_eq!(stored.client_id, "00010203-0405-4607-8809-0a0b0c0d0e0f");
    assert_eq!(stored.version, "0.1.0");
    assert_eq!(stored.supported_features, default_feature_list());
    assert_eq!(stored.max_packet_size, 16384);
    let body = bincode::serialize(&(
        "0.1.0".to_string(),
        "00010203-0405-4607-8809-0a0b0c0d0e0f".to_string(),
        default_feature_list(),
        16384u32,
    ))
    .unwrap();
    assert_eq!(frame, frame_around(FrameType::ClientInfo, &body));
    assert_eq!(&frame[..5], &[3, 0, 0, 0, body.len() as u8]);

    let mut zeros = ProtocolState::new();
    zeros.start_handshake_with(&[0u8; 16]).unwrap();
    assert_eq!(zeros.client_info().unwrap().client_id, "00000000-0000-4000-8000-000000000000");
}

#[test]
fn start_handshake_with_refuses_wrong_entropy_and_wrong_state() {
    let mut protocol = ProtocolState::new();
    assert!(matches!(protocol.start_handshake_with(&[0u8; 15]), Err(DerpError::CryptoError(_))));
    assert!(matches!(protocol.start_handshake_with(&[0u8; 17]), Err(DerpError::CryptoError(_))));
    assert_eq!(protocol.handshake_state, HandshakeState::Initial);
    assert!(protocol.client_info().is_none());
    protocol.start_handshake_with(&[0u8; 16]).unwrap();
    assert!(matches!(protocol.start_handshake_with(&[0u8; 16]), Err(DerpError::InvalidState(_))));
}

#[test]
fn fresh_identifiers_differ() {
    let mut first = ProtocolState::new();
    let mut second = ProtocolState::new();
    first.start_handshake().unwrap();
    second.start_handshake().unwrap();
    assert_ne!(first.client_info().unwrap().client_id, second.client_info().unwrap().client_id);
}
