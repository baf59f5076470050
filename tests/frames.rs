use lts_wss::codec::{decode_frame, encode_frame, FrameError, COMPRESSION_LEVEL};
use lts_wss::sink::Outbox;

#[test]
fn frame_round_trip() {
    let payload: Vec<u8> = b"a serialized request, a serialized request, a serialized request".to_vec();
    let frame = encode_frame(&payload);
    assert_ne!(frame, payload);
    assert!(frame.len() < payload.len());
    assert_eq!(decode_frame(&frame), Ok(payload));
}

#[test]
fn empty_payload_round_trip() {
    let frame = encode_frame(&[]);
    assert!(!frame.is_empty());
    assert_eq!(decode_frame(&frame), Ok(Vec::new()));
}

#[test]
fn frame_is_raw_deflate_at_the_fixed_level() {
    let payload: Vec<u8> = (0u8..200).collect();
    assert_eq!(COMPRESSION_LEVEL, 8);
    let frame = encode_frame(&payload);
    assert_eq!(frame, miniz_oxide::deflate::compress_to_vec(&payload, 8));
    assert_eq!(miniz_oxide::inflate::decompress_to_vec(&frame).unwrap(), payload);
}

#[test]
fn corrupt_frame_is_a_decompress_error() {
    assert_eq!(decode_frame(&[0xff, 0xff, 0xff, 0xff]), Err(FrameError::Decompress));
    let mut truncated = encode_frame(b"hello hello hello hello");
    truncated.truncate(truncated.len() / 2);
    assert_eq!(decode_frame(&truncated), Err(FrameError::Decompress));
}

#[test]
fn outbox_keeps_dispatch_order() {
    let mut out = Outbox::new();
    out.send(b"A1");
    out.send_all(&vec![b"A2".to_vec(), b"A3".to_vec()]);
    out.send_all(&vec![b"B1".to_vec()]);
    assert_eq!(out.len(), 4);
    let frames = out.take();
    assert_eq!(out.len(), 0);
    let decoded: Vec<Vec<u8>> = frames.iter().map(|f| decode_frame(f).unwrap()).collect();
    assert_eq!(decoded, vec![b"A1".to_vec(), b"A2".to_vec(), b"A3".to_vec(), b"B1".to_vec()]);
}

#[test]
fn outbox_send_all_of_nothing_queues_nothing() {
    let mut out = Outbox::new();
    out.send_all(&Vec::new());
    assert_eq!(out.len(), 0);
    assert!(out.take().is_empty());
}
