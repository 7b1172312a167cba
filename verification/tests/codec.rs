use camp_misty::codec::{encode_frame, FrameReceiver, FrameSender, RecvError};

#[test]
fn frame_is_little_endian_length_then_payload() {
    let payload: Vec<u8> = (0..=257u32).map(|x| (x % 251) as u8).collect();
    let frame = encode_frame(&payload);
    assert_eq!(frame.len(), 4 + payload.len());
    // 258 = 0x0102, little-endian
    assert_eq!(&frame[..4], &[2, 1, 0, 0]);
    assert_eq!(&frame[4..], &payload[..]);
}

#[test]
fn empty_payload_frame() {
    let payload: Vec<u8> = Vec::new();
    let frame = encode_frame(&payload);
    assert_eq!(frame, vec![0, 0, 0, 0]);
    let mut receiver = FrameReceiver::new();
    assert_eq!(receiver.wanted(), 4);
    assert_eq!(receiver.absorb(&frame), Ok(()));
    assert!(receiver.complete());
    assert_eq!(receiver.wanted(), 0);
    assert_eq!(receiver.payload(), payload);
}

#[test]
fn round_trip_whole_chunks() {
    let payload: Vec<u8> = vec![7, 8, 9];
    let frame = encode_frame(&payload);
    let mut receiver = FrameReceiver::new();
    let header: Vec<u8> = frame[..4].to_vec();
    assert_eq!(receiver.absorb(&header), Ok(()));
    assert!(!receiver.complete());
    assert_eq!(receiver.wanted(), 3);
    let body: Vec<u8> = frame[4..].to_vec();
    assert_eq!(receiver.absorb(&body), Ok(()));
    assert!(receiver.complete());
    assert_eq!(receiver.payload(), payload);
}

#[test]
fn one_byte_transfers_still_deliver_the_message() {
    let payload: Vec<u8> = (0..=50u8).collect();
    let mut sender = FrameSender::new(&payload);
    let mut receiver = FrameReceiver::new();
    // a stream that accepts one byte per write and returns one byte per read
    while !sender.done() {
        let pending = sender.pending();
        let byte: Vec<u8> = vec![pending[0]];
        sender.advance(1);
        assert!(receiver.wanted() >= 1);
        assert_eq!(receiver.absorb(&byte), Ok(()));
    }
    assert_eq!(sender.remaining(), 0);
    assert!(receiver.complete());
    assert_eq!(receiver.payload(), payload);
}

#[test]
fn close_during_header_is_a_disconnection() {
    let mut receiver = FrameReceiver::new();
    let two: Vec<u8> = vec![1, 0];
    assert_eq!(receiver.absorb(&two), Ok(()));
    assert_eq!(receiver.wanted(), 2);
    // the peer closed: a read hands back no bytes
    let nothing: Vec<u8> = Vec::new();
    assert_eq!(receiver.absorb(&nothing), Err(RecvError::Disconnected));
    // the receiver is still two header bytes short, not spinning
    assert_eq!(receiver.wanted(), 2);
}

#[test]
fn close_during_payload_is_a_disconnection() {
    let mut receiver = FrameReceiver::new();
    let header: Vec<u8> = vec![5, 0, 0, 0];
    assert_eq!(receiver.absorb(&header), Ok(()));
    assert_eq!(receiver.wanted(), 5);
    let part: Vec<u8> = vec![9, 9];
    assert_eq!(receiver.absorb(&part), Ok(()));
    assert_eq!(receiver.wanted(), 3);
    let nothing: Vec<u8> = Vec::new();
    assert_eq!(receiver.absorb(&nothing), Err(RecvError::Disconnected));
}

#[test]
fn sender_tracks_partial_writes() {
    let payload: Vec<u8> = vec![10, 20, 30, 40];
    let mut sender = FrameSender::new(&payload);
    assert_eq!(sender.remaining(), 8);
    assert_eq!(sender.pending(), vec![4, 0, 0, 0, 10, 20, 30, 40]);
    sender.advance(3);
    assert_eq!(sender.remaining(), 5);
    assert_eq!(sender.pending(), vec![0, 10, 20, 30, 40]);
    sender.advance(5);
    assert!(sender.done());
    assert_eq!(sender.pending(), Vec::<u8>::new());
}
