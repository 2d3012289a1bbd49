use opencode_pty::error::Error;
use opencode_pty::protocol::{
    open_payload, read_frame, read_payload, read_subscription_event, write_frame,
    write_output_frame, FrameRead, Payload, Response, SubscriptionEvent, MAX_FRAME_BYTES,
    PROTOCOL_VERSION,
};

fn payload_of(frame: &[u8]) -> Vec<u8> {
    match read_payload(frame).unwrap() {
        FrameRead::Payload(payload) => payload,
        FrameRead::Need(n) => panic!("{n} bytes are missing"),
    }
}

#[test]
fn frames_have_a_big_endian_length() {
    let mut writer = vec![9];
    write_frame(&mut writer, b"{}").unwrap();
    assert_eq!(writer, [9, 0, 0, 0, 2, b'{', b'}']);
    let mut writer = Vec::new();
    write_frame(&mut writer, &vec![b' '; 0x0102]).unwrap();
    assert_eq!(writer[..4], [0, 0, 1, 2]);
    assert_eq!(payload_of(&writer), vec![b' '; 0x0102]);
}

#[test]
fn output_frames_are_tagged_and_read_back() {
    let mut writer = Vec::new();
    write_output_frame(&mut writer, 1, 0x0102_0304_0506_0708, b"hi").unwrap();
    assert_eq!(
        writer,
        [0, 0, 0, 19, 0, 0, 0, 0, 0, 0, 0, 0, 1, 1, 2, 3, 4, 5, 6, 7, 8, b'h', b'i']
    );
    let payload = payload_of(&writer);
    let event = read_subscription_event(&payload, Err("no JSON".to_string())).unwrap();
    let SubscriptionEvent::Output { start, end, bytes } = event else {
        panic!("output");
    };
    assert_eq!((start, end), (1, 0x0102_0304_0506_0708));
    assert_eq!(bytes, b"hi");
}

#[test]
fn frames_are_read_exactly() {
    let mut frame = Vec::new();
    write_frame(&mut frame, b"hello").unwrap();
    let mut received = Vec::new();
    loop {
        match read_payload(&received).unwrap() {
            FrameRead::Need(n) => {
                let at = received.len();
                received.extend_from_slice(&frame[at..at + n]);
            }
            FrameRead::Payload(payload) => {
                assert_eq!(payload, b"hello");
                break;
            }
        }
    }
    assert_eq!(received, frame);
    frame.extend_from_slice(b"more");
    assert_eq!(payload_of(&frame), b"hello");
}

#[test]
fn payloads_over_the_limit_are_refused_and_write_nothing() {
    let mut writer = Vec::new();
    let e = write_frame(&mut writer, &vec![0; MAX_FRAME_BYTES + 1]).unwrap_err();
    assert_eq!(e.message(), "frame exceeds 8388608 byte limit");
    assert!(write_output_frame(&mut writer, 0, 0, &vec![0; MAX_FRAME_BYTES - 16]).is_err());
    assert!(writer.is_empty());
    assert!(write_frame(&mut writer, &vec![0; MAX_FRAME_BYTES]).is_ok());
    let mut writer = Vec::new();
    assert!(write_output_frame(&mut writer, 0, 0, &vec![0; MAX_FRAME_BYTES - 17]).is_ok());
    assert_eq!(writer.len(), 4 + MAX_FRAME_BYTES);
}

#[test]
fn headers_over_the_limit_are_refused() {
    let Err(e) = read_payload(&[0, 0x80, 0, 1]) else {
        panic!("refused");
    };
    assert_eq!(e.message(), "frame claims 8388609 bytes, limit is 8388608");
    assert!(matches!(read_payload(&[0, 0x80, 0, 0]), Ok(FrameRead::Need(MAX_FRAME_BYTES))));
    assert!(matches!(read_payload(&[]), Ok(FrameRead::Need(4))));
    assert!(matches!(read_payload(&[0, 0, 0]), Ok(FrameRead::Need(1))));
    assert_eq!(payload_of(&[0, 0, 0, 0]), b"");
}

#[test]
fn short_output_frames_are_refused() {
    assert!(matches!(open_payload(&[0; 16]), Err(Error::InvalidOutputFrame)));
    let Err(e) = open_payload(&[0]) else {
        panic!("refused");
    };
    assert_eq!(e.message(), "invalid output frame");
    assert!(matches!(open_payload(&[0; 17]), Ok(Payload::Output { start: 0, end: 0, .. })));
    assert!(matches!(open_payload(&[]), Ok(Payload::Json)));
    assert!(matches!(open_payload(b"{}"), Ok(Payload::Json)));
}

#[test]
fn other_payloads_are_responses() {
    let event = read_subscription_event(b"{}", Ok(Response::Owned)).unwrap();
    let SubscriptionEvent::Response(response) = event else {
        panic!("response");
    };
    assert!(matches!(*response, Response::Owned));
    let e = read_subscription_event(b"", Err("EOF".to_string())).unwrap_err();
    assert_eq!(e.message(), "invalid protocol JSON: EOF");
    assert_eq!(read_frame::<u32>(Ok(3)).unwrap(), 3);
    assert!(read_frame::<u32>(Err("bad".to_string())).is_err());
}

#[test]
fn the_protocol_has_a_version() {
    assert_eq!(PROTOCOL_VERSION, 7);
}
