use img_processor::connection::{
    decode_failure_bytes, start, step, Action, Event, State, DECODE_FAILED, INVALID_SIZE,
    READ_FAILED,
};
use img_processor::transcode::decode_pixels;

fn error_bytes(msg: &[u8]) -> Vec<u8> {
    let mut v = vec![1u8];
    v.extend_from_slice(&(msg.len() as u32).to_be_bytes());
    v.extend_from_slice(msg);
    v
}

fn png_2x2() -> Vec<u8> {
    let raw: Vec<u8> = vec![
        255, 0, 0, 255, 0, 255, 0, 255, //
        0, 0, 255, 255, 10, 20, 30, 255,
    ];
    let img = image::RgbaImage::from_raw(2, 2, raw).unwrap();
    let mut bytes: Vec<u8> = Vec::new();
    image::DynamicImage::ImageRgba8(img)
        .write_to(&mut std::io::Cursor::new(&mut bytes), image::ImageFormat::Png)
        .unwrap();
    bytes
}

fn expect_respond(action: Action) -> Vec<u8> {
    match action {
        Action::Respond(bytes) => bytes,
        _ => panic!("expected a response"),
    }
}

#[test]
fn fresh_connection_reads_length() {
    assert_eq!(start(), State::ReadingLength);
}

#[test]
fn zero_length_is_invalid_size() {
    let (s, a) = step(State::ReadingLength, Event::LengthRead([0, 0, 0, 0]));
    assert_eq!(s, State::WritingResponse);
    assert_eq!(expect_respond(a), error_bytes(b"Invalid size"));
}

#[test]
fn oversize_length_is_invalid_size() {
    let (s, a) = step(State::ReadingLength, Event::LengthRead([0, 0xa0, 0, 1]));
    assert_eq!(s, State::WritingResponse);
    assert_eq!(expect_respond(a), error_bytes(INVALID_SIZE.as_bytes()));
    let (s, a) = step(State::ReadingLength, Event::LengthRead([255, 255, 255, 255]));
    assert_eq!(s, State::WritingResponse);
    assert_eq!(expect_respond(a), error_bytes(b"Invalid size"));
}

#[test]
fn largest_length_is_read() {
    let (s, a) = step(State::ReadingLength, Event::LengthRead([0, 0xa0, 0, 0]));
    assert_eq!(s, State::ReadingPayload { len: 10485760 });
    assert!(matches!(a, Action::ReadPayload(10485760)));
}

#[test]
fn hello_is_decode_failure() {
    let (s, a) = step(State::ReadingLength, Event::LengthRead([0, 0, 0, 5]));
    assert_eq!(s, State::ReadingPayload { len: 5 });
    assert!(matches!(a, Action::ReadPayload(5)));
    let (s, a) = step(s, Event::PayloadRead(b"hello".to_vec()));
    assert_eq!(s, State::WritingResponse);
    let bytes = expect_respond(a);
    assert_eq!(bytes[0], 1);
    let len = u32::from_be_bytes([bytes[1], bytes[2], bytes[3], bytes[4]]) as usize;
    assert_eq!(len, bytes.len() - 5);
    assert!(bytes[5..].starts_with(b"Decode failed: "));
    assert!(bytes.len() > 5 + DECODE_FAILED.len());
    let (s, a) = step(s, Event::Written);
    assert_eq!(s, State::Closed);
    assert!(matches!(a, Action::Close));
}

#[test]
fn short_length_sends_nothing() {
    let (s, a) = step(State::ReadingLength, Event::ShortRead);
    assert_eq!(s, State::Closed);
    assert!(matches!(a, Action::Close));
}

#[test]
fn short_payload_is_read_failure() {
    let (s, a) = step(State::ReadingPayload { len: 100 }, Event::ShortRead);
    assert_eq!(s, State::WritingResponse);
    let bytes = expect_respond(a);
    assert_eq!(bytes, error_bytes(b"Read failed"));
    assert_eq!(bytes, error_bytes(READ_FAILED.as_bytes()));
}

#[test]
fn payload_of_wrong_length_is_read_failure() {
    let (s, a) = step(State::ReadingPayload { len: 3 }, Event::PayloadRead(vec![1, 2]));
    assert_eq!(s, State::WritingResponse);
    assert_eq!(expect_respond(a), error_bytes(b"Read failed"));
}

#[test]
fn write_outcome_closes() {
    let (s, a) = step(State::WritingResponse, Event::Written);
    assert_eq!(s, State::Closed);
    assert!(matches!(a, Action::Close));
    let (s, a) = step(State::WritingResponse, Event::WriteFailed);
    assert_eq!(s, State::Closed);
    assert!(matches!(a, Action::Close));
    let (s, a) = step(State::Closed, Event::ShortRead);
    assert_eq!(s, State::Closed);
    assert!(matches!(a, Action::Close));
}

#[test]
fn unexpected_event_closes() {
    let (s, a) = step(State::Encoding, Event::ShortRead);
    assert_eq!(s, State::Closed);
    assert!(matches!(a, Action::Close));
    let (s, a) = step(State::ReadingLength, Event::Written);
    assert_eq!(s, State::Closed);
    assert!(matches!(a, Action::Close));
}

#[test]
fn encoded_output_is_success_frame() {
    let (s, a) = step(State::Encoding, Event::Encoded(vec![0x52, 0x49, 0x46, 0x46]));
    assert_eq!(s, State::WritingResponse);
    assert_eq!(expect_respond(a), vec![0, 0, 0, 0, 4, 0x52, 0x49, 0x46, 0x46]);
}

#[test]
fn decode_failure_message_prefix() {
    assert_eq!(decode_failure_bytes("bad"), b"Decode failed: bad".to_vec());
    assert_eq!(decode_failure_bytes(""), b"Decode failed: ".to_vec());
}

#[test]
fn decoded_pixels_are_rgba() {
    let png = png_2x2();
    let p = decode_pixels(&png).ok().unwrap();
    assert_eq!(p.width, 2);
    assert_eq!(p.height, 2);
    assert_eq!(p.rgba, vec![255, 0, 0, 255, 0, 255, 0, 255, 0, 0, 255, 255, 10, 20, 30, 255]);
}

#[test]
fn undecodable_bytes_give_reason() {
    let r = decode_pixels(b"hello");
    assert!(r.is_err());
    assert!(!r.err().unwrap().is_empty());
}

#[test]
fn valid_image_round_trips() {
    let png = png_2x2();
    let len = png.len() as u32;
    let (s, a) = step(start(), Event::LengthRead(len.to_be_bytes()));
    assert!(matches!(a, Action::ReadPayload(n) if n == png.len()));
    let (s, a) = step(s, Event::PayloadRead(png));
    assert_eq!(s, State::Encoding);
    let pixels = match a {
        Action::Encode(p) => p,
        _ => panic!("expected pixels to encode"),
    };
    let webp = webp::Encoder::from_rgba(&pixels.rgba, pixels.width, pixels.height)
        .encode(85.0)
        .to_vec();
    let (s, a) = step(s, Event::Encoded(webp.clone()));
    assert_eq!(s, State::WritingResponse);
    let bytes = expect_respond(a);
    assert_eq!(bytes[0], 0);
    assert_eq!(&bytes[1..5], &(webp.len() as u32).to_be_bytes());
    let back = image::load_from_memory(&bytes[5..]).unwrap();
    assert_eq!((back.width(), back.height()), (2, 2));
}

#[test]
fn independent_connections_do_not_mix() {
    let (a_state, _) = step(start(), Event::LengthRead([0, 0, 0, 5]));
    let (b_state, b_action) = step(start(), Event::LengthRead([0, 0, 0, 0]));
    let (a_state, a_action) = step(a_state, Event::ShortRead);
    assert_eq!(expect_respond(b_action), error_bytes(b"Invalid size"));
    assert_eq!(expect_respond(a_action), error_bytes(b"Read failed"));
    assert_eq!(a_state, State::WritingResponse);
    assert_eq!(b_state, State::WritingResponse);
}
