use tower_grpc::codec::{
    encode_frame, u32_be_bytes, BufList, DecodeBuf, Decoder, Direction, Encode, EncodeBuf, Encoder,
    State, Streaming,
};
use tower_grpc::status::{Code, Status};

struct RawDecoder;

impl Decoder for RawDecoder {
    type Item = Vec<u8>;

    fn decode(&mut self, buf: &mut DecodeBuf) -> Result<Vec<u8>, Status> {
        Ok(buf.bytes().to_vec())
    }
}

struct RawEncoder;

impl Encoder for RawEncoder {
    type Item = Vec<u8>;

    fn content_type(&self) -> &'static str {
        "application/grpc+raw"
    }

    fn encode(&mut self, item: Vec<u8>, buf: &mut EncodeBuf) -> Result<(), Status> {
        buf.put_slice(&item);
        Ok(())
    }
}

#[test]
fn frame_has_flag_length_and_payload() {
    let f = encode_frame(b"hello");
    assert_eq!(f, vec![0, 0, 0, 0, 5, b'h', b'e', b'l', b'l', b'o']);
    assert_eq!(u32_be_bytes(0x01020304), [1, 2, 3, 4]);
}

#[test]
fn streaming_reads_back_what_was_framed() {
    let mut s = Streaming::new(RawDecoder, Direction::Request);
    let mut body = encode_frame(b"first");
    body.extend_from_slice(&encode_frame(b""));
    body.extend_from_slice(&encode_frame(b"third"));
    s.push_data(body);
    assert_eq!(s.decode().unwrap(), Some(b"first".to_vec()));
    assert_eq!(s.decode().unwrap(), Some(Vec::new()));
    assert_eq!(s.decode().unwrap(), Some(b"third".to_vec()));
    assert_eq!(s.decode().unwrap(), None);
    assert!(s.end_of_body().is_ok());
}

#[test]
fn streaming_waits_for_the_whole_frame() {
    let mut s = Streaming::new(RawDecoder, Direction::Request);
    let f = encode_frame(b"split message");
    s.push_data(f[..3].to_vec());
    assert_eq!(s.decode().unwrap(), None);
    s.push_data(f[3..8].to_vec());
    assert_eq!(s.decode().unwrap(), None);
    match s.state() {
        State::ReadBody { len, .. } => assert_eq!(len, 13),
        _ => panic!("expected to be reading a body"),
    }
    s.push_data(f[8..].to_vec());
    assert_eq!(s.decode().unwrap(), Some(b"split message".to_vec()));
}

#[test]
fn compressed_frame_is_unimplemented() {
    let mut s = Streaming::new(RawDecoder, Direction::Request);
    s.push_data(vec![1, 0, 0, 0, 0]);
    assert_eq!(s.decode().unwrap_err().code(), Code::Unimplemented);
}

#[test]
fn bad_flag_is_internal() {
    let mut s = Streaming::new(RawDecoder, Direction::Request);
    s.push_data(vec![7, 0, 0, 0, 0]);
    assert_eq!(s.decode().unwrap_err().code(), Code::Internal);
}

#[test]
fn partial_frame_at_end_is_internal() {
    let mut s = Streaming::new(RawDecoder, Direction::Request);
    s.push_data(vec![0, 0, 0]);
    assert_eq!(s.decode().unwrap(), None);
    assert_eq!(s.end_of_body().unwrap_err().code(), Code::Internal);
}

#[test]
fn encode_frames_each_item() {
    let mut e = Encode::new(RawEncoder, true);
    assert!(!e.is_end_stream());
    let f = e.encode_item(b"abc".to_vec()).unwrap().unwrap();
    assert_eq!(f, encode_frame(b"abc"));
    assert_eq!(e.trailers_status().unwrap().code(), Code::OK);
}

#[test]
fn failed_encode_reports_its_status() {
    let mut e: Encode<RawEncoder> = Encode::error(Status::new(Code::DataLoss));
    assert_eq!(e.encode_item(b"x".to_vec()).unwrap(), None);
    assert_eq!(e.trailers_status().unwrap().code(), Code::DataLoss);
    let e2 = Encode::new(RawEncoder, false);
    assert!(e2.trailers_status().is_none());
}

#[test]
fn buf_list_reads_across_chunks() {
    let mut b = BufList::new();
    b.push(vec![1, 2]);
    b.push(vec![3, 4, 5]);
    assert_eq!(b.remaining(), 5);
    assert_eq!(b.get_u8(), 1);
    assert_eq!(b.get_u32_be(), 0x02030405);
    assert!(!b.has_remaining());
}

#[test]
fn decode_buf_advances() {
    let mut d = DecodeBuf::new(vec![9, 8, 7]);
    assert_eq!(d.remaining(), 3);
    d.advance(2);
    assert_eq!(d.bytes(), &[7]);
}

#[test]
fn encode_trailers_carry_the_status() {
    let e = Encode::new(RawEncoder, true);
    assert_eq!(e.trailers().unwrap().get("grpc-status").unwrap(), "0");
    let f: Encode<RawEncoder> = Encode::error(Status::new(Code::Unavailable));
    assert_eq!(f.trailers().unwrap().get("grpc-status").unwrap(), "14");
    assert!(Encode::new(RawEncoder, false).trailers().is_none());
}

#[test]
fn finished_response_reports_trailer_status() {
    let s = Streaming::new(RawDecoder, Direction::Response(http::StatusCode::OK));
    let mut trailers = http::HeaderMap::new();
    trailers.insert("grpc-status", "0".parse().unwrap());
    assert!(s.finish(&trailers).is_ok());
    trailers.insert("grpc-status", "7".parse().unwrap());
    assert_eq!(s.finish(&trailers).unwrap_err().code(), Code::PermissionDenied);
    let r = Streaming::new(RawDecoder, Direction::Request);
    assert!(r.finish(&trailers).is_ok());
}
