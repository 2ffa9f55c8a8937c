use sexp_proto_tokio::demo::next_number;
use sexp_proto_tokio::errors::{Error, ProtoError};
use sexp_proto_tokio::sexp_proto::{response_frame, Frame, SexpParser, SexpSerializer};

#[test]
fn message_frames_are_written_as_their_bytes() {
    let mut ser = SexpSerializer::<String>::new();
    let mut buf = b"x".to_vec();
    ser.serialize(Frame::Message(b"(3:abc)".to_vec()), &mut buf);
    assert_eq!(buf, b"x(3:abc)".to_vec());
}

#[test]
fn error_frames_are_written_as_a_line() {
    let mut ser = SexpSerializer::<String>::new();
    let mut buf = Vec::new();
    ser.serialize(Frame::Error(Error::Sexp("bad packet".to_string())), &mut buf);
    assert_eq!(buf, b"[ERROR] bad packet\n".to_vec());
    ser.serialize(Frame::Error(Error::Msg("\u{e9}".to_string())), &mut buf);
    assert_eq!(buf, b"[ERROR] bad packet\n[ERROR] \xc3\xa9\n".to_vec());
}

#[test]
fn done_frames_write_nothing() {
    let mut ser = SexpSerializer::<String>::new();
    let mut buf = b"keep".to_vec();
    ser.serialize(Frame::Done, &mut buf);
    assert_eq!(buf, b"keep".to_vec());
}

#[test]
fn taken_packets_become_frames() {
    let p = SexpParser::<String>::new();
    assert!(matches!(p.frame_of(Ok(Some("hi".to_string()))), Some(Frame::Message(m)) if m == "hi"));
    assert!(p.frame_of(Ok(None)).is_none());
    assert!(matches!(p.frame_of(Err(Error::Sexp("eof".to_string()))), Some(Frame::Error(Error::Sexp(s))) if s == "eof"));
}

#[test]
fn transport_failures_become_errors() {
    let e = Error::from_proto(ProtoError::Io("reset".to_string()));
    assert!(matches!(e, Error::Io(ref s) if s == "reset"));
    assert_eq!(e.message(), "reset");
    let e = Error::from_proto(ProtoError::Transport(Error::Msg("m".to_string())));
    assert!(matches!(e, Error::Msg(ref s) if s == "m"));
}

#[test]
fn the_demo_service_answers_with_the_next_number() {
    assert_eq!(next_number(32), 33);
    assert_eq!(next_number(0), 1);
    assert_eq!(next_number(u64::MAX - 1), u64::MAX);
}

#[test]
fn service_outcomes_become_response_frames() {
    assert!(matches!(response_frame(Ok::<String, Error>("pong".to_string())), Frame::Message(m) if m == "pong"));
    assert!(matches!(response_frame(Err::<String, Error>(Error::Msg("down".to_string()))), Frame::Error(Error::Msg(s)) if s == "down"));
}
