//! The frames of the s-expression transport and their encoding on the wire.
//!
//! A message travels as its canonical s-expression bytes; an error travels as
//! a line of text, `[ERROR] ` followed by the error's description and a
//! newline; the end of the stream writes nothing.
use vstd::prelude::*;

use crate::errors::Error;
use core::marker::PhantomData;

verus! {

/// A frame of the pipelined transport.
#[derive(Debug)]
pub enum Frame<T, E> {
    /// A request or a response.
    Message(T),
    /// An error in place of a message.
    Error(E),
    /// The stream is done.
    Done,
}

/// The bytes `[ERROR] ` that start an error line.
pub open spec fn error_prefix() -> Seq<u8> {
    seq![0x5bu8, 0x45u8, 0x52u8, 0x52u8, 0x4fu8, 0x52u8, 0x5du8, 0x20u8]
}

/// The byte that ends an error line.
pub open spec fn newline() -> u8 {
    0x0au8
}

/// The bytes that a frame is written as, its message given as its encoded
/// bytes.
pub open spec fn frame_bytes(frame: Frame<Vec<u8>, Error>) -> Seq<u8> {
    match frame {
        Frame::Message(bytes) => bytes@,
        Frame::Error(e) => error_prefix() + vstd::utf8::encode_utf8(e.text()) + seq![newline()],
        Frame::Done => Seq::empty(),
    }
}

/// The frame that a packet taken from the parser stands for: a message, an
/// error, or nothing while no complete packet is buffered.
pub open spec fn spec_frame_of<T>(taken: Result<Option<T>, Error>) -> Option<Frame<T, Error>> {
    match taken {
        Ok(Some(msg)) => Some(Frame::Message(msg)),
        Ok(None) => None,
        Err(e) => Some(Frame::Error(e)),
    }
}

/// Appends `bytes` to `buf`.
fn write_slice(buf: &mut Vec<u8>, bytes: &[u8])
    ensures
        final(buf)@ == old(buf)@ + bytes@,
{
    buf.extend_from_slice(bytes);
    assert(buf@ =~= old(buf)@ + bytes@);
}

/// The frame that a service's outcome is answered with: a response goes out
/// as a message, a failure as an error.
pub open spec fn spec_response_frame<T>(outcome: Result<T, Error>) -> Frame<T, Error> {
    match outcome {
        Ok(v) => Frame::Message(v),
        Err(e) => Frame::Error(e),
    }
}

/// The frame that a service's outcome is answered with.
pub fn response_frame<T>(outcome: Result<T, Error>) -> (r: Frame<T, Error>)
    ensures
        r == spec_response_frame(outcome),
        outcome matches Ok(v) ==> r == Frame::<T, Error>::Message(v),
        outcome matches Err(e) ==> r == Frame::<T, Error>::Error(e),
        !(r is Done),
{
    match outcome {
        Ok(v) => Frame::Message(v),
        Err(e) => Frame::Error(e),
    }
}

/// Reads s-expression packets of type `T` off the transport.
pub struct SexpParser<T> {
    _x: PhantomData<T>,
}

impl<T> SexpParser<T> {
    /// A parser with nothing buffered.
    pub fn new() -> Self {
        SexpParser { _x: PhantomData }
    }

    /// The frame for what taking a packet gave: a complete packet is a
    /// message, a malformed one an error, and without a complete packet
    /// there is no frame yet.
    pub fn frame_of(&self, taken: Result<Option<T>, Error>) -> (r: Option<Frame<T, Error>>)
        ensures
            r == spec_frame_of(taken),
            r is None <==> taken == Ok::<Option<T>, Error>(None),
            taken matches Ok(Some(m)) ==> r == Some(Frame::<T, Error>::Message(m)),
            taken matches Err(e) ==> r == Some(Frame::<T, Error>::Error(e)),
    {
        match taken {
            Ok(Some(msg)) => Some(Frame::Message(msg)),
            Ok(None) => None,
            Err(e) => Some(Frame::Error(e)),
        }
    }
}

/// Writes frames carrying values of type `T` to the transport.
pub struct SexpSerializer<T>(PhantomData<T>);

impl<T> SexpSerializer<T> {
    /// A serializer.
    pub fn new() -> Self {
        SexpSerializer(PhantomData)
    }

    /// Appends the bytes of `frame` to `buf`; a message comes as its encoded
    /// s-expression bytes.
    pub fn serialize(&mut self, frame: Frame<Vec<u8>, Error>, buf: &mut Vec<u8>)
        ensures
            final(buf)@ == old(buf)@ + frame_bytes(frame),
            frame matches Frame::Message(m) ==> final(buf)@ == old(buf)@ + m@,
            frame matches Frame::Error(e) ==> final(buf)@ == old(buf)@ + seq![
                0x5bu8,
                0x45u8,
                0x52u8,
                0x52u8,
                0x4fu8,
                0x52u8,
                0x5du8,
                0x20u8,
            ] + vstd::utf8::encode_utf8(e.text()) + seq![0x0au8],
            frame is Done ==> final(buf)@ == old(buf)@,
    {
        match frame {
            Frame::Message(bytes) => {
                write_slice(buf, bytes.as_slice());
            },
            Frame::Error(e) => {
                let prefix: [u8; 8] = [0x5bu8, 0x45u8, 0x52u8, 0x52u8, 0x4fu8, 0x52u8, 0x5du8, 0x20u8];
                assert(prefix@ =~= error_prefix());
                write_slice(buf, &prefix);
                let text = e.message();
                write_slice(buf, text.as_str().as_bytes());
                buf.push(0x0au8);
            },
            Frame::Done => {},
        }
    }
}

/// A message is written as exactly its encoded bytes, whatever they are.
pub proof fn lemma_message_written_as_is(m: Vec<u8>)
    ensures
        frame_bytes(Frame::Message(m)) == m@,
{
}

/// An error, of whatever kind, is written as one terminated line: the bytes
/// `[ERROR] `, the UTF-8 of its description, and a newline.
pub proof fn lemma_error_written_as_line(e: Error)
    ensures
        frame_bytes(Frame::Error(e)) == seq![
            0x5bu8,
            0x45u8,
            0x52u8,
            0x52u8,
            0x4fu8,
            0x52u8,
            0x5du8,
            0x20u8,
        ] + vstd::utf8::encode_utf8(e.text()) + seq![0x0au8],
        frame_bytes(Frame::Error(e)).len() == vstd::utf8::encode_utf8(e.text()).len() + 9,
        frame_bytes(Frame::Error(e)).last() == 0x0au8,
        frame_bytes(Frame::Error(e)).take(8) == seq![
            0x5bu8,
            0x45u8,
            0x52u8,
            0x52u8,
            0x4fu8,
            0x52u8,
            0x5du8,
            0x20u8,
        ],
{
    let bytes = frame_bytes(Frame::Error(e));
    assert(bytes.take(8) =~= error_prefix());
}

/// The end of the stream writes nothing.
pub proof fn lemma_done_writes_nothing()
    ensures
        frame_bytes(Frame::Done) == Seq::<u8>::empty(),
{
}

/// Taking a packet yields no frame exactly when no complete packet is
/// buffered; a complete packet is its message and a malformed one its error.
pub proof fn lemma_frame_of_taken<T>(taken: Result<Option<T>, Error>)
    ensures
        spec_frame_of(taken) is None <==> taken == Ok::<Option<T>, Error>(None),
        taken matches Ok(Some(m)) ==> spec_frame_of(taken) == Some(Frame::<T, Error>::Message(m)),
        taken matches Err(e) ==> spec_frame_of(taken) == Some(Frame::<T, Error>::Error(e)),
{
}

/// Every outcome of the service is answered: a response as its message, a
/// failure of any kind as its error, and never the end of the stream.
pub proof fn lemma_every_outcome_answered<T>(outcome: Result<T, Error>)
    ensures
        outcome matches Ok(v) ==> spec_response_frame(outcome) == Frame::<T, Error>::Message(v),
        outcome matches Err(e) ==> spec_response_frame(outcome) == Frame::<T, Error>::Error(e),
        !(spec_response_frame(outcome) is Done),
{
}

/// A failed request is answered on the wire by one terminated error line
/// that carries the failure's description.
pub proof fn lemma_failure_answered_with_error_line(e: Error)
    ensures
        frame_bytes(spec_response_frame(Err::<Vec<u8>, Error>(e))) == seq![
            0x5bu8,
            0x45u8,
            0x52u8,
            0x52u8,
            0x4fu8,
            0x52u8,
            0x5du8,
            0x20u8,
        ] + vstd::utf8::encode_utf8(e.text()) + seq![0x0au8],
        frame_bytes(spec_response_frame(Err::<Vec<u8>, Error>(e))).last() == 0x0au8,
{
    lemma_error_written_as_line(e);
}

} // verus!
