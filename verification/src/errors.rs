use vstd::prelude::*;

verus! {

/// The errors of the protocol: a plain message, or the description of an
/// I/O or s-expression failure.
#[derive(Debug)]
pub enum Error {
    Msg(String),
    Io(String),
    Sexp(String),
}

/// A failure of the pipelined transport: one that the transport itself
/// carries, or an I/O failure, given by its description.
#[derive(Debug)]
pub enum ProtoError<T> {
    Transport(T),
    Io(String),
}

/// The error that a transport failure becomes.
pub open spec fn spec_from_proto(x: ProtoError<Error>) -> Error {
    match x {
        ProtoError::Transport(e) => e,
        ProtoError::Io(s) => Error::Io(s),
    }
}

impl Error {
    /// The error that a transport failure becomes: a carried error is passed
    /// on as it is, an I/O failure becomes an I/O error.
    pub fn from_proto(x: ProtoError<Error>) -> (e: Error)
        ensures
            e == spec_from_proto(x),
    {
        match x {
            ProtoError::Transport(e) => e,
            ProtoError::Io(s) => Error::Io(s),
        }
    }

    /// The text that describes the error.
    pub open spec fn text(self) -> Seq<char> {
        match self {
            Error::Msg(s) => s@,
            Error::Io(s) => s@,
            Error::Sexp(s) => s@,
        }
    }

    /// The text that describes the error, as it is displayed.
    pub fn message(&self) -> (s: String)
        ensures
            s@ == self.text(),
    {
        match self {
            Error::Msg(s) => s.clone(),
            Error::Io(s) => s.clone(),
            Error::Sexp(s) => s.clone(),
        }
    }
}

} // verus!
