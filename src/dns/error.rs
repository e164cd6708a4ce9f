use vstd::prelude::*;

use crate::dns::text::{append, decimal, decimal_of, hex_encode, hex_of};

verus! {

/// What went wrong, independent of the message text.
#[derive(Debug, Clone, Copy, PartialEq, Eq, Structural)]
pub enum ErrorKind {
    /// Fewer bytes remain than a read requires.
    ShortBuffer,
    /// A pointer loop, a reserved label type, or a label that is not UTF-8.
    MalformedName,
    /// RDATA or a character-string does not have the layout its type asks for.
    MalformedRecord,
    /// The record type has no typed view.
    UnsupportedType,
    /// A value cannot be written in the wire format.
    Encode,
    /// The multicast transport failed.
    Transport,
    /// Any other failure, described by its message.
    Other,
}

/// An error of the codec: its kind and a human-readable message.
#[derive(Debug)]
pub struct Error {
    pub kind: ErrorKind,
    pub msg: String,
}

impl Error {
    /// from_str creates a new Error with the specified string.
    pub fn from_str(str: &str) -> (r: Error)
        ensures
            r.kind == ErrorKind::Other,
            r.msg@ == str@,
    {
        Error { kind: ErrorKind::Other, msg: str.to_owned() }
    }

    /// from_string creates a new Error with the specified string.
    pub fn from_string(str: &String) -> (r: Error)
        ensures
            r.kind == ErrorKind::Other,
            r.msg@ == str@,
    {
        Error { kind: ErrorKind::Other, msg: str.clone() }
    }

    /// from_bytes creates a ShortBuffer error that shows the bytes and the offset.
    pub fn from_bytes(msg_bytes: &[u8], offset: usize) -> (r: Error)
        ensures
            r.kind == ErrorKind::ShortBuffer,
            r.msg@ == Error::bytes_message(msg_bytes@, offset),
    {
        Error::with_kind(ErrorKind::ShortBuffer, msg_bytes, offset)
    }

    /// The message of an error raised at `offset` of `bytes`.
    pub open spec fn bytes_message(bytes: Seq<u8>, offset: usize) -> Seq<char> {
        "Invalid bytes "@ + hex_of(bytes) + " (offset:"@ + decimal_of(offset as nat) + ")"@
    }

    /// An error of the given kind that shows the bytes and the offset.
    pub fn with_kind(kind: ErrorKind, msg_bytes: &[u8], offset: usize) -> (r: Error)
        ensures
            r.kind == kind,
            r.msg@ == Error::bytes_message(msg_bytes@, offset),
    {
        let mut msg = "Invalid bytes ".to_owned();
        let hex = hex_encode(msg_bytes);
        append(&mut msg, hex.as_str());
        append(&mut msg, " (offset:");
        let dec = decimal(offset);
        append(&mut msg, dec.as_str());
        append(&mut msg, ")");
        Error { kind, msg }
    }

    /// message returns the error message.
    pub fn message(&self) -> (r: &str)
        ensures
            r@ == self.msg@,
    {
        self.msg.as_str()
    }
}

} // verus!
