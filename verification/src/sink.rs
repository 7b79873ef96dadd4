//! Where the markup goes: the contract of a sink, an in-memory sink, and a
//! sink that forwards to any destination for bytes.

use crate::error::WriteFailure;
use vstd::prelude::*;
use vstd::string::StringExecFns;
use vstd::utf8::{decode_utf8, encode_utf8, encode_utf8_decode_utf8, valid_utf8};

verus! {

/// A linear append target for markup.
pub trait Sink {
    /// The text of the writes that the sink has taken, in order.
    spec fn accepted(&self) -> Seq<char>;

    /// How many writes the sink has refused.
    spec fn refused(&self) -> nat;

    /// Whether the sink takes every write.
    spec fn infallible(&self) -> bool;

    /// Appends `text`, or refuses it. A refused write is counted and adds
    /// nothing to what the sink holds as accepted.
    fn write_str(&mut self, text: &str) -> (r: Result<(), WriteFailure>)
        ensures
            final(self).infallible() == old(self).infallible(),
            old(self).infallible() ==> r is Ok,
            r is Ok ==> {
                &&& final(self).accepted() == old(self).accepted() + text@
                &&& final(self).refused() == old(self).refused()
            },
            r is Err ==> {
                &&& final(self).accepted() == old(self).accepted()
                &&& final(self).refused() == old(self).refused() + 1
            },
    ;
}

/// A sink that keeps the markup in memory.
#[derive(Debug)]
pub struct StringIO {
    buffer: String,
}

impl View for StringIO {
    type V = Seq<char>;

    closed spec fn view(&self) -> Seq<char> {
        self.buffer@
    }
}

impl StringIO {
    /// An empty sink.
    pub fn new() -> (sink: StringIO)
        ensures
            sink@ == Seq::<char>::empty(),
    {
        StringIO { buffer: String::new() }
    }

    /// Appends the text that `buf` encodes and returns how many bytes that
    /// were. Bytes that are not UTF-8 are refused and leave the sink as it
    /// was.
    pub fn write(&mut self, buf: &[u8]) -> (r: Result<usize, WriteFailure>)
        ensures
            match r {
                Ok(n) => {
                    &&& valid_utf8(buf@)
                    &&& n == buf@.len()
                    &&& final(self)@ == old(self)@ + decode_utf8(buf@)
                },
                Err(_) => !valid_utf8(buf@) && final(self)@ == old(self)@,
            },
    {
        match utf8_str(buf) {
            Some(text) => {
                proof {
                    encode_utf8_decode_utf8(text@);
                }
                self.buffer.append(text);
                Ok(buf.len())
            },
            None => Err(WriteFailure),
        }
    }

    /// Does nothing: the sink holds all that was written.
    pub fn flush(&mut self) -> (r: Result<(), WriteFailure>)
        ensures
            r is Ok,
            final(self)@ == old(self)@,
    {
        Ok(())
    }

    /// A copy of the text written so far.
    pub fn to_string(&self) -> (text: String)
        ensures
            text@ == self@,
    {
        self.buffer.clone()
    }
}

impl Default for StringIO {
    fn default() -> (sink: StringIO)
        ensures
            sink@ == Seq::<char>::empty(),
    {
        StringIO::new()
    }
}

impl Sink for StringIO {
    open spec fn accepted(&self) -> Seq<char> {
        self@
    }

    open spec fn refused(&self) -> nat {
        0
    }

    open spec fn infallible(&self) -> bool {
        true
    }

    fn write_str(&mut self, text: &str) -> (r: Result<(), WriteFailure>) {
        self.buffer.append(text);
        Ok(())
    }
}

/// `std::str::from_utf8` reads a slice of bytes as a string slice: it gives
/// the slice whose UTF-8 encoding these bytes are when they are valid UTF-8,
/// and an error, here `None`, when they are not.
#[verifier::external_body]
fn utf8_str(bytes: &[u8]) -> (text: Option<&str>)
    ensures
        text is Some <==> valid_utf8(bytes@),
        text matches Some(s) ==> encode_utf8(s@) == bytes@,
{
    std::str::from_utf8(bytes).ok()
}

/// A destination for bytes that may refuse them, such as a file.
pub trait ByteWriter {
    /// Takes all of `bytes`, or reports that it could not.
    fn write_all(&mut self, bytes: &[u8]) -> Result<(), WriteFailure>;
}

/// A sink that hands each write on to a [`ByteWriter`] as UTF-8, and keeps
/// count of the text the writer took and of the writes it refused.
pub struct ByteSink<W: ByteWriter> {
    writer: W,
    taken: Ghost<Seq<char>>,
    refusals: Ghost<nat>,
}

impl<W: ByteWriter> ByteSink<W> {
    /// The writer behind the sink.
    pub closed spec fn writer(&self) -> W {
        self.writer
    }

    /// A sink in front of `writer` that has taken and refused nothing yet.
    pub fn new(writer: W) -> (sink: ByteSink<W>)
        ensures
            sink.writer() == writer,
            sink.accepted() == Seq::<char>::empty(),
            sink.refused() == 0,
    {
        ByteSink { writer, taken: Ghost(Seq::empty()), refusals: Ghost(0) }
    }

    /// Gives the writer back.
    pub fn into_writer(self) -> (writer: W)
        ensures
            writer == self.writer(),
    {
        self.writer
    }
}

impl<W: ByteWriter> Sink for ByteSink<W> {
    closed spec fn accepted(&self) -> Seq<char> {
        self.taken@
    }

    closed spec fn refused(&self) -> nat {
        self.refusals@
    }

    open spec fn infallible(&self) -> bool {
        false
    }

    fn write_str(&mut self, text: &str) -> (r: Result<(), WriteFailure>) {
        match self.writer.write_all(text.as_bytes()) {
            Ok(()) => {
                proof {
                    self.taken@ = self.taken@ + text@;
                }
                Ok(())
            },
            Err(failure) => {
                proof {
                    self.refusals@ = self.refusals@ + 1;
                }
                Err(failure)
            },
        }
    }
}

} // verus!
