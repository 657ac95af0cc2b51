//! Moving clipboard text through a pipe without ever waiting for long.
//!
//! A transfer runs on a thread of its own. That thread waits for the pipe
//! for at most [`PIPE_TIMEOUT_MS`] at a time, then reads or writes once, and
//! tells the reader or writer here what came of it; the answer says whether
//! to go on. A transfer that fails does so for itself alone: its promise is
//! resolved with the failure and nothing else is touched.

use vstd::prelude::*;
use vstd::utf8::{decode_utf8, valid_utf8};
use crate::promise::Promise;

verus! {

/// How long a transfer waits for the pipe to become ready, in milliseconds.
pub const PIPE_TIMEOUT_MS: i32 = 3000;

/// Why a transfer failed.
#[derive(Clone, Copy, Debug, PartialEq, Eq)]
pub enum PipeError {
    /// The pipe did not become ready in time.
    TimedOut,
    /// Reading or writing failed.
    Io,
    /// The pipe took no byte though it was ready.
    ZeroWrite,
    /// What was read is not UTF-8.
    InvalidUtf8,
}

/// What to do next in a transfer.
#[derive(Clone, Copy, Debug, PartialEq, Eq)]
pub enum PipeStep {
    /// Wait for the pipe, then read or write once more.
    Poll,
    /// The transfer is complete.
    Done,
    /// The transfer has failed.
    Failed(PipeError),
}

/// What came of waiting for the pipe and reading from it.
pub enum ReadEvent {
    /// The pipe did not become readable in time.
    TimedOut,
    /// The read failed.
    Failed,
    /// The read gave these bytes; none means that the other side is done.
    Data(Vec<u8>),
}

/// What came of waiting for the pipe and writing to it.
#[derive(Clone, Copy, Debug, PartialEq, Eq)]
pub enum WriteEvent {
    /// The pipe did not become writable in time.
    TimedOut,
    /// The write failed.
    Failed,
    /// The pipe took this many of the bytes offered.
    Wrote(usize),
}

/// The bytes read so far.
pub struct PipeReader {
    pub data: Vec<u8>,
}

/// The bytes to send and how many of them have gone.
pub struct PipeWriter {
    pub data: Vec<u8>,
    pub written: usize,
}

/// `bytes` with every carriage return that a line feed follows taken out.
pub open spec fn unix_line_endings(bytes: Seq<u8>) -> Seq<u8>
    decreases bytes.len(),
{
    if bytes.len() == 0 {
        bytes
    } else if bytes.len() >= 2 && bytes[0] == 13 && bytes[1] == 10 {
        seq![10u8] + unix_line_endings(bytes.skip(2))
    } else {
        seq![bytes[0]] + unix_line_endings(bytes.skip(1))
    }
}

/// Decodes bytes by `String::from_utf8` of std, which gives a string
/// exactly if the bytes are valid UTF-8, and then the string made of these
/// bytes.
#[verifier::external_body]
fn string_from_utf8(bytes: Vec<u8>) -> (text: Option<String>)
    ensures
        text.is_some() == valid_utf8(bytes@),
        text.is_some() ==> text.unwrap()@ == decode_utf8(bytes@),
{
    match String::from_utf8(bytes) {
        Ok(text) => Some(text),
        Err(_) => None,
    }
}

/// Turns the line endings of `bytes` into those of Unix.
pub fn normalize_line_endings(bytes: &Vec<u8>) -> (out: Vec<u8>)
    ensures
        out@ == unix_line_endings(bytes@),
{
    let mut out: Vec<u8> = Vec::new();
    let mut i: usize = 0;
    assert(bytes@.skip(0) == bytes@);
    assert(out@ + unix_line_endings(bytes@) == unix_line_endings(bytes@));
    while i < bytes.len()
        invariant
            i <= bytes@.len(),
            out@ + unix_line_endings(bytes@.skip(i as int)) == unix_line_endings(bytes@),
        decreases bytes@.len() - i,
    {
        let ghost rest = bytes@.skip(i as int);
        let ghost before = out@;
        assert(rest[0] == bytes@[i as int]);
        if bytes[i] == 13 && i + 1 < bytes.len() && bytes[i + 1] == 10 {
            assert(rest[1] == bytes@[i + 1]);
            assert(rest.skip(2) == bytes@.skip(i + 2));
            out.push(10);
            assert(out@ + unix_line_endings(bytes@.skip(i + 2)) == before + (seq![10u8]
                + unix_line_endings(rest.skip(2))));
            i = i + 2;
        } else {
            proof {
                if rest.len() >= 2 {
                    assert(rest[1] == bytes@[i + 1]);
                }
            }
            assert(rest.skip(1) == bytes@.skip(i + 1));
            out.push(bytes[i]);
            assert(out@ + unix_line_endings(bytes@.skip(i + 1)) == before + (seq![rest[0]]
                + unix_line_endings(rest.skip(1))));
            i = i + 1;
        }
    }
    assert(bytes@.skip(i as int) == Seq::<u8>::empty());
    assert(out@ + Seq::<u8>::empty() == out@);
    out
}

/// The text that the bytes of a finished read stand for: the bytes with
/// Unix line endings, decoded, if that is valid UTF-8.
pub fn text_of(bytes: &Vec<u8>) -> (text: Result<String, PipeError>)
    ensures
        text.is_ok() == valid_utf8(unix_line_endings(bytes@)),
        text.is_ok() ==> text.unwrap()@ == decode_utf8(unix_line_endings(bytes@)),
        text.is_err() ==> text == Err::<String, PipeError>(PipeError::InvalidUtf8),
{
    match string_from_utf8(normalize_line_endings(bytes)) {
        Some(text) => Ok(text),
        None => Err(PipeError::InvalidUtf8),
    }
}

impl PipeReader {
    /// A reader that has read nothing yet.
    pub fn new() -> (reader: PipeReader)
        ensures
            reader.data@ == Seq::<u8>::empty(),
    {
        PipeReader { data: Vec::new() }
    }

    /// Takes in what came of one wait and read. Bytes are added to what
    /// was read and the transfer goes on; a read without bytes completes
    /// it; a pipe that was not ready in time, or a failed read, ends it with
    /// that error.
    pub fn on_event(&mut self, event: ReadEvent) -> (step: PipeStep)
        ensures
            match event {
                ReadEvent::TimedOut => step == PipeStep::Failed(PipeError::TimedOut)
                    && final(self).data@ == old(self).data@,
                ReadEvent::Failed => step == PipeStep::Failed(PipeError::Io) && final(self).data@
                    == old(self).data@,
                ReadEvent::Data(chunk) => final(self).data@ == old(self).data@ + chunk@ && step
                    == if chunk@.len() == 0 {
                    PipeStep::Done
                } else {
                    PipeStep::Poll
                },
            },
    {
        match event {
            ReadEvent::TimedOut => PipeStep::Failed(PipeError::TimedOut),
            ReadEvent::Failed => PipeStep::Failed(PipeError::Io),
            ReadEvent::Data(chunk) => {
                let mut chunk = chunk;
                if chunk.len() == 0 {
                    assert(self.data@ + chunk@ == self.data@);
                    PipeStep::Done
                } else {
                    self.data.append(&mut chunk);
                    PipeStep::Poll
                }
            },
        }
    }

    /// The text that was read, once the transfer is complete.
    pub fn into_text(self) -> (text: Result<String, PipeError>)
        ensures
            text.is_ok() == valid_utf8(unix_line_endings(self.data@)),
            text.is_ok() ==> text.unwrap()@ == decode_utf8(unix_line_endings(self.data@)),
            text.is_err() ==> text == Err::<String, PipeError>(PipeError::InvalidUtf8),
    {
        text_of(&self.data)
    }
}

impl PipeWriter {
    /// No more has gone than there is to send.
    pub open spec fn wf(self) -> bool {
        self.written <= self.data@.len()
    }

    /// What is still to be sent.
    pub open spec fn rest(self) -> Seq<u8> {
        self.data@.skip(self.written as int)
    }

    /// A writer for `data`, and the first step: there is nothing to wait
    /// for if there is nothing to send.
    pub fn new(data: Vec<u8>) -> (start: (PipeWriter, PipeStep))
        ensures
            start.0.data@ == data@,
            start.0.written == 0,
            start.0.wf(),
            start.1 == if data@.len() == 0 {
                PipeStep::Done
            } else {
                PipeStep::Poll
            },
    {
        let step = if data.len() == 0 {
            PipeStep::Done
        } else {
            PipeStep::Poll
        };
        (PipeWriter { data, written: 0 }, step)
    }

    /// The bytes to offer to the pipe next.
    pub fn remaining(&self) -> (bytes: &[u8])
        requires
            self.wf(),
        ensures
            bytes@ == self.rest(),
    {
        vstd::slice::slice_subrange(self.data.as_slice(), self.written, self.data.len())
    }

    /// Takes in what came of one wait and write. The bytes that the pipe
    /// took count as sent, and the transfer is complete when none is left;
    /// a pipe that was not ready in time, a failed write, or a write that
    /// took nothing ends it with that error.
    pub fn on_event(&mut self, event: WriteEvent) -> (step: PipeStep)
        requires
            old(self).wf(),
            event matches WriteEvent::Wrote(count) ==> count <= old(self).rest().len(),
        ensures
            final(self).data@ == old(self).data@,
            final(self).wf(),
            match event {
                WriteEvent::TimedOut => step == PipeStep::Failed(PipeError::TimedOut)
                    && final(self).written == old(self).written,
                WriteEvent::Failed => step == PipeStep::Failed(PipeError::Io) && final(self).written == old(self).written,
                WriteEvent::Wrote(count) => if count == 0 {
                    step == PipeStep::Failed(PipeError::ZeroWrite) && final(self).written == old(self).written
                } else {
                    final(self).written == old(self).written + count && step == if final(self).rest().len() == 0 {
                        PipeStep::Done
                    } else {
                        PipeStep::Poll
                    }
                },
            },
    {
        match event {
            WriteEvent::TimedOut => PipeStep::Failed(PipeError::TimedOut),
            WriteEvent::Failed => PipeStep::Failed(PipeError::Io),
            WriteEvent::Wrote(count) => {
                if count == 0 {
                    PipeStep::Failed(PipeError::ZeroWrite)
                } else {
                    let total = self.data.len();
                    assert(self.rest().len() == total - self.written);
                    self.written = self.written + count;
                    if self.written == total {
                        PipeStep::Done
                    } else {
                        PipeStep::Poll
                    }
                }
            },
        }
    }
}

/// Resolves the promise of a clipboard read with what the transfer ended
/// in: the text with Unix line endings if it was read in full and is valid
/// UTF-8, else the failure.
pub fn resolve_clipboard(promise: &mut Promise<String, PipeError>, read: Result<Vec<u8>, PipeError>)
    requires
        old(promise).is_pending(),
    ensures
        final(promise).slot.is_some(),
        match read {
            Ok(bytes) => if valid_utf8(unix_line_endings(bytes@)) {
                final(promise).slot.unwrap().is_ok() && final(promise).slot.unwrap().unwrap()@
                    == decode_utf8(unix_line_endings(bytes@))
            } else {
                final(promise).slot.unwrap() == Err::<String, PipeError>(PipeError::InvalidUtf8)
            },
            Err(error) => final(promise).slot.unwrap() == Err::<String, PipeError>(error),
        },
{
    match read {
        Ok(bytes) => {
            promise.result(text_of(&bytes));
        },
        Err(error) => {
            promise.err(error);
        },
    }
}

} // verus!
