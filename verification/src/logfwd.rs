use vstd::prelude::*;
use crate::strutil::str_eq;

verus! {

/// The level a forwarded log record is re-emitted at.
#[derive(Clone, Copy, PartialEq, Eq, Structural, Debug)]
pub enum LogLevel {
    Trace,
    Debug,
    Info,
    Warn,
    Error,
}

/// The level named by a record's `level` field; an unknown name falls
/// back to `Info`.
pub open spec fn spec_level(s: Seq<char>) -> LogLevel {
    if s == "trace"@ {
        LogLevel::Trace
    } else if s == "debug"@ {
        LogLevel::Debug
    } else if s == "info"@ {
        LogLevel::Info
    } else if s == "warn"@ {
        LogLevel::Warn
    } else if s == "error"@ {
        LogLevel::Error
    } else {
        LogLevel::Info
    }
}

pub fn parse_level(s: &str) -> (r: LogLevel)
    ensures
        r == spec_level(s@),
{
    if str_eq(s, "trace") {
        LogLevel::Trace
    } else if str_eq(s, "debug") {
        LogLevel::Debug
    } else if str_eq(s, "info") {
        LogLevel::Info
    } else if str_eq(s, "warn") {
        LogLevel::Warn
    } else if str_eq(s, "error") {
        LogLevel::Error
    } else {
        LogLevel::Info
    }
}

/// Appends a slice to a byte vector.
pub fn append_bytes(dst: &mut Vec<u8>, src: &[u8])
    ensures
        final(dst)@ == old(dst)@ + src@,
{
    let mut i: usize = 0;
    while i < src.len()
        invariant
            i <= src@.len(),
            dst@ == old(dst)@ + src@.take(i as int),
        decreases src@.len() - i,
    {
        dst.push(src[i]);
        proof {
            assert(old(dst)@ + src@.take(i + 1) =~= (old(dst)@ + src@.take(i as int)).push(
                src@[i as int],
            ));
        }
        i = i + 1;
    }
    proof {
        assert(old(dst)@ + src@.take(src@.len() as int) =~= old(dst)@ + src@);
    }
}

/// The framing state of the log forwarder: every byte read from the log
/// pipe that has not yet been consumed as part of one complete record.
/// The driver reads up to and including each `}` byte, offers the whole
/// buffer to the record parser, and reports back whether it parsed; a
/// record that did not yet parse keeps accumulating, since a later `}`
/// may complete a nested object.  A partial record left at EOF is
/// discarded with the forwarder.
pub struct LogForwarder {
    pub buffer: Vec<u8>,
}

impl LogForwarder {
    pub fn new() -> (r: Self)
        ensures
            r.buffer@ == Seq::<u8>::empty(),
    {
        LogForwarder { buffer: Vec::new() }
    }

    /// A chunk read from the log pipe joins the buffer.
    pub fn on_chunk(&mut self, chunk: &[u8])
        ensures
            final(self).buffer@ == old(self).buffer@ + chunk@,
    {
        append_bytes(&mut self.buffer, chunk);
    }

    /// The driver reports whether the buffer parsed as one record: a
    /// parsed record is consumed whole, anything else is kept.
    pub fn on_parse_result(&mut self, parsed: bool)
        ensures
            parsed ==> final(self).buffer@ == Seq::<u8>::empty(),
            !parsed ==> final(self).buffer@ == old(self).buffer@,
    {
        if parsed {
            self.buffer = Vec::new();
        }
    }
}

} // verus!
