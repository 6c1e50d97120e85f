//! The stream forwarder: turns the raw byte stream of one captured output
//! stream into stream-tagged line events. Lines are delimiter-terminated; a
//! final unterminated fragment at stream close is never emitted, matching
//! line-buffered semantics. A completed line that is not valid UTF-8 is a
//! read-error-adjacent condition: the forwarder stops silently at it rather
//! than crash the supervisor.

use vstd::prelude::*;
use vstd::utf8::decode_utf8;
use vstd::utf8::valid_utf8;

use crate::events::McpServerLog;
use crate::events::McpServerLogView;
use crate::events::StreamKind;
use crate::events::wrap_line;
use crate::events::wrap_line_spec;

verus! {

/// The line delimiter.
pub const NEWLINE: u8 = 10;

/// Stripped from the end of a completed line, so `\r\n` also ends a line.
pub const CARRIAGE_RETURN: u8 = 13;

/// `line` with one trailing carriage return removed.
pub open spec fn strip_cr(line: Seq<u8>) -> Seq<u8> {
    if line.len() > 0 && line.last() == CARRIAGE_RETURN {
        line.drop_last()
    } else {
        line
    }
}

/// Splits `bytes` into the lines it completes, given the unterminated
/// prefix `cur` carried over from earlier input: the completed lines (each
/// without its delimiter and without one trailing carriage return) paired
/// with the new unterminated remainder.
pub open spec fn split_rec(bytes: Seq<u8>, cur: Seq<u8>) -> (Seq<Seq<u8>>, Seq<u8>)
    decreases bytes.len(),
{
    if bytes.len() == 0 {
        (seq![], cur)
    } else if bytes[0] == NEWLINE {
        let r = split_rec(bytes.drop_first(), seq![]);
        (seq![strip_cr(cur)] + r.0, r.1)
    } else {
        split_rec(bytes.drop_first(), cur.push(bytes[0]))
    }
}

/// Incremental line splitter: buffers bytes until a delimiter completes a
/// line. Whatever never sees its delimiter stays pending and is never
/// emitted.
pub struct LineSplitter {
    buf: Vec<u8>,
}

impl LineSplitter {
    /// The unterminated bytes currently buffered.
    pub closed spec fn pending(self) -> Seq<u8> {
        self.buf@
    }

    /// A splitter with nothing pending.
    pub fn new() -> (r: LineSplitter)
        ensures
            r.pending() == Seq::<u8>::empty(),
    {
        LineSplitter { buf: Vec::new() }
    }

    /// Feeds one chunk; returns every line the chunk completes, in input
    /// order, and keeps the unterminated remainder pending.
    #[verifier::loop_isolation(false)]
    pub fn push_chunk(&mut self, chunk: &[u8]) -> (lines: Vec<Vec<u8>>)
        ensures
            lines.deep_view() == split_rec(chunk@, old(self).pending()).0,
            final(self).pending() == split_rec(chunk@, old(self).pending()).1,
    {
        let ghost full = split_rec(chunk@, old(self).pending());
        let mut lines: Vec<Vec<u8>> = Vec::new();
        let mut i: usize = 0;
        proof {
            assert(chunk@.skip(0) =~= chunk@);
            assert(lines.deep_view() =~= Seq::<Seq<u8>>::empty());
            assert(lines.deep_view() + full.0 =~= full.0);
        }
        while i < chunk.len()
            invariant
                i <= chunk.len(),
                full.0 == lines.deep_view() + split_rec(chunk@.skip(i as int), self.buf@).0,
                full.1 == split_rec(chunk@.skip(i as int), self.buf@).1,
            decreases chunk.len() - i,
        {
            let b = chunk[i];
            proof {
                assert(chunk@.skip(i as int)[0] == chunk@[i as int]);
                assert(chunk@.skip(i as int).drop_first() =~= chunk@.skip(i + 1));
            }
            let ghost pre_buf = self.buf@;
            if b == NEWLINE {
                if self.buf.len() > 0 && self.buf[self.buf.len() - 1] == CARRIAGE_RETURN {
                    self.buf.pop();
                }
                proof {
                    assert(self.buf@ =~= strip_cr(pre_buf));
                }
                let mut taken: Vec<u8> = Vec::new();
                core::mem::swap(&mut taken, &mut self.buf);
                let ghost pre_lines = lines.deep_view();
                lines.push(taken);
                proof {
                    assert(self.buf@ =~= Seq::<u8>::empty());
                    assert(taken@ == strip_cr(pre_buf));
                    assert(lines.deep_view() =~~= pre_lines.push(strip_cr(pre_buf)));
                    let rest = split_rec(chunk@.skip(i + 1), Seq::<u8>::empty());
                    assert(split_rec(chunk@.skip(i as int), pre_buf).0 == seq![strip_cr(pre_buf)]
                        + rest.0);
                    assert(pre_lines + (seq![strip_cr(pre_buf)] + rest.0) =~= pre_lines.push(
                        strip_cr(pre_buf),
                    ) + rest.0);
                }
            } else {
                self.buf.push(b);
                proof {
                    assert(self.buf@ =~= pre_buf.push(b));
                }
            }
            i += 1;
        }
        proof {
            assert(chunk@.skip(chunk.len() as int) =~= Seq::<u8>::empty());
        }
        lines
    }
}

/// The events one forwarder produces from a sequence of completed lines,
/// and whether it may keep running: it stops at the first line that is not
/// valid UTF-8, emitting exactly the events before it.
pub open spec fn forward_lines(kind: StreamKind, lines: Seq<Seq<u8>>) -> (Seq<McpServerLogView>,
    bool)
    decreases lines.len(),
{
    if lines.len() == 0 {
        (seq![], true)
    } else if !valid_utf8(lines[0]) {
        (seq![], false)
    } else {
        let r = forward_lines(kind, lines.drop_first());
        (seq![wrap_line_spec(kind, decode_utf8(lines[0]))] + r.0, r.1)
    }
}

/// Relies on str::from_utf8: it succeeds exactly on UTF-8 input, and then
/// decodes the bytes to the character sequence vstd's UTF-8 model states.
#[verifier::external_body]
fn decode_line(bytes: &Vec<u8>) -> (r: Option<String>)
    ensures
        r is Some <==> valid_utf8(bytes@),
        r matches Some(s) ==> s@ == decode_utf8(bytes@),
{
    match core::str::from_utf8(bytes.as_slice()) {
        Ok(s) => Some(s.to_owned()),
        Err(_) => None,
    }
}

/// One stream forwarder: splits its stream into lines, decodes each, and
/// tags it with the stream of origin. Within its stream, events preserve
/// source order.
pub struct StreamForwarder {
    kind: StreamKind,
    splitter: LineSplitter,
}

impl StreamForwarder {
    /// The stream this forwarder serves.
    pub closed spec fn kind_spec(self) -> StreamKind {
        self.kind
    }

    /// The unterminated bytes currently buffered.
    pub closed spec fn pending(self) -> Seq<u8> {
        self.splitter.pending()
    }

    /// A forwarder for `kind` with nothing pending.
    pub fn new(kind: StreamKind) -> (r: StreamForwarder)
        ensures
            r.kind_spec() == kind,
            r.pending() == Seq::<u8>::empty(),
    {
        StreamForwarder { kind, splitter: LineSplitter::new() }
    }

    /// Feeds one chunk read from the stream. Returns the events to send, in
    /// stream order, and whether the forwarder may keep running: `false`
    /// means a completed line was not valid UTF-8, and the forwarder has
    /// stopped silently after the events before it.
    #[verifier::loop_isolation(false)]
    pub fn push_chunk(&mut self, chunk: &[u8]) -> (r: (Vec<McpServerLog>, bool))
        ensures
            ({
                let sp = split_rec(chunk@, old(self).pending());
                let fw = forward_lines(old(self).kind_spec(), sp.0);
                &&& r.0.deep_view() == fw.0
                &&& r.1 == fw.1
                &&& final(self).pending() == sp.1
                &&& final(self).kind_spec() == old(self).kind_spec()
            }),
    {
        let kind = self.kind;
        let lines = self.splitter.push_chunk(chunk);
        let ghost ls = lines.deep_view();
        let ghost fw = forward_lines(kind, ls);
        let mut events: Vec<McpServerLog> = Vec::new();
        let mut i: usize = 0;
        proof {
            assert(ls.skip(0) =~= ls);
            assert(events.deep_view() =~= Seq::<McpServerLogView>::empty());
            assert(events.deep_view() + fw.0 =~= fw.0);
        }
        while i < lines.len()
            invariant
                i <= lines.len(),
                fw.0 == events.deep_view() + forward_lines(kind, ls.skip(i as int)).0,
                fw.1 == forward_lines(kind, ls.skip(i as int)).1,
            decreases lines.len() - i,
        {
            proof {
                assert(ls.skip(i as int)[0] == ls[i as int]);
                assert(ls.skip(i as int).drop_first() =~= ls.skip(i + 1));
                assert(lines@[i as int]@ =~= lines@[i as int].deep_view());
                assert(lines@[i as int].deep_view() == ls[i as int]);
            }
            match decode_line(&lines[i]) {
                Some(text) => {
                    let ghost pre = events.deep_view();
                    events.push(wrap_line(kind, text));
                    proof {
                        let rest = forward_lines(kind, ls.skip(i + 1));
                        assert(events.deep_view() =~= pre.push(
                            wrap_line_spec(kind, decode_utf8(ls[i as int])),
                        ));
                        assert(pre + (seq![wrap_line_spec(kind, decode_utf8(ls[i as int]))]
                            + rest.0) =~= pre.push(wrap_line_spec(kind, decode_utf8(ls[i as int])))
                            + rest.0);
                    }
                },
                None => {
                    proof {
                        assert(forward_lines(kind, ls.skip(i as int)).0
                            =~= Seq::<McpServerLogView>::empty());
                        assert(events.deep_view() + forward_lines(kind, ls.skip(i as int)).0
                            =~= events.deep_view());
                    }
                    return (events, false);
                },
            }
            i += 1;
        }
        proof {
            assert(ls.skip(lines.len() as int) =~= Seq::<Seq<u8>>::empty());
            assert(events.deep_view() + forward_lines(kind, ls.skip(lines.len() as int)).0
                =~= events.deep_view());
        }
        (events, true)
    }
}

} // verus!
