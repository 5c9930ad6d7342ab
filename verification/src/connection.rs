use vstd::prelude::*;
use crate::errors::ServerErrorKind;
use crate::framing::{Framer, spec_next_frame};
use crate::protocol::Protocol;

verus! {

/// The fixed reply sent for a malformed request: the bytes of
/// `"malformed\n"`. It carries no protocol data beyond this sentinel.
pub open spec fn spec_malformed_reply() -> Seq<u8> {
    seq![109u8, 97u8, 108u8, 102u8, 111u8, 114u8, 109u8, 101u8, 100u8, 10u8]
}

/// The fixed malformed reply as a vector, ready to be written back.
pub fn malformed_reply() -> (r: Vec<u8>)
    ensures
        r@ == spec_malformed_reply(),
{
    let mut v: Vec<u8> = Vec::new();
    v.push(109);  // m
    v.push(97);  // a
    v.push(108);  // l
    v.push(102);  // f
    v.push(111);  // o
    v.push(114);  // r
    v.push(109);  // m
    v.push(101);  // e
    v.push(100);  // d
    v.push(10);  // newline
    proof {
        assert(v@ =~= spec_malformed_reply());
    }
    v
}

/// What dispatching one framed payload to a handler yields: the bytes to
/// write back, and whether the connection stays open afterwards. A payload
/// the handler rejects draws the fixed malformed reply and closes the
/// connection.
pub open spec fn spec_dispatch<P: Protocol>(h: P, line: Seq<u8>) -> (Seq<u8>, bool) {
    if h.spec_accepts(line) {
        (h.spec_reply(line), true)
    } else {
        (spec_malformed_reply(), false)
    }
}

/// One malformed request draws exactly the fixed malformed reply, and the
/// connection does not stay open: the loop never resynchronizes on the same
/// byte stream.
pub proof fn lemma_malformed_payload_closes<P: Protocol>(h: P, line: Seq<u8>)
    requires
        !h.spec_accepts(line),
    ensures
        spec_dispatch(h, line).0 == spec_malformed_reply(),
        !spec_dispatch(h, line).1,
{
}

/// A conforming request draws the handler's owed reply, and the connection
/// stays open for further requests.
pub proof fn lemma_conforming_payload_keeps_open<P: Protocol>(h: P, line: Seq<u8>)
    requires
        h.spec_accepts(line),
    ensures
        spec_dispatch(h, line).0 == h.spec_reply(line),
        spec_dispatch(h, line).1,
{
}

/// The per-connection state machine: it owns the framer, the protocol
/// handler and the continue flag, and decides, for each event on the byte
/// stream, what to write back and whether to go on. The socket itself stays
/// outside; its reads are handed in through `feed` and the end of the
/// stream through `on_end_of_stream`.
pub struct Connection<P> {
    pub handler: P,
    pub framer: Framer,
    pub open: bool,
}

impl<P: Protocol> Connection<P> {
    /// The framer follows the handler's fixed delimiter policy.
    pub open spec fn wf(self) -> bool {
        self.framer.delimiter == self.handler.spec_delimiter()
    }

    /// A fresh connection around a handler: open, nothing buffered, framed
    /// by the handler's delimiter policy.
    pub fn new(handler: P) -> (c: Connection<P>)
        ensures
            c.wf(),
            c.open,
            c.handler == handler,
            c.framer.buffered@ == Seq::<u8>::empty(),
    {
        let delimiter = handler.get_delimiter();
        Connection { handler, framer: Framer::new(delimiter), open: true }
    }

    /// Whether the connection still wants input.
    pub fn is_open(&self) -> (b: bool)
        ensures
            b == self.open,
    {
        self.open
    }

    /// Hands bytes read from the peer to the framer.
    pub fn feed(&mut self, chunk: &[u8])
        requires
            old(self).open,
        ensures
            final(self).open,
            final(self).wf() == old(self).wf(),
            final(self).handler == old(self).handler,
            final(self).framer.delimiter == old(self).framer.delimiter,
            final(self).framer.buffered@ == old(self).framer.buffered@ + chunk@,
    {
        self.framer.feed(chunk);
    }

    /// Takes the next full frame, if one is buffered, and dispatches it:
    /// the result is the reply to write back, and the continue flag drops
    /// exactly when the frame was malformed. With no full frame buffered,
    /// nothing changes.
    pub fn poll_reply(&mut self) -> (r: Option<Vec<u8>>)
        requires
            old(self).open,
            old(self).wf(),
        ensures
            final(self).wf(),
            final(self).handler.spec_delimiter() == old(self).handler.spec_delimiter(),
            match spec_next_frame(old(self).framer.buffered@, old(self).framer.delimiter) {
                Some(cut) => ({
                    let dispatched = spec_dispatch(old(self).handler, cut.0);
                    r matches Some(reply) && reply@ == dispatched.0 && final(self).open
                        == dispatched.1 && final(self).framer.buffered@ == cut.1
                }),
                None => r is None && final(self).open == old(self).open
                    && final(self).handler == old(self).handler
                    && final(self).framer.buffered@ == old(self).framer.buffered@,
            },
    {
        match self.framer.next_frame() {
            None => None,
            Some(frame) => {
                match self.handler.process_request(frame.as_slice()) {
                    Ok(reply) => Some(reply),
                    Err(_) => {
                        self.open = false;
                        Some(malformed_reply())
                    },
                }
            },
        }
    }

    /// The peer has shut down cleanly: whatever is still buffered (at most
    /// one partial frame) is dispatched as a last payload, and the
    /// connection closes. Call this only once no full frame is buffered.
    pub fn on_end_of_stream(&mut self) -> (r: Option<Vec<u8>>)
        requires
            old(self).open,
            old(self).wf(),
            spec_next_frame(old(self).framer.buffered@, old(self).framer.delimiter) is None,
        ensures
            !final(self).open,
            final(self).wf(),
            final(self).framer.buffered@ == Seq::<u8>::empty(),
            old(self).framer.buffered@.len() == 0 ==> r is None,
            old(self).framer.buffered@.len() > 0 ==> (r matches Some(reply) && reply@
                == spec_dispatch(old(self).handler, old(self).framer.buffered@).0),
    {
        let rest = self.framer.take_rest();
        self.open = false;
        if rest.len() == 0 {
            None
        } else {
            match self.handler.process_request(rest.as_slice()) {
                Ok(reply) => Some(reply),
                Err(_) => Some(malformed_reply()),
            }
        }
    }

    /// A failed read terminates only this connection; no reply is owed.
    pub fn on_read_error(&mut self) -> (e: ServerErrorKind)
        requires
            old(self).open,
        ensures
            !final(self).open,
            final(self).handler == old(self).handler,
            final(self).framer == old(self).framer,
            e == ServerErrorKind::ReadFail,
    {
        self.open = false;
        ServerErrorKind::ReadFail
    }

    /// A failed write or flush terminates only this connection.
    pub fn on_write_error(&mut self) -> (e: ServerErrorKind)
        requires
            old(self).open,
        ensures
            !final(self).open,
            final(self).handler == old(self).handler,
            final(self).framer == old(self).framer,
            e == ServerErrorKind::WriteFail,
    {
        self.open = false;
        ServerErrorKind::WriteFail
    }
}

} // verus!
