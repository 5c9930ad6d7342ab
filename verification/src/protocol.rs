use vstd::prelude::*;
use crate::errors::SolutionError;

verus! {

/// How the framer finds the boundary of one request in the byte stream:
/// either read until a given byte appears (the byte is kept as part of the
/// payload), or read exactly a given number of bytes.
#[derive(Clone, Copy, Debug, PartialEq, Eq, Structural)]
pub enum RequestDelimiter {
    UntilChar(u8),
    NoOfBytes(usize),
}

/// What a protocol implementation must provide to plug into the connection
/// loop: a fixed delimiter policy, and a way to turn one framed payload into
/// the exact reply bytes, or into a malformed signal carrying the offending
/// bytes.
///
/// The three spec functions describe the implementation's behaviour: which
/// payloads it accepts, and the reply it owes for an accepted payload. New
/// protocols are added by implementing this trait; the connection loop is
/// protocol-agnostic.
pub trait Protocol: Sized {
    /// The delimiter policy of this instance; it never changes.
    spec fn spec_delimiter(&self) -> RequestDelimiter;

    /// Whether this payload is a conforming request.
    spec fn spec_accepts(&self, line: Seq<u8>) -> bool;

    /// The reply owed for a conforming payload.
    spec fn spec_reply(&self, line: Seq<u8>) -> Seq<u8>;

    /// The delimiter between two requests, fixed per instance.
    ///
    /// The intended policy for line-oriented protocols is "until newline".
    fn get_delimiter(&self) -> (d: RequestDelimiter)
        ensures
            d == self.spec_delimiter(),
    ;

    /// Processes one framed payload: a conforming payload draws exactly the
    /// owed reply, anything else draws a malformed signal carrying the
    /// payload itself. The delimiter policy survives the call.
    fn process_request(&mut self, line: &[u8]) -> (r: Result<Vec<u8>, SolutionError>)
        ensures
            final(self).spec_delimiter() == old(self).spec_delimiter(),
            old(self).spec_accepts(line@) ==> (r matches Ok(reply) && reply@ == old(
                self,
            ).spec_reply(line@)),
            !old(self).spec_accepts(line@) ==> (r matches Err(e) && e matches
            SolutionError::Request(b) && b@ == line@),
    ;
}

} // verus!
