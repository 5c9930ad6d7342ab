use vstd::prelude::*;
use crate::protocol::RequestDelimiter;

verus! {

/// The position just past the first occurrence of `d` in `buf`, if any.
pub open spec fn spec_find_byte(buf: Seq<u8>, d: u8) -> Option<int>
    decreases buf.len(),
{
    if buf.len() == 0 {
        None
    } else if buf[0] == d {
        Some(0)
    } else {
        match spec_find_byte(buf.drop_first(), d) {
            Some(i) => Some(i + 1),
            None => None,
        }
    }
}

/// `spec_find_byte` yields exactly the first index holding `d`.
pub proof fn lemma_find_byte_characterization(buf: Seq<u8>, d: u8)
    ensures
        match spec_find_byte(buf, d) {
            Some(i) => 0 <= i < buf.len() && buf[i] == d && (forall|j: int|
                0 <= j < i ==> buf[j] != d),
            None => forall|j: int| 0 <= j < buf.len() ==> buf[j] != d,
        },
    decreases buf.len(),
{
    if buf.len() > 0 && buf[0] != d {
        let rest = buf.drop_first();
        lemma_find_byte_characterization(rest, d);
        match spec_find_byte(rest, d) {
            Some(i) => {
                assert(buf[i + 1] == d);
                assert forall|j: int| 0 <= j < i + 1 implies buf[j] != d by {
                    if j > 0 {
                        assert(rest[j - 1] != d);
                    }
                }
            },
            None => {
                assert forall|j: int| 0 <= j < buf.len() implies buf[j] != d by {
                    if j > 0 {
                        assert(rest[j - 1] != d);
                    }
                }
            },
        }
    }
}

/// How one frame is cut from the accumulated bytes: the frame and the
/// remainder, or nothing while the bytes do not yet hold a full frame.
/// Under `UntilChar` the delimiter byte is kept at the end of the frame;
/// under `NoOfBytes` the frame is exactly that many bytes.
pub open spec fn spec_next_frame(buf: Seq<u8>, delim: RequestDelimiter) -> Option<
    (Seq<u8>, Seq<u8>),
> {
    match delim {
        RequestDelimiter::UntilChar(d) => match spec_find_byte(buf, d) {
            Some(i) => Some((buf.take(i + 1), buf.skip(i + 1))),
            None => None,
        },
        RequestDelimiter::NoOfBytes(n) => if n <= buf.len() {
            Some((buf.take(n as int), buf.skip(n as int)))
        } else {
            None
        },
    }
}

/// Cuts a byte stream into discrete payloads under a fixed delimiter policy.
///
/// Bytes arrive in arbitrary chunks through `feed`; `next_frame` hands out
/// one full frame at a time and keeps the remainder. The framer never
/// interprets payload contents.
pub struct Framer {
    pub delimiter: RequestDelimiter,
    pub buffered: Vec<u8>,
}

impl Framer {
    /// An empty framer with the given delimiter policy.
    pub fn new(delimiter: RequestDelimiter) -> (f: Framer)
        ensures
            f.delimiter == delimiter,
            f.buffered@ == Seq::<u8>::empty(),
    {
        Framer { delimiter, buffered: Vec::new() }
    }

    /// Appends freshly read bytes to the accumulated buffer.
    pub fn feed(&mut self, chunk: &[u8])
        ensures
            final(self).delimiter == old(self).delimiter,
            final(self).buffered@ == old(self).buffered@ + chunk@,
    {
        let mut i: usize = 0;
        while i < chunk.len()
            invariant
                i <= chunk@.len(),
                self.delimiter == old(self).delimiter,
                self.buffered@ == old(self).buffered@ + chunk@.take(i as int),
            decreases chunk@.len() - i,
        {
            self.buffered.push(chunk[i]);
            i = i + 1;
            proof {
                assert(self.buffered@ =~= old(self).buffered@ + chunk@.take(i as int));
            }
        }
        proof {
            assert(chunk@.take(chunk@.len() as int) =~= chunk@);
        }
    }

    /// Cuts the next full frame from the buffer, if one is there, and keeps
    /// the bytes after it; otherwise leaves the buffer as it is.
    pub fn next_frame(&mut self) -> (r: Option<Vec<u8>>)
        ensures
            final(self).delimiter == old(self).delimiter,
            match spec_next_frame(old(self).buffered@, old(self).delimiter) {
                Some(cut) => r matches Some(frame) && frame@ == cut.0
                    && final(self).buffered@ == cut.1,
                None => r is None && final(self).buffered@ == old(self).buffered@,
            },
    {
        let frame_end: usize = match self.delimiter {
            RequestDelimiter::UntilChar(d) => {
                let mut i: usize = 0;
                let mut end_pos: usize = 0;
                loop
                    invariant
                        i <= self.buffered@.len(),
                        forall|j: int| 0 <= j < i ==> self.buffered@[j] != d,
                        self == old(self),
                        self.delimiter == RequestDelimiter::UntilChar(d),
                    ensures
                        0 < end_pos <= self.buffered@.len(),
                        spec_find_byte(self.buffered@, d) == Some(end_pos - 1),
                        self == old(self),
                        self.delimiter == RequestDelimiter::UntilChar(d),
                    decreases self.buffered@.len() - i,
                {
                    if i >= self.buffered.len() {
                        proof {
                            lemma_find_byte_characterization(self.buffered@, d);
                            match spec_find_byte(self.buffered@, d) {
                                Some(k) => {
                                    assert(self.buffered@[k] != d);
                                },
                                None => {},
                            }
                        }
                        return None;
                    }
                    if self.buffered[i] == d {
                        proof {
                            lemma_find_byte_characterization(self.buffered@, d);
                            match spec_find_byte(self.buffered@, d) {
                                Some(k) => {
                                    if k < i {
                                        assert(self.buffered@[k] != d);
                                    }
                                    if k > i {
                                        assert(self.buffered@[i as int] != d);
                                    }
                                },
                                None => {
                                    assert(self.buffered@[i as int] != d);
                                },
                            }
                        }
                        end_pos = i + 1;
                        break ;
                    }
                    i = i + 1;
                }
                end_pos
            },
            RequestDelimiter::NoOfBytes(n) => {
                if n > self.buffered.len() {
                    return None;
                }
                n
            },
        };
        let mut rest = self.buffered.split_off(frame_end);
        core::mem::swap(&mut self.buffered, &mut rest);
        proof {
            assert(rest@ =~= old(self).buffered@.take(frame_end as int));
            assert(self.buffered@ =~= old(self).buffered@.skip(frame_end as int));
        }
        Some(rest)
    }

    /// Hands out whatever is still buffered once the stream has ended, and
    /// leaves the framer empty.
    pub fn take_rest(&mut self) -> (r: Vec<u8>)
        ensures
            final(self).delimiter == old(self).delimiter,
            final(self).buffered@ == Seq::<u8>::empty(),
            r@ == old(self).buffered@,
    {
        let mut rest: Vec<u8> = Vec::new();
        core::mem::swap(&mut self.buffered, &mut rest);
        rest
    }
}

} // verus!
