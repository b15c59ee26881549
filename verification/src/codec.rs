//! Delimiter framing: splitting an accumulating byte buffer into frames that
//! end with (and include) one configurable delimiter byte.

use vstd::prelude::*;

verus! {

/// True when `b` holds the byte `d` somewhere.
pub open spec fn contains_delim(b: Seq<u8>, d: u8) -> bool {
    exists|j: int| 0 <= j < b.len() && b[j] == d
}

/// True when the first occurrence of `d` in `b` is at index `i`.
pub open spec fn found_at(b: Seq<u8>, d: u8, i: int) -> bool {
    &&& 0 <= i < b.len()
    &&& b[i] == d
    &&& forall|j: int| 0 <= j < i ==> b[j] != d
}

/// Splits a byte stream into frames terminated by one delimiter byte.
///
/// Decoding removes at most one frame per call from the front of the
/// buffer; encoding appends the payload followed by one delimiter byte.
#[derive(Clone, Copy, Debug)]
pub struct DelimCodec {
    /// The frame-terminating byte.
    pub delim: u8,
}

impl DelimCodec {
    /// A codec for frames terminated by `delim`.
    pub fn new(delim: u8) -> (c: DelimCodec)
        ensures
            c.delim == delim,
    {
        DelimCodec { delim }
    }

    /// Appends `payload` and then one delimiter byte to `dst`.
    pub fn encode(&self, payload: &Vec<u8>, dst: &mut Vec<u8>)
        ensures
            final(dst)@ == old(dst)@ + payload@ + seq![self.delim],
    {
        let n = payload.len();
        let mut k: usize = 0;
        while k < n
            invariant
                n == payload@.len(),
                k <= n,
                dst@ == old(dst)@ + payload@.subrange(0, k as int),
            decreases n - k,
        {
            dst.push(payload[k]);
            k = k + 1;
            assert(old(dst)@ + payload@.subrange(0, k - 1) + seq![payload@[k - 1]]
                =~= old(dst)@ + payload@.subrange(0, k as int));
        }
        assert(payload@.subrange(0, n as int) =~= payload@);
        dst.push(self.delim);
    }

    /// Removes and returns the first frame of `buf`: everything up to and
    /// including the first delimiter byte. When no delimiter is present the
    /// buffer is left unchanged and no frame is produced.
    pub fn decode(&self, buf: &mut Vec<u8>) -> (r: Option<Vec<u8>>)
        ensures
            r is None ==> {
                &&& final(buf)@ == old(buf)@
                &&& !contains_delim(old(buf)@, self.delim)
            },
            r matches Some(frame) ==> {
                &&& frame@.len() >= 1
                &&& found_at(old(buf)@, self.delim, frame@.len() - 1)
                &&& frame@ == old(buf)@.subrange(0, frame@.len() as int)
                &&& final(buf)@ == old(buf)@.subrange(
                    frame@.len() as int,
                    old(buf)@.len() as int,
                )
            },
    {
        let n = buf.len();
        let mut i: usize = 0;
        while i < n && buf[i] != self.delim
            invariant
                n == buf@.len(),
                i <= n,
                buf@ == old(buf)@,
                forall|j: int| 0 <= j < i ==> buf@[j] != self.delim,
            decreases n - i,
        {
            i = i + 1;
        }
        if i == n {
            return None;
        }
        let mut frame: Vec<u8> = Vec::new();
        let mut k: usize = 0;
        while k <= i
            invariant
                i < n,
                n == buf@.len(),
                buf@ == old(buf)@,
                k <= i + 1,
                frame@ == buf@.subrange(0, k as int),
            decreases i + 1 - k,
        {
            frame.push(buf[k]);
            k = k + 1;
            assert(buf@.subrange(0, k - 1) + seq![buf@[k - 1]]
                =~= buf@.subrange(0, k as int));
        }
        let mut rest: Vec<u8> = Vec::new();
        let mut m: usize = i + 1;
        while m < n
            invariant
                i < n,
                n == buf@.len(),
                buf@ == old(buf)@,
                i + 1 <= m <= n,
                rest@ == buf@.subrange(i + 1, m as int),
            decreases n - m,
        {
            rest.push(buf[m]);
            m = m + 1;
            assert(buf@.subrange(i + 1, m - 1) + seq![buf@[m - 1]]
                =~= buf@.subrange(i + 1, m as int));
        }
        *buf = rest;
        Some(frame)
    }

    /// Decoding at end of stream: a frame holding the first delimiter if one
    /// is present, otherwise the whole remaining buffer as one final,
    /// delimiter-less frame, and no frame at all for an empty remainder.
    pub fn decode_eof(&self, buf: &mut Vec<u8>) -> (r: Option<Vec<u8>>)
        ensures
            r is None ==> {
                &&& final(buf)@ == old(buf)@
                &&& old(buf)@.len() == 0
            },
            r matches Some(frame) ==> {
                &&& frame@.len() >= 1
                &&& frame@ == old(buf)@.subrange(0, frame@.len() as int)
                &&& final(buf)@ == old(buf)@.subrange(
                    frame@.len() as int,
                    old(buf)@.len() as int,
                )
                &&& if contains_delim(old(buf)@, self.delim) {
                    found_at(old(buf)@, self.delim, frame@.len() - 1)
                } else {
                    frame@ == old(buf)@
                }
            },
    {
        match self.decode(buf) {
            Some(frame) => Some(frame),
            None => {
                if buf.len() == 0 {
                    None
                } else {
                    let mut frame: Vec<u8> = Vec::new();
                    std::mem::swap(&mut frame, buf);
                    proof {
                        assert(frame@ =~= old(buf)@.subrange(0, frame@.len() as int));
                        assert(buf@ =~= old(buf)@.subrange(
                            frame@.len() as int,
                            old(buf)@.len() as int,
                        ));
                    }
                    Some(frame)
                }
            },
        }
    }
}

/// Law: framing round-trips. A frame encoded from a delimiter-free payload
/// decodes back off the front of any stream: in `payload + [d] + rest` the
/// first delimiter sits right after the payload, the first frame is exactly
/// `payload + [d]`, and what remains is exactly `rest`.
pub proof fn lemma_round_trip(payload: Seq<u8>, rest: Seq<u8>, d: u8)
    requires
        !contains_delim(payload, d),
    ensures
        found_at(payload + seq![d] + rest, d, payload.len() as int),
        (payload + seq![d] + rest).subrange(0, payload.len() + 1int) == payload + seq![d],
        (payload + seq![d] + rest).subrange(
            payload.len() + 1int,
            (payload + seq![d] + rest).len() as int,
        ) == rest,
{
    let b = payload + seq![d] + rest;
    assert(b[payload.len() as int] == d);
    assert forall|j: int| 0 <= j < payload.len() implies b[j] != d by {
        assert(b[j] == payload[j]);
    }
    assert(b.subrange(0, payload.len() + 1int) =~= payload + seq![d]);
    assert(b.subrange(payload.len() + 1int, b.len() as int) =~= rest);
}

} // verus!
