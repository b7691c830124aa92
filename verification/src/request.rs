//! The response side of the request pipeline.
//!
//! A request is issued by the HTTP layer outside this library; what comes
//! back is a status code and a stream of body chunks. The library decides
//! whether the status admits a body at all, and accumulates the chunks, in
//! arrival order and without transformation, into one contiguous buffer.

use vstd::prelude::*;

use crate::errors::Error;

verus! {

/// Whether an HTTP status code lies in the success range.
pub open spec fn success_status(status: u16) -> bool {
    200 <= status < 300
}

/// Appending one more chunk extends the flattened whole by exactly that
/// chunk.
proof fn lemma_flatten_push(s: Seq<Seq<u8>>, c: Seq<u8>)
    ensures
        s.push(c).flatten() == s.flatten() + c,
{
    let p = s.push(c);
    assert(p.drop_last() =~= s);
    assert(p.last() == c);
    p.lemma_flatten_and_flatten_alt_are_equivalent();
    s.lemma_flatten_and_flatten_alt_are_equivalent();
    assert(p.flatten_alt() == p.drop_last().flatten_alt().add(p.last()));
}

/// Accumulates the body of one response: begun only on a success status,
/// fed one chunk at a time, and drained once the stream ends. The buffer is
/// always exactly the concatenation of the chunks fed so far.
pub struct ResponseAccumulator {
    status: u16,
    data: Vec<u8>,
    chunks: Ghost<Seq<Seq<u8>>>,
}

impl ResponseAccumulator {
    /// The chunks fed so far, in arrival order.
    pub closed spec fn chunks(self) -> Seq<Seq<u8>> {
        self.chunks@
    }

    /// The accumulated bytes.
    pub closed spec fn bytes(self) -> Seq<u8> {
        self.data@
    }

    /// The status the response arrived with.
    pub closed spec fn status(self) -> u16 {
        self.status
    }

    /// The accumulated bytes are the concatenation of the arrived chunks,
    /// and the status was in the success range.
    pub closed spec fn wf(self) -> bool {
        self.data@ == self.chunks@.flatten() && success_status(self.status)
    }

    /// Starts accumulating a response body. A status outside the success
    /// range is rejected with an error carrying that status, and the body is
    /// never read.
    pub fn begin(status: u16) -> (r: Result<ResponseAccumulator, Error>)
        ensures
            r is Ok <==> success_status(status),
            (r matches Ok(a) ==> a.wf() && a.status() == status && a.chunks()
                == Seq::<Seq<u8>>::empty()),
            (r matches Err(e) ==> e == (Error::HttpStatus { status })),
    {
        if 200 <= status && status < 300 {
            let acc = ResponseAccumulator {
                status,
                data: Vec::new(),
                chunks: Ghost(Seq::empty()),
            };
            proof {
                assert(acc.chunks@.flatten() =~= Seq::<u8>::empty());
            }
            Ok(acc)
        } else {
            Err(Error::HttpStatus { status })
        }
    }

    /// Appends one arrived chunk to the buffer, unchanged and in order.
    pub fn push_chunk(&mut self, chunk: &[u8])
        requires
            old(self).wf(),
        ensures
            final(self).wf(),
            final(self).status() == old(self).status(),
            final(self).chunks() == old(self).chunks().push(chunk@),
            final(self).bytes() == old(self).bytes() + chunk@,
    {
        let n = chunk.len();
        let mut i: usize = 0;
        while i < n
            invariant
                i <= n,
                n == chunk@.len(),
                self.data@ == old(self).data@ + chunk@.subrange(0, i as int),
                self.status == old(self).status,
                self.chunks@ == old(self).chunks@,
            decreases n - i,
        {
            let b = chunk[i];
            self.data.push(b);
            proof {
                assert(self.data@ =~= old(self).data@ + chunk@.subrange(0, i + 1 as int));
            }
            i += 1;
        }
        proof {
            assert(chunk@.subrange(0, n as int) =~= chunk@);
            self.chunks@ = self.chunks@.push(chunk@);
            lemma_flatten_push(old(self).chunks@, chunk@);
        }
    }

    /// A chunk read failed mid-transfer: the transfer aborts, the bytes
    /// accumulated so far are discarded, and a stream error is all that is
    /// left.
    pub fn abort(self, detail: String) -> (e: Error)
        ensures
            e == (Error::Stream { detail }),
    {
        Error::Stream { detail }
    }

    /// The stream ended: hands out the complete body, exactly the
    /// concatenation of the arrived chunks.
    pub fn finish(self) -> (r: Vec<u8>)
        requires
            self.wf(),
        ensures
            r@ == self.chunks().flatten(),
            r@ == self.bytes(),
    {
        self.data
    }
}

/// Concatenates already-collected chunks into one contiguous buffer, in
/// order and without transformation.
pub fn accumulate_chunks(chunks: &Vec<Vec<u8>>) -> (r: Vec<u8>)
    ensures
        r@ == chunks.deep_view().flatten(),
{
    let mut out: Vec<u8> = Vec::new();
    proof {
        assert(chunks.deep_view().take(0).flatten() =~= Seq::<u8>::empty());
    }
    let n = chunks.len();
    let mut j: usize = 0;
    while j < n
        invariant
            j <= n,
            n == chunks@.len(),
            chunks.deep_view().len() == n,
            out@ == chunks.deep_view().take(j as int).flatten(),
            forall|k: int| 0 <= k < n ==> chunks.deep_view()[k] == chunks@[k]@,
        decreases n - j,
    {
        let chunk = &chunks[j];
        let m = chunk.len();
        let mut i: usize = 0;
        while i < m
            invariant
                i <= m,
                j < n,
                m == chunk@.len(),
                chunk@ == chunks@[j as int]@,
                out@ == chunks.deep_view().take(j as int).flatten() + chunk@.subrange(
                    0,
                    i as int,
                ),
            decreases m - i,
        {
            let b = chunk[i];
            out.push(b);
            proof {
                assert(out@ =~= chunks.deep_view().take(j as int).flatten() + chunk@.subrange(
                    0,
                    i + 1 as int,
                ));
            }
            i += 1;
        }
        proof {
            assert(chunk@.subrange(0, m as int) =~= chunk@);
            lemma_flatten_push(chunks.deep_view().take(j as int), chunk@);
            assert(chunks.deep_view().take(j as int).push(chunks.deep_view()[j as int])
                =~= chunks.deep_view().take(j + 1 as int));
        }
        j += 1;
    }
    proof {
        assert(chunks.deep_view().take(n as int) =~= chunks.deep_view());
    }
    out
}

} // verus!
