//! A pass-through byte budget for one body stream.
use vstd::prelude::*;

verus! {

/// The default budget of a request body and of a response body: 500 MiB.
pub const MAX_BODY_SIZE: u64 = 500 * 1024 * 1024;

/// Reading the next chunk would take the body past its budget.
#[derive(Debug, Clone, Copy, PartialEq, Eq, Structural)]
pub enum BodyLimitError {
    LimitExceeded,
}

/// Counts the bytes of one body against a ceiling. It buffers nothing: the
/// consumer asks for each chunk before it is forwarded.
pub struct BodyLimit {
    limit: u64,
    consumed: u64,
}

/// What a limiter holds: its ceiling and the bytes let through so far.
pub ghost struct BodyLimitView {
    pub limit: nat,
    pub consumed: nat,
}

impl View for BodyLimit {
    type V = BodyLimitView;

    closed spec fn view(&self) -> BodyLimitView {
        BodyLimitView { limit: self.limit as nat, consumed: self.consumed as nat }
    }
}

impl BodyLimit {
    /// The limiter never lets more than its ceiling through.
    pub closed spec fn wf(&self) -> bool {
        self.consumed <= self.limit
    }

    /// A fresh limiter with ceiling `limit`.
    pub fn new(limit: u64) -> (r: BodyLimit)
        ensures
            r.wf(),
            r@ == (BodyLimitView { limit: limit as nat, consumed: 0 }),
    {
        BodyLimit { limit, consumed: 0 }
    }

    pub fn limit(&self) -> (r: u64)
        ensures
            r == self@.limit,
    {
        self.limit
    }

    pub fn consumed(&self) -> (r: u64)
        ensures
            r == self@.consumed,
    {
        self.consumed
    }

    /// Asks to let a chunk of `len` bytes through. It passes exactly when the
    /// total stays within the ceiling; a refused chunk changes nothing, and the
    /// caller then aborts the connection.
    pub fn consume(&mut self, len: u64) -> (r: Result<(), BodyLimitError>)
        requires
            old(self).wf(),
        ensures
            final(self).wf(),
            final(self)@.limit == old(self)@.limit,
            r is Ok <==> old(self)@.consumed + len <= old(self)@.limit,
            r is Ok ==> final(self)@.consumed == old(self)@.consumed + len,
            r is Err ==> final(self)@ == old(self)@,
    {
        if len <= self.limit - self.consumed {
            self.consumed = self.consumed + len;
            Ok(())
        } else {
            Err(BodyLimitError::LimitExceeded)
        }
    }
}

/// The sum of a sequence of chunk lengths.
pub open spec fn total(chunks: Seq<u64>) -> nat
    decreases chunks.len(),
{
    if chunks.len() == 0 {
        0
    } else {
        total(chunks.drop_last()) + chunks.last() as nat
    }
}

proof fn lemma_total_monotone(chunks: Seq<u64>, i: int)
    requires
        0 <= i <= chunks.len(),
    ensures
        total(chunks.take(i)) <= total(chunks),
    decreases chunks.len(),
{
    if i < chunks.len() {
        assert(chunks.drop_last().take(i) == chunks.take(i));
        lemma_total_monotone(chunks.drop_last(), i);
    } else {
        assert(chunks.take(i) == chunks);
    }
}

/// Feeds the chunk lengths of one body through a fresh limiter with ceiling
/// `limit`, stopping at the first refusal. Returns how many chunks were let
/// through, and whether the body was cut off (the connection is then aborted).
pub fn limit_body(limit: u64, chunks: &Vec<u64>) -> (r: (usize, bool))
    ensures
        r.1 <==> total(chunks@) > limit,
        r.0 <= chunks@.len(),
        total(chunks@.take(r.0 as int)) <= limit,
        !r.1 ==> r.0 == chunks@.len(),
        r.1 ==> total(chunks@.take(r.0 as int + 1)) > limit,
{
    let mut lim = BodyLimit::new(limit);
    let mut i: usize = 0;
    while i < chunks.len()
        invariant
            i <= chunks@.len(),
            lim.wf(),
            lim@.limit == limit,
            lim@.consumed == total(chunks@.take(i as int)),
        decreases chunks@.len() - i,
    {
        assert(chunks@.take(i + 1).drop_last() == chunks@.take(i as int));
        match lim.consume(chunks[i]) {
            Ok(()) => {},
            Err(_) => {
                proof {
                    lemma_total_monotone(chunks@, i + 1);
                }
                return (i, true);
            },
        }
        i = i + 1;
    }
    assert(chunks@.take(i as int) == chunks@);
    (i, false)
}

} // verus!
