use vstd::prelude::*;

verus! {

/// The concatenation of a sequence of payload chunks, in arrival order.
pub open spec fn concat_chunks(chunks: Seq<Seq<u8>>) -> Seq<u8>
    decreases chunks.len(),
{
    if chunks.len() == 0 {
        Seq::empty()
    } else {
        concat_chunks(chunks.drop_last()) + chunks.last()
    }
}

/// The views of a vector of chunks.
pub open spec fn chunk_views(chunks: Seq<Vec<u8>>) -> Seq<Seq<u8>> {
    chunks.map_values(|c: Vec<u8>| c@)
}

/// A payload is refused before any chunk is read when the length the client
/// declared is larger than the limit.
pub open spec fn declared_overflows(limit: usize, declared: Option<usize>) -> bool {
    match declared {
        Some(len) => len > limit,
        None => false,
    }
}

/// A payload is accepted exactly when its declared length (if any) and its
/// actual total length both stay within the limit.
pub open spec fn payload_accepted(limit: usize, declared: Option<usize>, chunks: Seq<Seq<u8>>) -> bool {
    !declared_overflows(limit, declared) && concat_chunks(chunks).len() <= limit
}

/// Collects a request payload chunk by chunk and refuses it as soon as the
/// collected bytes would grow past the limit.
pub struct BodyLimit {
    limit: usize,
    body: Vec<u8>,
}

impl BodyLimit {
    /// The configured limit.
    pub closed spec fn limit_spec(&self) -> usize {
        self.limit
    }

    /// The bytes collected so far.
    pub closed spec fn collected(&self) -> Seq<u8> {
        self.body@
    }

    /// What collected bytes always satisfy: they fit in the limit.
    pub closed spec fn wf(&self) -> bool {
        self.body@.len() <= self.limit
    }

    /// Starts collecting a payload whose declared length is `declared`;
    /// refuses it at once (`None`) when that length is larger than `limit`.
    pub fn start(limit: usize, declared: Option<usize>) -> (r: Option<BodyLimit>)
        ensures
            r is None <==> declared_overflows(limit, declared),
            r matches Some(b) ==> b.wf() && b.limit_spec() == limit && b.collected() == Seq::<u8>::empty(),
    {
        match declared {
            Some(len) => {
                if len > limit {
                    return None;
                }
            },
            None => {},
        }
        Some(BodyLimit { limit, body: Vec::new() })
    }

    /// Appends one chunk; refuses it (and keeps what was collected) when the
    /// collected bytes would then exceed the limit.
    pub fn push(&mut self, chunk: &[u8]) -> (r: Result<(), ()>)
        requires
            old(self).wf(),
        ensures
            final(self).wf(),
            final(self).limit_spec() == old(self).limit_spec(),
            r is Ok <==> old(self).collected().len() + chunk@.len() <= old(self).limit_spec(),
            r is Ok ==> final(self).collected() == old(self).collected() + chunk@,
            r is Err ==> final(self).collected() == old(self).collected(),
    {
        let room = self.limit - self.body.len();
        if chunk.len() > room {
            return Err(());
        }
        let mut i: usize = 0;
        let ghost start = self.body@;
        while i < chunk.len()
            invariant
                0 <= i <= chunk@.len(),
                chunk@.len() <= room,
                room == self.limit - start.len(),
                self.body@ == start + chunk@.subrange(0, i as int),
            decreases chunk@.len() - i,
        {
            self.body.push(chunk[i]);
            i = i + 1;
            assert(self.body@ =~= start + chunk@.subrange(0, i as int));
        }
        assert(chunk@.subrange(0, chunk@.len() as int) =~= chunk@);
        Ok(())
    }

    /// Hands out the collected payload.
    pub fn finish(self) -> (r: Vec<u8>)
        requires
            self.wf(),
        ensures
            r@ == self.collected(),
            r@.len() <= self.limit_spec(),
    {
        self.body
    }
}

/// Reads a whole payload that arrives as `chunks` under `limit`: the bytes in
/// arrival order when they are accepted, `None` when the declared length or
/// the running total exceeds the limit.
pub fn collect_payload(limit: usize, declared: Option<usize>, chunks: &Vec<Vec<u8>>) -> (r: Option<
    Vec<u8>,
>)
    ensures
        r is Some <==> payload_accepted(limit, declared, chunk_views(chunks@)),
        r matches Some(body) ==> body@ == concat_chunks(chunk_views(chunks@)) && body@.len() <= limit,
{
    let ghost views = chunk_views(chunks@);
    let mut reader = match BodyLimit::start(limit, declared) {
        Some(b) => b,
        None => return None,
    };
    let mut i: usize = 0;
    while i < chunks.len()
        invariant
            0 <= i <= chunks@.len(),
            views == chunk_views(chunks@),
            !declared_overflows(limit, declared),
            reader.wf(),
            reader.limit_spec() == limit,
            reader.collected() == concat_chunks(views.subrange(0, i as int)),
        decreases chunks@.len() - i,
    {
        assert(views.subrange(0, i + 1).drop_last() =~= views.subrange(0, i as int));
        assert(views[i as int] == chunks@[i as int]@);
        match reader.push(chunks[i].as_slice()) {
            Ok(()) => {},
            Err(()) => {
                proof {
                    lemma_concat_prefix_grows(views, i + 1);
                }
                return None;
            },
        }
        i = i + 1;
    }
    assert(views.subrange(0, chunks@.len() as int) =~= views);
    Some(reader.finish())
}

/// The total length of a prefix of the chunks never exceeds the total length
/// of all of them.
pub proof fn lemma_concat_prefix_grows(chunks: Seq<Seq<u8>>, n: int)
    requires
        0 <= n <= chunks.len(),
    ensures
        concat_chunks(chunks.subrange(0, n)).len() <= concat_chunks(chunks).len(),
    decreases chunks.len() - n,
{
    if n < chunks.len() {
        lemma_concat_prefix_grows(chunks, n + 1);
        assert(chunks.subrange(0, n + 1).drop_last() =~= chunks.subrange(0, n));
    } else {
        assert(chunks.subrange(0, n) =~= chunks);
    }
}

} // verus!
