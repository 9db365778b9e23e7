use vstd::prelude::*;
use crate::error::ExtractError;

verus! {

/// Reads a value optionally: a failed read gives `None` rather than an error
/// response, so this reading never fails.
pub fn option_from_request<T, E>(inner: Result<T, E>) -> (r: Result<Option<T>, ExtractError>)
    ensures
        match inner {
            Ok(v) => r == Ok::<Option<T>, ExtractError>(Some(v)),
            Err(_) => r == Ok::<Option<T>, ExtractError>(None),
        },
{
    match inner {
        Ok(v) => Ok(Some(v)),
        Err(_) => Ok(None),
    }
}

/// Reads a value together with its error: a failed read hands the error to
/// the handler rather than answering it, so this reading never fails.
pub fn result_from_request<T, E>(inner: Result<T, E>) -> (r: Result<Result<T, E>, ExtractError>)
    ensures
        r == Ok::<Result<T, E>, ExtractError>(inner),
{
    match inner {
        Ok(v) => Ok(Ok(v)),
        Err(e) => Ok(Err(e)),
    }
}

/// Reads nothing: this reading always succeeds.
pub fn unit_from_request() -> (r: Result<(), ExtractError>)
    ensures
        r == Ok::<(), ExtractError>(()),
{
    Ok(())
}

/// What polling one pending read gives.
pub enum Poll<T> {
    /// The read is done.
    Ready(T),
    /// The read waits for more input.
    NotReady,
}

/// One pass over the pending reads of a tuple: the next slot to consider and
/// whether every read polled so far was done.
pub struct Round {
    next: usize,
    ready: bool,
}

impl Round {
    /// The first slot not yet considered in this pass.
    pub closed spec fn next_spec(&self) -> usize {
        self.next
    }

    /// Whether every read polled in this pass was done.
    pub closed spec fn ready_spec(&self) -> bool {
        self.ready
    }
}

/// Reads several values at once, one per slot, each with its own read that
/// may need several polls. A slot once read keeps its value and is not
/// polled again; a failed read ends the whole read.
pub struct TupleRead<T> {
    items: Vec<Option<T>>,
}

impl<T> TupleRead<T> {
    /// The slots: the values read so far.
    pub closed spec fn slots(&self) -> Seq<Option<T>> {
        self.items@
    }

    /// Whether the pass has considered every slot before `round.next` and
    /// found all of them read, when the pass is still ready.
    pub open spec fn round_ok(&self, round: Round) -> bool {
        &&& round.next_spec() <= self.slots().len()
        &&& round.ready_spec() ==> forall|j: int|
            0 <= j < round.next_spec() ==> (#[trigger] self.slots()[j]) is Some
    }

    /// A read of `n` values, none read yet.
    pub fn new(n: usize) -> (r: TupleRead<T>)
        ensures
            r.slots().len() == n,
            forall|j: int| 0 <= j < n ==> (#[trigger] r.slots()[j]) is None,
    {
        let mut items: Vec<Option<T>> = Vec::new();
        let mut i: usize = 0;
        while i < n
            invariant
                0 <= i <= n,
                items@.len() == i,
                forall|j: int| 0 <= j < i ==> (#[trigger] items@[j]) is None,
            decreases n - i,
        {
            items.push(None);
            i = i + 1;
        }
        TupleRead { items }
    }

    /// Starts a pass over the pending reads.
    pub fn start_round(&self) -> (r: Round)
        ensures
            r.next_spec() == 0,
            r.ready_spec(),
            self.round_ok(r),
    {
        Round { next: 0, ready: true }
    }

    /// The next slot that this pass must poll: the first slot from
    /// `round.next` on that is not read yet, or `None` when the pass is over.
    pub fn next_pending(&self, round: &Round) -> (r: Option<usize>)
        requires
            self.round_ok(*round),
        ensures
            match r {
                Some(i) => round.next_spec() <= i < self.slots().len() && self.slots()[i as int] is None
                    && forall|j: int| round.next_spec() <= j < i ==> (#[trigger] self.slots()[j]) is Some,
                None => forall|j: int|
                    round.next_spec() <= j < self.slots().len() ==> (#[trigger] self.slots()[j]) is Some,
            },
    {
        let mut i = round.next;
        while i < self.items.len()
            invariant
                round.next_spec() <= i <= self.slots().len(),
                forall|j: int| round.next_spec() <= j < i ==> (#[trigger] self.slots()[j]) is Some,
            decreases self.slots().len() - i,
        {
            if self.items[i].is_none() {
                return Some(i);
            }
            i = i + 1;
        }
        None
    }

    /// Records what polling the read of slot `i` gave: a done read fills the
    /// slot; a waiting read makes the pass not ready; a failure ends the
    /// whole read with that error.
    pub fn record(&mut self, round: &mut Round, i: usize, outcome: Result<Poll<T>, ExtractError>) -> (r:
        Result<(), ExtractError>)
        requires
            old(self).round_ok(*old(round)),
            old(round).next_spec() <= i < old(self).slots().len(),
            old(self).slots()[i as int] is None,
            forall|j: int| old(round).next_spec() <= j < i ==> (#[trigger] old(self).slots()[j]) is Some,
        ensures
            final(self).round_ok(*final(round)),
            final(round).next_spec() == i + 1,
            match outcome {
                Ok(Poll::Ready(v)) => r is Ok && final(self).slots() == old(self).slots().update(
                    i as int,
                    Some(v),
                ) && final(round).ready_spec() == old(round).ready_spec(),
                Ok(Poll::NotReady) => r is Ok && final(self).slots() == old(self).slots()
                    && !final(round).ready_spec(),
                Err(e) => r == Err::<(), ExtractError>(e) && final(self).slots() == old(self).slots()
                    && !final(round).ready_spec(),
            },
    {
        let n = self.items.len();
        assert(i < n);
        round.next = i + 1;
        match outcome {
            Ok(Poll::Ready(v)) => {
                let ghost before = self.items@;
                self.items.set(i, Some(v));
                assert forall|j: int| 0 <= j < i + 1 && round.ready implies (
                #[trigger] self.items@[j]) is Some by {
                    if j < i {
                        assert(self.items@[j] == before[j]);
                    }
                }
                Ok(())
            },
            Ok(Poll::NotReady) => {
                round.ready = false;
                Ok(())
            },
            Err(e) => {
                round.ready = false;
                Err(e)
            },
        }
    }

    /// Ends a pass: when every read is done, hands out all the values in slot
    /// order and empties the slots; otherwise nothing changes.
    pub fn finish_round(&mut self, round: &Round) -> (r: Option<Vec<T>>)
        requires
            old(self).round_ok(*round),
            forall|j: int|
                round.next_spec() <= j < old(self).slots().len() ==> (#[trigger] old(self).slots()[j]) is Some,
        ensures
            round.ready_spec() ==> r is Some,
            !round.ready_spec() ==> r is None && final(self).slots() == old(self).slots(),
            r matches Some(v) ==> v@.len() == old(self).slots().len() && (forall|j: int|
                0 <= j < v@.len() ==> old(self).slots()[j] == Some(#[trigger] v@[j]))
                && final(self).slots().len() == old(self).slots().len() && (forall|j: int|
                0 <= j < final(self).slots().len() ==> (#[trigger] final(self).slots()[j]) is None),
    {
        if !round.ready {
            return None;
        }
        let ghost before = self.items@;
        let n = self.items.len();
        let mut items: Vec<Option<T>> = Vec::new();
        std::mem::swap(&mut items, &mut self.items);
        let mut out: Vec<T> = Vec::new();
        while items.len() > 0
            invariant
                out@.len() + items@.len() == n,
                n == before.len(),
                items@ == before.subrange(out@.len() as int, n as int),
                forall|j: int| 0 <= j < out@.len() ==> before[j] == Some(#[trigger] out@[j]),
                forall|j: int| 0 <= j < before.len() ==> (#[trigger] before[j]) is Some,
            decreases items@.len(),
        {
            let ghost k = out@.len() as int;
            assert(items@[0] == before[k]);
            let item = items.remove(0);
            match item {
                Some(v) => {
                    out.push(v);
                },
                None => {
                    proof {
                        assert(before[k] is Some);
                    }
                },
            }
            assert(items@ =~= before.subrange(out@.len() as int, n as int));
        }
        let mut emptied: Vec<Option<T>> = Vec::new();
        let mut i: usize = 0;
        while i < n
            invariant
                0 <= i <= n,
                emptied@.len() == i,
                forall|j: int| 0 <= j < i ==> (#[trigger] emptied@[j]) is None,
            decreases n - i,
        {
            emptied.push(None);
            i = i + 1;
        }
        self.items = emptied;
        Some(out)
    }
}

} // verus!
