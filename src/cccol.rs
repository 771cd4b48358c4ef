use vstd::prelude::*;

use crate::error::Krb5Error;
use crate::status::{krb5_error_code_escape_hatch, reported_for};

verus! {

/// The two states of a collection cursor.
#[derive(Debug, Clone, Copy, PartialEq, Eq, Structural)]
pub enum CursorPhase {
    /// More caches may follow.
    Created,
    /// The collection has been walked to its end; this state is terminal.
    Exhausted,
}

/// What one advance of the cursor produces.
pub enum Advance<H> {
    /// The next cache of the collection.
    Cache(H),
    /// The native advance failed with this status code.
    Failed(i32),
    /// There are no more caches.
    Done,
}

/// One transition of the cursor: from its phase and the native advance's
/// status and next handle (`None` for null), the next phase and what is yielded.
/// An exhausted cursor stays exhausted whatever the native side would say,
/// and a failure leaves the phase as it was.
pub open spec fn advance_step<H>(phase: CursorPhase, code: i32, next: Option<H>) -> (
    CursorPhase,
    Advance<H>,
) {
    if phase == CursorPhase::Exhausted {
        (CursorPhase::Exhausted, Advance::Done)
    } else if code != 0 {
        (CursorPhase::Created, Advance::Failed(code))
    } else {
        match next {
            Some(h) => (CursorPhase::Created, Advance::Cache(h)),
            None => (CursorPhase::Exhausted, Advance::Done),
        }
    }
}

/// What a series of advances yields, driven by successive native outcomes.
pub open spec fn enumerate<H>(phase: CursorPhase, outcomes: Seq<(i32, Option<H>)>) -> Seq<
    Advance<H>,
>
    decreases outcomes.len(),
{
    if outcomes.len() == 0 {
        Seq::empty()
    } else {
        let (next_phase, yielded) = advance_step(phase, outcomes[0].0, outcomes[0].1);
        seq![yielded] + enumerate(next_phase, outcomes.drop_first())
    }
}

/// `r` is what the cursor hands out for `yielded`, failures carrying the
/// message that `fetch_message` produced.
pub open spec fn hands_out<H, M: FnOnce(i32) -> Option<Vec<u8>>>(
    yielded: Advance<H>,
    fetch_message: M,
    r: Option<Result<H, Krb5Error>>,
) -> bool {
    match yielded {
        Advance::Cache(h) => r == Some(Ok::<H, Krb5Error>(h)),
        Advance::Failed(code) => r matches Some(Err(e)) && reported_for(fetch_message, code, e),
        Advance::Done => r is None,
    }
}

/// A forward-only, single-pass cursor over a collection of credential caches.
#[derive(Debug)]
pub struct CollectionCursor {
    phase: CursorPhase,
}

impl View for CollectionCursor {
    type V = CursorPhase;

    closed spec fn view(&self) -> CursorPhase {
        self.phase
    }
}

impl CollectionCursor {
    /// A cursor at the start of the collection.
    pub fn new() -> (r: CollectionCursor)
        ensures
            r@ == CursorPhase::Created,
    {
        CollectionCursor { phase: CursorPhase::Created }
    }

    /// The cursor's current phase.
    pub fn phase(&self) -> (r: CursorPhase)
        ensures
            r == self@,
    {
        self.phase
    }

    /// Advances the cursor. `next` performs the native advance and returns its
    /// status and the next cache handle (`None` for null); it is not invoked
    /// once the cursor is exhausted.
    pub fn advance<H, N: FnOnce() -> (i32, Option<H>), M: FnOnce(i32) -> Option<Vec<u8>>>(
        &mut self,
        next: N,
        fetch_message: M,
    ) -> (r: Option<Result<H, Krb5Error>>)
        requires
            next.requires(()),
            forall|code: i32| fetch_message.requires((code,)),
        ensures
            old(self)@ == CursorPhase::Exhausted ==> r is None && final(self)@
                == CursorPhase::Exhausted,
            old(self)@ == CursorPhase::Created ==> exists|out: (i32, Option<H>)|
                #[trigger] next.ensures((), out) && final(self)@ == advance_step(
                    old(self)@,
                    out.0,
                    out.1,
                ).0 && hands_out(advance_step(old(self)@, out.0, out.1).1, fetch_message, r),
    {
        if self.phase == CursorPhase::Exhausted {
            return None;
        }
        let (code, handle) = next();
        match krb5_error_code_escape_hatch(code, fetch_message) {
            Err(e) => Some(Err(e)),
            Ok(()) => match handle {
                Some(h) => Some(Ok(h)),
                None => {
                    self.phase = CursorPhase::Exhausted;
                    None
                },
            },
        }
    }
}

/// Once a cursor is exhausted, every further advance reports exhaustion,
/// whatever the native side would answer.
pub proof fn lemma_exhaustion_is_terminal<H>(outcomes: Seq<(i32, Option<H>)>)
    ensures
        forall|i: int|
            0 <= i < outcomes.len() ==> #[trigger] enumerate(CursorPhase::Exhausted, outcomes)[i]
                is Done,
        enumerate(CursorPhase::Exhausted, outcomes).len() == outcomes.len(),
    decreases outcomes.len(),
{
    if outcomes.len() > 0 {
        lemma_exhaustion_is_terminal(outcomes.drop_first());
        let rest = enumerate(CursorPhase::Exhausted, outcomes.drop_first());
        assert forall|i: int| 0 <= i < outcomes.len() implies #[trigger] enumerate(
            CursorPhase::Exhausted,
            outcomes,
        )[i] is Done by {
            if i > 0 {
                assert(enumerate(CursorPhase::Exhausted, outcomes)[i] == rest[i - 1]);
            }
        }
    }
}

/// The native outcomes of walking a collection that holds `caches`: each
/// cache in turn, then a null handle; what the native side would answer after
/// that is left open.
pub open spec fn walks_collection<H>(outcomes: Seq<(i32, Option<H>)>, caches: Seq<H>) -> bool {
    &&& caches.len() < outcomes.len()
    &&& forall|i: int| 0 <= i < caches.len() ==> #[trigger] outcomes[i] == (0i32, Some(caches[i]))
    &&& outcomes[caches.len() as int].0 == 0
    &&& outcomes[caches.len() as int].1 is None
}

/// Enumerating a collection of caches terminates: the cursor yields each
/// cache once, in the collection's order, and reports exhaustion from then
/// on. It never yields a cache twice when the collection holds none twice.
pub proof fn lemma_enumeration_yields_each_cache_once<H>(
    outcomes: Seq<(i32, Option<H>)>,
    caches: Seq<H>,
)
    requires
        walks_collection(outcomes, caches),
    ensures
        enumerate(CursorPhase::Created, outcomes).len() == outcomes.len(),
        forall|i: int|
            0 <= i < caches.len() ==> #[trigger] enumerate(CursorPhase::Created, outcomes)[i]
                == Advance::Cache(caches[i]),
        forall|i: int|
            caches.len() <= i < outcomes.len() ==> #[trigger] enumerate(
                CursorPhase::Created,
                outcomes,
            )[i] is Done,
        caches.no_duplicates() ==> forall|i: int, j: int|
            0 <= i < j < outcomes.len() && enumerate(CursorPhase::Created, outcomes)[i] is Cache
                ==> #[trigger] enumerate(CursorPhase::Created, outcomes)[i] != #[trigger] enumerate(
                CursorPhase::Created,
                outcomes,
            )[j],
    decreases caches.len(),
{
    let all = enumerate(CursorPhase::Created, outcomes);
    let rest_outcomes = outcomes.drop_first();
    if caches.len() == 0 {
        lemma_exhaustion_is_terminal(rest_outcomes);
        let rest = enumerate(CursorPhase::Exhausted, rest_outcomes);
        assert forall|i: int| 0 <= i < outcomes.len() implies #[trigger] all[i] is Done by {
            if i > 0 {
                assert(all[i] == rest[i - 1]);
            }
        }
    } else {
        let rest_caches = caches.drop_first();
        assert(walks_collection(rest_outcomes, rest_caches)) by {
            assert forall|i: int| 0 <= i < rest_caches.len() implies #[trigger] rest_outcomes[i]
                == (0i32, Some(rest_caches[i])) by {
                assert(outcomes[i + 1] == (0i32, Some(caches[i + 1])));
            }
            assert(rest_outcomes[rest_caches.len() as int] == outcomes[caches.len() as int]);
        }
        assert(outcomes[0] == (0i32, Some(caches[0])));
        lemma_enumeration_yields_each_cache_once(rest_outcomes, rest_caches);
        let rest = enumerate(CursorPhase::Created, rest_outcomes);
        assert(all == seq![Advance::Cache(caches[0])] + rest);
        assert forall|i: int| 0 <= i < caches.len() implies #[trigger] all[i] == Advance::Cache(
            caches[i],
        ) by {
            if i > 0 {
                assert(all[i] == rest[i - 1]);
                assert(rest_caches[i - 1] == caches[i]);
            }
        }
        assert forall|i: int| caches.len() <= i < outcomes.len() implies #[trigger] all[i] is Done by {
            assert(all[i] == rest[i - 1]);
        }
        if caches.no_duplicates() {
            assert forall|i: int, j: int|
                0 <= i < j < outcomes.len() && all[i] is Cache implies #[trigger] all[i]
                != #[trigger] all[j] by {
                if j < caches.len() {
                    assert(caches[i] != caches[j]);
                }
            }
        }
    }
}

} // verus!
