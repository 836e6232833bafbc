use vstd::prelude::*;

use crate::handler::{Handler, Request, Routed};

verus! {

/// The hot-swap dispatcher: owns exactly one "current handler" slot, the sole
/// mutable point of the dispatch path. Publishing a new handler replaces the
/// whole slot; dispatching reads a snapshot of it and nothing else, so a
/// dispatch can never observe a partially-installed or mixed handler.
pub struct Dispatcher {
    /// The currently installed handler.
    pub current: Handler,
}

impl Dispatcher {
    /// What a dispatch issued in this state answers: the current handler's
    /// routing, and nothing else.
    pub open spec fn spec_dispatch(&self, req: Request) -> Routed {
        self.current.spec_route(req)
    }

    /// Build a dispatcher with `initial` installed.
    pub fn new(initial: Handler) -> (d: Self)
        ensures
            d.current == initial,
    {
        Dispatcher { current: initial }
    }

    /// Publish `handler` as the new current handler. Replacement only: it
    /// succeeds on every input and overwrites whatever was installed, so of
    /// racing publishes the last one to complete wins.
    pub fn set(&mut self, handler: Handler)
        ensures
            final(self).current == handler,
    {
        self.current = handler;
    }

    /// Dispatch one request: snapshot the current handler and route through
    /// that snapshot alone.
    pub fn dispatch(&self, req: &Request) -> (r: Routed)
        ensures
            r == self.spec_dispatch(*req),
    {
        self.current.route(req)
    }
}

/// The dispatcher state after a batch of completed `set` calls, applied in
/// the order their publish steps completed.
pub open spec fn after_sets(d: Dispatcher, batch: Seq<Handler>) -> Dispatcher
    decreases batch.len(),
{
    if batch.len() == 0 {
        d
    } else {
        after_sets(Dispatcher { current: batch[0] }, batch.skip(1))
    }
}

/// After a batch of `set` calls, the installed handler is the one whose
/// publish completed last; an empty batch leaves the dispatcher untouched.
pub proof fn lemma_after_sets_last(d: Dispatcher, batch: Seq<Handler>)
    ensures
        batch.len() == 0 ==> after_sets(d, batch) == d,
        batch.len() > 0 ==> after_sets(d, batch).current == batch.last(),
    decreases batch.len(),
{
    if batch.len() > 0 {
        let d1 = Dispatcher { current: batch[0] };
        lemma_after_sets_last(d1, batch.skip(1));
        if batch.len() == 1 {
            assert(batch.skip(1).len() == 0);
            assert(after_sets(d, batch).current == batch[0]);
        } else {
            assert(batch.skip(1).last() == batch.last());
        }
    }
}

/// No torn dispatch: in any interleaving of `set` calls and dispatches, a
/// dispatch issued after the first `k` publishes of the batch have completed
/// answers exactly as one single fully-formed installed handler does — the
/// handler of the `k`-th completed publish, or the initial one — never as a
/// mixture of handlers.
pub proof fn lemma_no_torn_dispatch(d: Dispatcher, batch: Seq<Handler>, k: int, req: Request)
    requires
        0 <= k <= batch.len(),
    ensures
        ({
            let observed = after_sets(d, batch.take(k));
            let installed = if k == 0 {
                d.current
            } else {
                batch[k - 1]
            };
            &&& observed.current == installed
            &&& observed.spec_dispatch(req) == installed.spec_route(req)
        }),
{
    lemma_after_sets_last(d, batch.take(k));
    if k > 0 {
        assert(batch.take(k).last() == batch[k - 1]);
    }
}

/// Last-write-wins convergence: after every `set` call of a batch has
/// completed and no further `set` is issued, the handler of the last
/// completed publish is the single installed one, and every subsequent
/// dispatch answers through it.
pub proof fn lemma_last_write_wins(d: Dispatcher, batch: Seq<Handler>, req: Request)
    requires
        batch.len() > 0,
    ensures
        after_sets(d, batch).current == batch.last(),
        after_sets(d, batch).spec_dispatch(req) == batch.last().spec_route(req),
{
    lemma_after_sets_last(d, batch);
}

} // verus!
