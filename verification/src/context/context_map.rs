//! The registry of all configured contexts.
use super::{Context, ContextView};
use crate::dispatcher::request::{Request, RequestView};
use crate::dispatcher::response::ResponseSender;
use crate::dispatcher::ResponseView;
use vstd::prelude::*;

verus! {

/// The contexts and the responses after an event has gone to every context
/// in turn.
pub open spec fn broadcast(contexts: Seq<ContextView>, event: RequestView) -> (
    Seq<ContextView>,
    Seq<ResponseView>,
)
    decreases contexts.len(),
{
    if contexts.len() == 0 {
        (Seq::empty(), Seq::empty())
    } else {
        let front = broadcast(contexts.drop_last(), event);
        let served = contexts.last().on_event(event);
        (front.0.push(served.0), front.1 + served.1)
    }
}

/// The contexts behind a list of contexts.
pub open spec fn context_views(contexts: Seq<Context>) -> Seq<ContextView> {
    contexts.map_values(|context: Context| context@)
}

/// The registry of all configured contexts, in the order in which they were
/// entered.
pub struct ContextMap {
    contexts: Vec<Context>,
}

impl View for ContextMap {
    type V = Seq<ContextView>;

    closed spec fn view(&self) -> Seq<ContextView> {
        context_views(self.contexts@)
    }
}

impl ContextMap {
    /// A registry without contexts.
    pub fn new() -> (map: ContextMap)
        ensures
            map@ == Seq::<ContextView>::empty(),
    {
        let map = ContextMap { contexts: Vec::new() };
        proof {
            assert(context_views(map.contexts@) =~= Seq::empty());
        }
        map
    }

    /// Enters a context, behind those that are there.
    pub fn insert(&mut self, context: Context)
        ensures
            final(self)@ == old(self)@.push(context@),
    {
        proof {
            assert(context_views(self.contexts@.push(context)) =~= context_views(
                self.contexts@,
            ).push(context@));
        }
        self.contexts.push(context);
    }

    /// The number of contexts.
    pub fn len(&self) -> (len: usize)
        ensures
            len == self@.len(),
    {
        self.contexts.len()
    }

    /// The contexts.
    pub fn contexts(&self) -> (contexts: &Vec<Context>)
        ensures
            context_views(contexts@) == self@,
    {
        &self.contexts
    }

    /// The contexts, to change them.
    pub fn contexts_mut(&mut self) -> (contexts: &mut Vec<Context>)
        ensures
            context_views(contexts@) == old(self)@,
            final(self)@ == context_views(final(contexts)@),
    {
        &mut self.contexts
    }

    /// Serves an event: it goes to every context in turn, whatever the
    /// context makes of it.
    pub fn on_event<R: ResponseSender>(&mut self, event: Request, responder: &mut R)
        ensures
            final(self)@ == broadcast(old(self)@, event@).0,
            final(responder).sent() == old(responder).sent() + broadcast(old(self)@, event@).1,
    {
        let ghost before = context_views(self.contexts@);
        let mut i: usize = 0;
        proof {
            assert(before.take(0) =~= Seq::empty());
            assert(context_views(self.contexts@).take(0) =~= Seq::empty());
            assert(responder.sent() + Seq::<ResponseView>::empty() =~= responder.sent());
        }
        while i < self.contexts.len()
            invariant
                i <= self.contexts.len(),
                self.contexts.len() == before.len(),
                context_views(self.contexts@).take(i as int) == broadcast(
                    before.take(i as int),
                    event@,
                ).0,
                forall|k: int|
                    i <= k < before.len() ==> #[trigger] context_views(self.contexts@)[k] == before[k],
                responder.sent() == old(responder).sent() + broadcast(
                    before.take(i as int),
                    event@,
                ).1,
            decreases self.contexts.len() - i,
        {
            let ghost contexts = context_views(self.contexts@);
            proof {
                assert(contexts[i as int] == before[i as int]);
                assert(before.take(i + 1).drop_last() =~= before.take(i as int));
                assert(before.take(i + 1).last() == before[i as int]);
            }
            self.contexts[i].on_event(event.duplicate(), responder);
            proof {
                let served = before[i as int].on_event(event@);
                assert(responder.sent() =~= old(responder).sent() + (broadcast(
                    before.take(i as int),
                    event@,
                ).1 + served.1));
                assert(context_views(self.contexts@).take(i + 1) =~= contexts.take(i as int).push(
                    served.0,
                ));
                assert forall|k: int| i + 1 <= k < before.len() implies #[trigger] context_views(
                    self.contexts@,
                )[k] == before[k] by {
                    assert(contexts[k] == before[k]);
                }
            }
            i = i + 1;
        }
        proof {
            assert(context_views(self.contexts@).take(i as int) =~= context_views(self.contexts@));
            assert(before.take(i as int) =~= before);
        }
    }
}

} // verus!
