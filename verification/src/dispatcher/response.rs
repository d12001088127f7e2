//! The way out of the engine.
use super::{response_views, Response, ResponseView};
use vstd::prelude::*;

verus! {

/// Takes the responses of the engine, one after the other.
pub trait ResponseSender {
    /// The responses taken so far, oldest first. A verified sender says
    /// here what it has taken. The default is for a sender outside verified
    /// code, of which nothing is proved.
    open spec fn sent(&self) -> Seq<ResponseView> {
        Seq::empty()
    }

    /// Takes one response.
    fn send_response(&mut self, response: Response)
        ensures
            final(self).sent() == old(self).sent().push(response@),
    ;
}

/// A sender that keeps the responses it is given.
pub struct MockResponseSender(pub Vec<Response>);

impl MockResponseSender {
    /// A sender that has been given nothing yet.
    pub fn new() -> (sender: MockResponseSender)
        ensures
            sender.0@ == Seq::<Response>::empty(),
            sender.sent() == Seq::<ResponseView>::empty(),
    {
        let sender = MockResponseSender(Vec::new());
        proof {
            assert(response_views(sender.0@) =~= Seq::empty());
        }
        sender
    }
}

impl MockResponseSender {
    /// Takes the responses kept so far, oldest first, and keeps none.
    pub fn take(&mut self) -> (responses: Vec<Response>)
        ensures
            responses@ == old(self).0@,
            final(self).0@ == Seq::<Response>::empty(),
            final(self).sent() == Seq::<ResponseView>::empty(),
    {
        let mut responses: Vec<Response> = Vec::new();
        std::mem::swap(&mut responses, &mut self.0);
        proof {
            assert(response_views(self.0@) =~= Seq::empty());
        }
        responses
    }
}

impl Default for MockResponseSender {
    fn default() -> (sender: MockResponseSender)
        ensures
            sender.0@ == Seq::<Response>::empty(),
    {
        MockResponseSender::new()
    }
}

impl ResponseSender for MockResponseSender {
    open spec fn sent(&self) -> Seq<ResponseView> {
        response_views(self.0@)
    }

    fn send_response(&mut self, response: Response)
        ensures
            final(self).0@ == old(self).0@.push(response),
    {
        proof {
            assert(response_views(self.0@.push(response)) =~= response_views(self.0@).push(
                response@,
            ));
        }
        self.0.push(response);
    }
}

} // verus!
