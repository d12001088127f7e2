//! The context with one window for each correlation key.
use super::base::{BaseContext, BaseContextView};
use crate::conditions::texts;
use crate::dispatcher::request::{Request, RequestView};
use crate::dispatcher::response::ResponseSender;
use crate::dispatcher::ResponseView;
use crate::laws::{law_map_message_keeps_order, law_map_timer_is_per_key};
use crate::message::{Message, MessageView};
use crate::state::{State, StateView};
use crate::MiliSec;
use std::sync::Arc;
use vstd::prelude::*;

verus! {

/// The windows of a map context, each with its key, in the order in which
/// they were opened.
pub type Instances = Seq<(Seq<char>, StateView)>;

/// The correlation key of a message: the value that it holds under the key
/// field, and the empty key where it holds none.
pub open spec fn key_of(key_field: Seq<char>, message: MessageView) -> Seq<char> {
    if message.values.contains_key(key_field) {
        message.values[key_field]
    } else {
        Seq::empty()
    }
}

/// The place of the first window with the given key, if there is one.
pub open spec fn position(instances: Instances, key: Seq<char>) -> Option<int>
    decreases instances.len(),
{
    if instances.len() == 0 {
        None
    } else {
        match position(instances.drop_last(), key) {
            Some(at) => Some(at),
            None => if instances.last().0 == key {
                Some(instances.len() - 1)
            } else {
                None
            },
        }
    }
}

/// The window with the given key: the first one that carries it, and a
/// closed and empty one where none does.
pub open spec fn window_of(instances: Instances, key: Seq<char>) -> StateView {
    match position(instances, key) {
        Some(at) => instances[at].1,
        None => StateView::closed(),
    }
}

/// The windows and the responses after `delta` milliseconds: every window is
/// served in turn, and those that close leave.
pub open spec fn timed(base: BaseContextView, instances: Instances, delta: nat) -> (
    Instances,
    Seq<ResponseView>,
)
    decreases instances.len(),
{
    if instances.len() == 0 {
        (Seq::empty(), Seq::empty())
    } else {
        let front = timed(base, instances.drop_last(), delta);
        let served = base.on_timer(instances.last().1, delta);
        if served.0.is_open {
            (front.0.push((instances.last().0, served.0)), front.1 + served.1)
        } else {
            (front.0, front.1 + served.1)
        }
    }
}

/// A map context as plain mathematical values.
pub struct MapView {
    pub base: BaseContextView,
    pub key_field: Seq<char>,
    pub instances: Instances,
}

impl MapView {
    /// Whether the windows are in order: no two of them carry the same key,
    /// and all of them are open.
    pub open spec fn wf(self) -> bool {
        &&& forall|i: int, j: int|
            0 <= i < j < self.instances.len() ==> (#[trigger] self.instances[i]).0
                != (#[trigger] self.instances[j]).0
        &&& forall|i: int| 0 <= i < self.instances.len() ==> (#[trigger] self.instances[i]).1.is_open
    }

    /// The context and the responses after a message. The message goes to
    /// the window of its key. A window that is open afterwards is kept, in
    /// its place or as the last one; one that is closed is not.
    pub open spec fn on_message(self, message: MessageView) -> (MapView, Seq<ResponseView>) {
        let key = key_of(self.key_field, message);
        let served = self.base.on_message(window_of(self.instances, key), message);
        let instances = match position(self.instances, key) {
            Some(at) => if served.0.is_open {
                self.instances.update(at, (key, served.0))
            } else {
                self.instances.remove(at)
            },
            None => if served.0.is_open {
                self.instances.push((key, served.0))
            } else {
                self.instances
            },
        };
        (MapView { instances: instances, ..self }, served.1)
    }

    /// The context and the responses after `delta` milliseconds.
    pub open spec fn on_timer(self, delta: nat) -> (MapView, Seq<ResponseView>) {
        let served = timed(self.base, self.instances, delta);
        (MapView { instances: served.0, ..self }, served.1)
    }

    /// The context and the responses after an event. A request to stop is
    /// none of a context's business.
    pub open spec fn on_event(self, event: RequestView) -> (MapView, Seq<ResponseView>) {
        match event {
            RequestView::Message(message) => self.on_message(message),
            RequestView::Timer(delta) => self.on_timer(delta),
            RequestView::Exit => (self, Seq::empty()),
        }
    }
}

/// The windows behind a list of windows with their keys.
pub open spec fn instance_views(entries: Seq<(String, State)>) -> Instances {
    entries.map_values(|entry: (String, State)| (entry.0@, entry.1@))
}

/// The context with one window for each correlation key. The windows with
/// different keys know nothing of each other.
pub struct MapContext {
    base: BaseContext,
    map: Vec<(String, State)>,
    context_id: String,
}

impl View for MapContext {
    type V = MapView;

    closed spec fn view(&self) -> MapView {
        MapView {
            base: self.base@,
            key_field: self.context_id@,
            instances: instance_views(self.map@),
        }
    }
}

impl MapContext {
    /// A context without windows, whose messages carry their correlation key
    /// under `context_id`.
    pub fn new(base: BaseContext, context_id: String) -> (context: MapContext)
        ensures
            context@ == (MapView {
                base: base@,
                key_field: context_id@,
                instances: Seq::empty(),
            }),
            context@.wf(),
    {
        let context = MapContext { base, map: Vec::new(), context_id };
        proof {
            assert(instance_views(context.map@) =~= Seq::empty());
        }
        context
    }

    /// Serves an event.
    pub fn on_event<R: ResponseSender>(&mut self, event: Request, responder: &mut R)
        ensures
            final(self)@ == old(self)@.on_event(event@).0,
            final(responder).sent() == old(responder).sent() + old(self)@.on_event(event@).1,
            old(self)@.wf() ==> final(self)@.wf(),
    {
        match event {
            Request::Message(message) => self.on_message(message, responder),
            Request::Timer(delta) => self.on_timer(delta, responder),
            Request::Exit => {
                proof {
                    assert(responder.sent() + Seq::<ResponseView>::empty() =~= responder.sent());
                }
            },
        }
    }

    /// The correlation key of `message`.
    fn key_of(&self, message: &Message) -> (key: String)
        ensures
            key@ == key_of(self@.key_field, message@),
    {
        match message.get(self.context_id.as_str()) {
            Some(value) => value.clone(),
            None => String::new(),
        }
    }

    /// The place of the first window with the given key, if there is one.
    fn find(&self, key: &String) -> (found: Option<usize>)
        ensures
            match found {
                Some(at) => at < self.map.len() && self.map@[at as int].0@ == key@ && position(
                    self@.instances,
                    key@,
                ) == Some(at as int),
                None => position(self@.instances, key@) is None,
            },
    {
        let ghost instances = instance_views(self.map@);
        let mut i: usize = 0;
        while i < self.map.len()
            invariant
                i <= self.map.len(),
                instances == instance_views(self.map@),
                position(instances.take(i as int), key@) is None,
            decreases self.map.len() - i,
        {
            proof {
                assert(instances.take(i + 1).drop_last() =~= instances.take(i as int));
            }
            if self.map[i].0 == *key {
                proof {
                    lemma_position_of_prefix(instances, i + 1, key@);
                }
                return Some(i);
            }
            i = i + 1;
        }
        proof {
            assert(instances.take(i as int) =~= instances);
        }
        None
    }

    /// Serves a message: it goes to the window of its key.
    pub fn on_message<R: ResponseSender>(&mut self, event: Arc<Message>, responder: &mut R)
        ensures
            final(self)@ == old(self)@.on_message(event@).0,
            final(responder).sent() == old(responder).sent() + old(self)@.on_message(event@).1,
            old(self)@.wf() ==> final(self)@.wf(),
    {
        proof {
            if old(self)@.wf() {
                law_map_message_keeps_order(old(self)@, event@);
            }
        }
        let key = self.key_of(&event);
        let ghost before = instance_views(self.map@);
        match self.find(&key) {
            Some(at) => {
                self.base.on_message(event, &mut self.map[at].1, responder);
                if self.map[at].1.is_open() {
                    proof {
                        assert(instance_views(self.map@) =~= before.update(
                            at as int,
                            (key@, self.map@[at as int].1@),
                        ));
                    }
                } else {
                    self.map.remove(at);
                    proof {
                        assert(instance_views(self.map@) =~= before.remove(at as int));
                    }
                }
            },
            None => {
                let mut state = State::new();
                self.base.on_message(event, &mut state, responder);
                if state.is_open() {
                    proof {
                        assert(instance_views(self.map@.push((key, state))) =~= before.push(
                            (key@, state@),
                        ));
                    }
                    self.map.push((key, state));
                }
            },
        }
    }

    /// Serves a tick of `delta` milliseconds: every window is served in
    /// turn, and those that close leave.
    pub fn on_timer<R: ResponseSender>(&mut self, delta: MiliSec, responder: &mut R)
        ensures
            final(self)@ == old(self)@.on_timer(delta as nat).0,
            final(responder).sent() == old(responder).sent() + old(self)@.on_timer(delta as nat).1,
            old(self)@.wf() ==> final(self)@.wf(),
    {
        proof {
            if old(self)@.wf() {
                law_map_timer_is_per_key(old(self)@, delta as nat, Seq::empty());
            }
        }
        let ghost before = instance_views(self.map@);
        let ghost base = self.base@;
        let ghost mut done: int = 0;
        let mut i: usize = 0;
        proof {
            assert(instance_views(self.map@).take(0) =~= Seq::empty());
            assert(before.take(0) =~= Seq::empty());
            assert(responder.sent() + Seq::<ResponseView>::empty() =~= responder.sent());
        }
        while i < self.map.len()
            invariant
                i <= self.map.len(),
                0 <= done <= before.len(),
                self.base@ == base,
                self.context_id == old(self).context_id,
                self.map.len() - i == before.len() - done,
                instance_views(self.map@).take(i as int) == timed(
                    base,
                    before.take(done),
                    delta as nat,
                ).0,
                forall|k: int|
                    i <= k < self.map.len() ==> #[trigger] instance_views(self.map@)[k] == before[k - i
                        + done],
                responder.sent() == old(responder).sent() + timed(
                    base,
                    before.take(done),
                    delta as nat,
                ).1,
            decreases before.len() - done,
        {
            let ghost entries = instance_views(self.map@);
            let ghost sent = responder.sent();
            proof {
                assert(entries[i as int] == before[done]);
                assert(before.take(done + 1).drop_last() =~= before.take(done));
                assert(before.take(done + 1).last() == before[done]);
            }
            self.base.on_timer(delta, &mut self.map[i].1, responder);
            let ghost served = base.on_timer(before[done].1, delta as nat);
            proof {
                assert(responder.sent() =~= old(responder).sent() + (timed(
                    base,
                    before.take(done),
                    delta as nat,
                ).1 + served.1));
            }
            if self.map[i].1.is_open() {
                proof {
                    assert(instance_views(self.map@).take(i + 1) =~= entries.take(i as int).push(
                        (before[done].0, served.0),
                    ));
                    assert forall|k: int| i + 1 <= k < self.map.len() implies #[trigger] instance_views(
                        self.map@,
                    )[k] == before[k - (i + 1) + (done + 1)] by {
                        assert(entries[k] == before[k - i + done]);
                    }
                }
                i = i + 1;
            } else {
                self.map.remove(i);
                proof {
                    assert(instance_views(self.map@).take(i as int) =~= entries.take(i as int));
                    assert forall|k: int| i <= k < self.map.len() implies #[trigger] instance_views(
                        self.map@,
                    )[k] == before[k - i + (done + 1)] by {
                        assert(entries[k + 1] == before[k + 1 - i + done]);
                    }
                }
            }
            proof {
                done = done + 1;
            }
        }
        proof {
            assert(instance_views(self.map@).take(i as int) =~= instance_views(self.map@));
            assert(before.take(done) =~= before);
        }
    }

    /// Whether a window with the given key is open.
    pub fn is_open(&self, key: &String) -> (open: bool)
        ensures
            open == window_of(self@.instances, key@).is_open,
    {
        match self.find(key) {
            Some(at) => self.map[at].1.is_open(),
            None => false,
        }
    }

    /// The number of windows.
    pub fn len(&self) -> (len: usize)
        ensures
            len == self@.instances.len(),
    {
        self.map.len()
    }

    /// The patterns of the context's conditions.
    pub fn patterns(&self) -> (patterns: &[String])
        ensures
            texts(patterns@) == self@.base.conditions.patterns,
    {
        self.base.conditions().patterns.as_slice()
    }

    /// The name, the identifier, the conditions and the actions.
    pub fn base(&self) -> (base: &BaseContext)
        ensures
            base@ == self@.base,
    {
        &self.base
    }
}

/// The first window with a key in a prefix is the first in the whole list.
pub proof fn lemma_position_of_prefix(instances: Instances, len: int, key: Seq<char>)
    requires
        0 <= len <= instances.len(),
        position(instances.take(len), key) is Some,
    ensures
        position(instances, key) == position(instances.take(len), key),
    decreases instances.len() - len,
{
    if len < instances.len() {
        assert(instances.take(len + 1).drop_last() =~= instances.take(len));
        lemma_position_of_prefix(instances, len + 1, key);
    } else {
        assert(instances.take(len) =~= instances);
    }
}

} // verus!
