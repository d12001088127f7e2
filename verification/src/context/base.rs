//! What every context has: a name, an identifier, conditions and actions; and
//! the rules by which one window of a context moves from event to event.
use crate::action::{Action, ActionCommand, ActionCommandView, ActionView};
use crate::conditions::{Conditions, ConditionsView};
use crate::dispatcher::response::ResponseSender;
use crate::dispatcher::{Response, ResponseView};
use crate::message::{copy_name, opt_text, Message, MessageView};
use crate::state::{State, StateView};
use crate::MiliSec;
use std::sync::Arc;
use vstd::prelude::*;

verus! {

/// The base of a context as plain mathematical values.
pub struct BaseContextView {
    pub name: Option<Seq<char>>,
    pub uuid: u128,
    pub conditions: ConditionsView,
    pub actions: Seq<ActionView>,
}

/// The response that carries what an executed action asks for.
pub open spec fn command_response(command: ActionCommandView) -> ResponseView {
    match command {
        ActionCommandView::Message(alert) => ResponseView::Alert(alert),
    }
}

impl BaseContextView {
    /// The responses that leave when a window closes with `messages`: one for
    /// each action, in the order of the actions.
    pub open spec fn alerts(self, messages: Seq<MessageView>) -> Seq<ResponseView> {
        Seq::new(
            self.actions.len(),
            |i: int| command_response(self.actions[i].execute(self.name, self.uuid, messages)),
        )
    }

    /// What becomes of a window that an event has just changed, and what
    /// leaves the context: where the conditions say that it closes, the
    /// actions fire on its messages and a new window starts, closed and
    /// empty; else it stays as it is and nothing leaves.
    pub open spec fn settle(self, state: StateView) -> (StateView, Seq<ResponseView>) {
        if self.conditions.closes(state) {
            (StateView::closed(), self.alerts(state.messages))
        } else {
            (state, Seq::empty())
        }
    }

    /// The window and the responses after a message. An open window takes
    /// the message. A closed one is opened by a message that the conditions
    /// let open it, as a new window that holds this message alone, and stays
    /// as it is on any other. A window that has taken a message is held
    /// against the closing conditions at once.
    pub open spec fn on_message(self, state: StateView, message: MessageView) -> (
        StateView,
        Seq<ResponseView>,
    ) {
        if state.is_open {
            self.settle(state.add_message(message))
        } else if self.conditions.opens(message) {
            self.settle(StateView::closed().add_message(message).open())
        } else {
            (state, Seq::empty())
        }
    }

    /// The window and the responses after `delta` milliseconds. The clocks of
    /// an open window move on, and the window is held against the closing
    /// conditions; a closed window stays as it is.
    pub open spec fn on_timer(self, state: StateView, delta: nat) -> (StateView, Seq<ResponseView>) {
        if state.is_open {
            self.settle(state.advance(delta))
        } else {
            (state, Seq::empty())
        }
    }
}

/// The actions behind a list of actions.
pub open spec fn action_views(actions: Seq<Action>) -> Seq<ActionView> {
    actions.map_values(|action: Action| action@)
}

/// What every context has: a name, an identifier, conditions and actions.
pub struct BaseContext {
    name: Option<String>,
    uuid: u128,
    conditions: Conditions,
    actions: Vec<Action>,
}

impl View for BaseContext {
    type V = BaseContextView;

    closed spec fn view(&self) -> BaseContextView {
        BaseContextView {
            name: opt_text(self.name),
            uuid: self.uuid,
            conditions: self.conditions@,
            actions: action_views(self.actions@),
        }
    }
}

impl BaseContext {
    /// A context without a name and without actions.
    pub fn new(uuid: u128, conditions: Conditions) -> (context: BaseContext)
        ensures
            context@ == (BaseContextView {
                name: None,
                uuid: uuid,
                conditions: conditions@,
                actions: Seq::empty(),
            }),
    {
        let context = BaseContext { name: None, uuid, conditions, actions: Vec::new() };
        proof {
            assert(action_views(context.actions@) =~= Seq::empty());
        }
        context
    }

    /// The conditions.
    pub fn conditions(&self) -> (conditions: &Conditions)
        ensures
            conditions@ == self@.conditions,
    {
        &self.conditions
    }

    /// The name, if the context has one.
    pub fn name(&self) -> (name: Option<&String>)
        ensures
            match name {
                Some(text) => self@.name == Some(text@),
                None => self@.name is None,
            },
    {
        self.name.as_ref()
    }

    /// The identifier.
    pub fn uuid(&self) -> (uuid: u128)
        ensures
            uuid == self@.uuid,
    {
        self.uuid
    }

    /// The actions, in the order in which they fire.
    pub fn actions(&self) -> (actions: &Vec<Action>)
        ensures
            action_views(actions@) == self@.actions,
    {
        &self.actions
    }

    /// The actions, to change them.
    pub fn actions_mut(&mut self) -> (actions: &mut Vec<Action>)
        ensures
            action_views(actions@) == old(self)@.actions,
            final(self)@ == (BaseContextView {
                actions: action_views(final(actions)@),
                ..old(self)@
            }),
    {
        &mut self.actions
    }

    /// Serves a tick of `delta` milliseconds for the window `state`.
    pub fn on_timer<R: ResponseSender>(&self, delta: MiliSec, state: &mut State, responder: &mut R)
        ensures
            final(state)@ == self@.on_timer(old(state)@, delta as nat).0,
            final(responder).sent() == old(responder).sent() + self@.on_timer(
                old(state)@,
                delta as nat,
            ).1,
    {
        if state.is_open() {
            if delta > MiliSec::MAX - state.elapsed_total() {
                // No clock can hold this much time, and no timeout is longer.
                self.close_state(state, responder);
            } else {
                state.advance(delta);
                self.settle(state, responder);
            }
        }
    }

    /// Serves the message `event` for the window `state`.
    pub fn on_message<R: ResponseSender>(
        &self,
        event: Arc<Message>,
        state: &mut State,
        responder: &mut R,
    )
        ensures
            final(state)@ == self@.on_message(old(state)@, event@).0,
            final(responder).sent() == old(responder).sent() + self@.on_message(
                old(state)@,
                event@,
            ).1,
    {
        if state.is_open() {
            state.add_message(event);
            self.settle(state, responder);
        } else if self.conditions.is_opening(&event) {
            state.reset();
            state.add_message(event);
            state.open();
            self.settle(state, responder);
        }
    }

    /// Closes the window where the conditions say so.
    fn settle<R: ResponseSender>(&self, state: &mut State, responder: &mut R)
        ensures
            final(state)@ == self@.settle(old(state)@).0,
            final(responder).sent() == old(responder).sent() + self@.settle(old(state)@).1,
    {
        if self.conditions.is_closing(state) {
            self.close_state(state, responder);
        }
    }

    /// Closes the window: every action fires on its messages, and a new
    /// window starts, closed and empty.
    fn close_state<R: ResponseSender>(&self, state: &mut State, responder: &mut R)
        ensures
            final(state)@ == StateView::closed(),
            final(responder).sent() == old(responder).sent() + self@.alerts(old(state)@.messages),
    {
        state.close();
        let ghost alerts = self@.alerts(state@.messages);
        let mut i: usize = 0;
        while i < self.actions.len()
            invariant
                i <= self.actions.len(),
                alerts == self@.alerts(state@.messages),
                alerts.len() == self.actions.len(),
                responder.sent() == old(responder).sent() + alerts.take(i as int),
            decreases self.actions.len() - i,
        {
            let command = self.actions[i].execute(state, self);
            proof {
                assert(alerts.take(i + 1) =~= alerts.take(i as int).push(alerts[i as int]));
                assert(alerts[i as int] == command_response(command@));
            }
            match command {
                ActionCommand::Message(alert) => responder.send_response(Response::Alert(alert)),
            }
            i = i + 1;
        }
        proof {
            assert(alerts.take(alerts.len() as int) =~= alerts);
        }
        state.reset();
    }

    /// A copy of this context's base.
    pub fn duplicate(&self) -> (copy: BaseContext)
        ensures
            copy@ == self@,
    {
        let mut actions: Vec<Action> = Vec::new();
        let mut i: usize = 0;
        while i < self.actions.len()
            invariant
                i <= self.actions.len(),
                actions@.len() == i,
                forall|j: int| 0 <= j < i ==> (#[trigger] actions@[j])@ == self.actions@[j]@,
            decreases self.actions.len() - i,
        {
            actions.push(self.actions[i].duplicate());
            i = i + 1;
        }
        proof {
            assert(action_views(actions@) =~= action_views(self.actions@));
        }
        BaseContext {
            name: copy_name(&self.name),
            uuid: self.uuid,
            conditions: self.conditions.duplicate(),
            actions,
        }
    }
}

/// Collects the parts of a context's base and builds it.
pub struct Builder {
    name: Option<String>,
    uuid: u128,
    conditions: Conditions,
    actions: Vec<Action>,
}

impl View for Builder {
    type V = BaseContextView;

    closed spec fn view(&self) -> BaseContextView {
        BaseContextView {
            name: opt_text(self.name),
            uuid: self.uuid,
            conditions: self.conditions@,
            actions: action_views(self.actions@),
        }
    }
}

impl Builder {
    /// Starts a context without a name and without actions.
    pub fn new(uuid: u128, conditions: Conditions) -> (builder: Builder)
        ensures
            builder@ == (BaseContextView {
                name: None,
                uuid: uuid,
                conditions: conditions@,
                actions: Seq::empty(),
            }),
    {
        let builder = Builder { name: None, uuid, conditions, actions: Vec::new() };
        proof {
            assert(action_views(builder.actions@) =~= Seq::empty());
        }
        builder
    }

    /// Gives the context a name, or none.
    pub fn name(self, name: Option<String>) -> (builder: Builder)
        ensures
            builder@ == (BaseContextView { name: opt_text(name), ..self@ }),
    {
        let mut builder = self;
        builder.name = name;
        builder
    }

    /// Sets the actions that fire when a window closes.
    pub fn actions(self, actions: Vec<Action>) -> (builder: Builder)
        ensures
            builder@ == (BaseContextView { actions: action_views(actions@), ..self@ }),
    {
        let mut builder = self;
        builder.actions = actions;
        builder
    }

    /// The base collected so far.
    pub fn build(self) -> (context: BaseContext)
        ensures
            context@ == self@,
    {
        let Builder { name, uuid, conditions, actions } = self;
        BaseContext { name: name, uuid: uuid, conditions: conditions, actions: actions }
    }
}

} // verus!
