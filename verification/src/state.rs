//! The accumulator of one window: the messages collected so far, whether the
//! window is open, and the two clocks that the closing conditions read.
use crate::message::{Message, MessageView};
use crate::MiliSec;
use std::sync::Arc;
use vstd::prelude::*;

verus! {

/// A window as plain mathematical values. The clocks count milliseconds.
pub struct StateView {
    pub messages: Seq<MessageView>,
    pub is_open: bool,
    pub elapsed_total: nat,
    pub elapsed_since_last_message: nat,
}

impl StateView {
    /// The window before anything has happened: closed, empty, both clocks at
    /// zero.
    pub open spec fn closed() -> StateView {
        StateView {
            messages: Seq::empty(),
            is_open: false,
            elapsed_total: 0,
            elapsed_since_last_message: 0,
        }
    }

    /// The window after one more message: the message is last, and the clock
    /// that counts from the last message starts again.
    pub open spec fn add_message(self, message: MessageView) -> StateView {
        StateView {
            messages: self.messages.push(message),
            elapsed_since_last_message: 0,
            ..self
        }
    }

    /// The window after `delta` more milliseconds: both clocks have moved on.
    pub open spec fn advance(self, delta: nat) -> StateView {
        StateView {
            elapsed_total: self.elapsed_total + delta,
            elapsed_since_last_message: self.elapsed_since_last_message + delta,
            ..self
        }
    }

    /// The same window, open.
    pub open spec fn open(self) -> StateView {
        StateView { is_open: true, ..self }
    }

    /// The same window, closed. Its messages stay.
    pub open spec fn close(self) -> StateView {
        StateView { is_open: false, ..self }
    }
}

/// The messages behind a list of shared messages.
pub open spec fn message_views(messages: Seq<Arc<Message>>) -> Seq<MessageView> {
    messages.map_values(|message: Arc<Message>| message@)
}

/// Another handle on a shared message. It points at the same message.
///
/// Trusted: `Arc::clone` of the standard library, of which this states that
/// the new handle and the old one share one value.
#[verifier::external_body]
pub(crate) fn share(message: &Arc<Message>) -> (shared: Arc<Message>)
    ensures
        shared == *message,
{
    Arc::clone(message)
}

/// The accumulator of one window.
pub struct State {
    messages: Vec<Arc<Message>>,
    opened: bool,
    elapsed_time: MiliSec,
    elapsed_time_since_last_message: MiliSec,
}

impl View for State {
    type V = StateView;

    closed spec fn view(&self) -> StateView {
        StateView {
            messages: message_views(self.messages@),
            is_open: self.opened,
            elapsed_total: self.elapsed_time as nat,
            elapsed_since_last_message: self.elapsed_time_since_last_message as nat,
        }
    }
}

impl State {
    /// The clock that counts from the last message never runs ahead of the
    /// clock that counts from the opening.
    #[verifier::type_invariant]
    spec fn clocks_in_order(&self) -> bool {
        self.elapsed_time_since_last_message <= self.elapsed_time
    }

    /// A closed, empty window with both clocks at zero.
    pub fn new() -> (state: State)
        ensures
            state@ == StateView::closed(),
    {
        let state = State {
            messages: Vec::new(),
            opened: false,
            elapsed_time: 0,
            elapsed_time_since_last_message: 0,
        };
        proof {
            assert(message_views(state.messages@) =~= Seq::empty());
        }
        state
    }

    /// A closed window that holds `messages`, with both clocks at zero.
    pub fn with_messages(messages: Vec<Arc<Message>>) -> (state: State)
        ensures
            state@ == (StateView { messages: message_views(messages@), ..StateView::closed() }),
    {
        State { messages, opened: false, elapsed_time: 0, elapsed_time_since_last_message: 0 }
    }

    /// Whether the window is open.
    pub fn is_open(&self) -> (open: bool)
        ensures
            open == self@.is_open,
    {
        self.opened
    }

    /// Opens the window.
    pub fn open(&mut self)
        ensures
            final(self)@ == old(self)@.open(),
    {
        proof {
            use_type_invariant(&*self);
        }
        self.opened = true;
    }

    /// Closes the window. The messages stay, for the actions to read.
    pub fn close(&mut self)
        ensures
            final(self)@ == old(self)@.close(),
    {
        proof {
            use_type_invariant(&*self);
        }
        self.opened = false;
    }

    /// Appends a message and starts the clock that counts from the last
    /// message again.
    pub fn add_message(&mut self, message: Arc<Message>)
        ensures
            final(self)@ == old(self)@.add_message(message@),
    {
        proof {
            use_type_invariant(&*self);
            assert(message_views(self.messages@.push(message)) =~= message_views(
                self.messages@,
            ).push(message@));
        }
        let mut messages = Vec::new();
        std::mem::swap(&mut messages, &mut self.messages);
        messages.push(message);
        self.messages = messages;
        self.elapsed_time_since_last_message = 0;
    }

    /// Moves both clocks on by `delta` milliseconds.
    pub fn advance(&mut self, delta: MiliSec)
        requires
            old(self)@.elapsed_total + delta <= MiliSec::MAX,
        ensures
            final(self)@ == old(self)@.advance(delta as nat),
    {
        proof {
            use_type_invariant(&*self);
        }
        self.elapsed_time = self.elapsed_time + delta;
        self.elapsed_time_since_last_message = self.elapsed_time_since_last_message + delta;
    }

    /// Puts the window back to where a new one starts: closed, empty, both
    /// clocks at zero.
    pub fn reset(&mut self)
        ensures
            final(self)@ == StateView::closed(),
    {
        self.elapsed_time_since_last_message = 0;
        self.elapsed_time = 0;
        self.opened = false;
        self.messages = Vec::new();
        proof {
            assert(message_views(self.messages@) =~= Seq::empty());
        }
    }

    /// The messages collected so far, oldest first.
    pub fn messages(&self) -> (messages: &Vec<Arc<Message>>)
        ensures
            message_views(messages@) == self@.messages,
    {
        &self.messages
    }

    /// The number of messages collected so far.
    pub fn len(&self) -> (len: usize)
        ensures
            len == self@.messages.len(),
    {
        self.messages.len()
    }

    /// The message that came last, if any has come.
    pub fn last_message(&self) -> (last: Option<&Arc<Message>>)
        ensures
            match last {
                Some(message) => self@.messages.len() > 0 && message@ == self@.messages.last(),
                None => self@.messages.len() == 0,
            },
    {
        let len = self.messages.len();
        if len == 0 {
            None
        } else {
            Some(&self.messages[len - 1])
        }
    }

    /// The milliseconds since the window was opened.
    pub fn elapsed_total(&self) -> (elapsed: MiliSec)
        ensures
            elapsed == self@.elapsed_total,
    {
        self.elapsed_time
    }

    /// The milliseconds since the last message was added.
    pub fn elapsed_since_last_message(&self) -> (elapsed: MiliSec)
        ensures
            elapsed == self@.elapsed_since_last_message,
            elapsed <= self@.elapsed_total,
    {
        proof {
            use_type_invariant(&*self);
        }
        self.elapsed_time_since_last_message
    }
}

} // verus!
