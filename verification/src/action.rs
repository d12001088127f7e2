//! Actions: what a context does when one of its windows closes.
//!
//! An action does not write its message itself. It hands out an [`Alert`]:
//! the message to emit, with the context's identity entered into its values,
//! the template of the message's text, and the messages of the closed
//! window. Whoever renders the template gives the outcome to
//! [`Alert::render_message`], which decides what is emitted.
use crate::context::base::BaseContext;
use crate::message::{distinct_keys, opt_text, pairs_map, Message, MessageBuilder, MessageView};
use crate::state::{message_views, share, State};
use std::sync::Arc;
use vstd::prelude::*;
use vstd::std_specs::convert::FromSpecImpl;

verus! {

/// The key under which an alert's message carries the identifier of the
/// context whose window closed.
pub const CONTEXT_UUID: &'static str = "context_uuid";

/// The key under which an alert's message carries the name of the context
/// whose window closed, where the context has one.
pub const CONTEXT_NAME: &'static str = "context_name";

/// The key under which a rendered message carries its text.
pub const MESSAGE: &'static str = "message";

/// The character that stands for a hexadecimal digit, in lower case.
pub open spec fn hex_char(digit: int) -> char {
    if digit == 0 {
        '0'
    } else if digit == 1 {
        '1'
    } else if digit == 2 {
        '2'
    } else if digit == 3 {
        '3'
    } else if digit == 4 {
        '4'
    } else if digit == 5 {
        '5'
    } else if digit == 6 {
        '6'
    } else if digit == 7 {
        '7'
    } else if digit == 8 {
        '8'
    } else if digit == 9 {
        '9'
    } else if digit == 10 {
        'a'
    } else if digit == 11 {
        'b'
    } else if digit == 12 {
        'c'
    } else if digit == 13 {
        'd'
    } else if digit == 14 {
        'e'
    } else {
        'f'
    }
}

/// Sixteen to the power of `exponent`.
pub open spec fn sixteen_to(exponent: nat) -> nat
    decreases exponent,
{
    if exponent == 0 {
        1
    } else {
        16 * sixteen_to((exponent - 1) as nat)
    }
}

/// The hexadecimal digit of `uuid` at `place`, where place 0 is the most
/// significant of its 32 digits.
pub open spec fn hex_digit(uuid: u128, place: int) -> int {
    (uuid as int / sixteen_to((31 - place) as nat) as int) % 16
}

/// The hyphenated form of an identifier: its 32 hexadecimal digits in lower
/// case, most significant first, in groups of 8, 4, 4, 4 and 12 with a
/// hyphen between two groups.
pub open spec fn hyphenated_text(uuid: u128) -> Seq<char> {
    Seq::new(
        36,
        |i: int|
            if i == 8 || i == 13 || i == 18 || i == 23 {
                '-'
            } else if i < 8 {
                hex_char(hex_digit(uuid, i))
            } else if i < 13 {
                hex_char(hex_digit(uuid, i - 1))
            } else if i < 18 {
                hex_char(hex_digit(uuid, i - 2))
            } else if i < 23 {
                hex_char(hex_digit(uuid, i - 3))
            } else {
                hex_char(hex_digit(uuid, i - 4))
            },
    )
}

/// Writes an identifier in its hyphenated form.
///
/// Trusted: `Uuid::from_u128` and `Uuid::hyphenated` of the uuid crate, and
/// the `Display` of what the latter returns. The first takes the number's
/// bytes most significant first; the text is made of their hexadecimal
/// digits in lower case, with hyphens after the 8th, 12th, 16th and 20th
/// digit.
#[verifier::external_body]
pub(crate) fn hyphenated(uuid: u128) -> (text: String)
    ensures
        text@ == hyphenated_text(uuid),
{
    uuid::Uuid::from_u128(uuid).hyphenated().to_string()
}

/// An alert as plain mathematical values.
pub struct AlertView {
    pub message: MessageView,
    pub template: Seq<char>,
    pub messages: Seq<MessageView>,
}

/// What a message action hands out when a window closes.
#[derive(Debug)]
pub struct Alert {
    /// The message to emit. Its values hold the context's identity.
    pub message: Message,
    /// The template of the message's text.
    pub template: String,
    /// The messages of the closed window, oldest first.
    pub messages: Vec<Arc<Message>>,
}

impl View for Alert {
    type V = AlertView;

    open spec fn view(&self) -> AlertView {
        AlertView {
            message: self.message@,
            template: self.template@,
            messages: message_views(self.messages@),
        }
    }
}

impl Alert {
    /// The message that is emitted once the template has been rendered.
    /// Where rendering gave a text, the alert's message carries it under
    /// [`MESSAGE`]; where rendering failed, nothing is emitted.
    pub fn render_message(&self, rendered: Option<String>) -> (emitted: Option<Message>)
        ensures
            match emitted {
                Some(message) => rendered is Some && message@ == (MessageView {
                    values: self@.message.values.insert(MESSAGE@, rendered->0@),
                    ..self@.message
                }),
                None => rendered is None,
            },
    {
        match rendered {
            Some(text) => {
                let mut builder = MessageBuilder::from_message(&self.message);
                builder.pair(MESSAGE, text.as_str());
                Some(builder.build())
            },
            None => None,
        }
    }
}

/// A message action as plain mathematical values.
pub struct MessageActionView {
    pub uuid: Seq<char>,
    pub name: Option<Seq<char>>,
    pub message: Seq<char>,
    pub values: Map<Seq<char>, Seq<char>>,
}

/// The values of an action's message once the identity of the context has
/// been entered into them.
pub open spec fn context_values(
    values: Map<Seq<char>, Seq<char>>,
    context_name: Option<Seq<char>>,
    context_uuid: u128,
) -> Map<Seq<char>, Seq<char>> {
    let with_uuid = values.insert(CONTEXT_UUID@, hyphenated_text(context_uuid));
    match context_name {
        Some(name) => with_uuid.insert(CONTEXT_NAME@, name),
        None => with_uuid,
    }
}

impl MessageActionView {
    /// The alert that the action hands out for a window of the named context
    /// that closed with `messages`.
    pub open spec fn alert(
        self,
        context_name: Option<Seq<char>>,
        context_uuid: u128,
        messages: Seq<MessageView>,
    ) -> AlertView {
        AlertView {
            message: MessageView {
                uuid: self.uuid,
                name: self.name,
                values: context_values(self.values, context_name, context_uuid),
            },
            template: self.message,
            messages: messages,
        }
    }
}

/// The action that emits a message.
#[derive(Debug)]
pub struct MessageAction {
    uuid: String,
    name: Option<String>,
    message: String,
    values: Vec<(String, String)>,
}

impl View for MessageAction {
    type V = MessageActionView;

    closed spec fn view(&self) -> MessageActionView {
        MessageActionView {
            uuid: self.uuid@,
            name: opt_text(self.name),
            message: self.message@,
            values: pairs_map(self.values@),
        }
    }
}

/// Handles on the messages of a list, in the same order.
pub fn share_all(messages: &Vec<Arc<Message>>) -> (shared: Vec<Arc<Message>>)
    ensures
        shared@ == messages@,
{
    let mut shared: Vec<Arc<Message>> = Vec::new();
    let mut i: usize = 0;
    while i < messages.len()
        invariant
            i <= messages.len(),
            shared@ == messages@.take(i as int),
        decreases messages.len() - i,
    {
        shared.push(share(&messages[i]));
        proof {
            assert(messages@.take(i + 1) =~= messages@.take(i as int).push(messages[i as int]));
        }
        i = i + 1;
    }
    proof {
        assert(messages@.take(messages.len() as int) =~= messages@);
    }
    shared
}

impl MessageAction {
    /// No key stands twice among the stored pairs.
    #[verifier::type_invariant]
    spec fn keys_once(&self) -> bool {
        distinct_keys(self.values@)
    }

    /// The identifier of the message that the action emits.
    pub fn uuid(&self) -> (uuid: &String)
        ensures
            uuid@ == self@.uuid,
    {
        &self.uuid
    }

    /// The name of the message that the action emits, if it has one.
    pub fn name(&self) -> (name: Option<&String>)
        ensures
            match name {
                Some(text) => self@.name == Some(text@),
                None => self@.name is None,
            },
    {
        self.name.as_ref()
    }

    /// The template of the message's text.
    pub fn message(&self) -> (message: &String)
        ensures
            message@ == self@.message,
    {
        &self.message
    }

    /// The values of the message that the action emits, each key once.
    pub fn values(&self) -> (values: &Vec<(String, String)>)
        ensures
            pairs_map(values@) == self@.values,
            distinct_keys(values@),
    {
        proof {
            use_type_invariant(self);
        }
        &self.values
    }

    /// The alert for a window of `context` that closed in `state`.
    pub fn execute(&self, state: &State, context: &BaseContext) -> (command: ActionCommand)
        ensures
            command@ == ActionCommandView::Message(
                self@.alert(context@.name, context@.uuid, state@.messages),
            ),
    {
        let mut builder = MessageBuilder::new(self.uuid.as_str());
        match &self.name {
            Some(name) => {
                builder.name(name.as_str());
            },
            None => {},
        }
        let mut i: usize = 0;
        while i < self.values.len()
            invariant
                i <= self.values.len(),
                builder@ == (MessageView {
                    uuid: self@.uuid,
                    name: self@.name,
                    values: pairs_map(self.values@.take(i as int)),
                }),
            decreases self.values.len() - i,
        {
            proof {
                assert(self.values@.take(i + 1).drop_last() =~= self.values@.take(i as int));
            }
            builder.pair(self.values[i].0.as_str(), self.values[i].1.as_str());
            i = i + 1;
        }
        proof {
            assert(self.values@.take(self.values.len() as int) =~= self.values@);
        }
        let uuid = hyphenated(context.uuid());
        builder.pair(CONTEXT_UUID, uuid.as_str());
        match context.name() {
            Some(name) => {
                builder.pair(CONTEXT_NAME, name.as_str());
            },
            None => {},
        }
        ActionCommand::Message(
            Alert {
                message: builder.build(),
                template: self.message.clone(),
                messages: share_all(state.messages()),
            },
        )
    }

    /// The message that the action stands for when no window is at hand: its
    /// identifier, its name and its values.
    pub fn to_message(&self) -> (message: Message)
        ensures
            message@ == (MessageView {
                uuid: self@.uuid,
                name: self@.name,
                values: self@.values,
            }),
    {
        Message::from_parts(
            self.uuid.clone(),
            crate::message::copy_name(&self.name),
            crate::message::copy_pairs(&self.values),
        )
    }

    /// Whether both actions emit the same message from the same template.
    pub fn same_as(&self, other: &MessageAction) -> (same: bool)
        ensures
            same == (self@ == other@),
    {
        let same_message = self.to_message().same_as(&other.to_message());
        let same = same_message && self.message == other.message;
        proof {
            if same {
                assert(self@.values =~= other@.values);
            }
        }
        same
    }

    /// A copy of this action.
    pub fn duplicate(&self) -> (copy: MessageAction)
        ensures
            copy@ == self@,
    {
        proof {
            use_type_invariant(self);
        }
        MessageAction {
            uuid: self.uuid.clone(),
            name: crate::message::copy_name(&self.name),
            message: self.message.clone(),
            values: crate::message::copy_pairs(&self.values),
        }
    }
}

/// Collects the parts of a message action and builds it.
pub struct MessageActionBuilder {
    uuid: String,
    name: Option<String>,
    message: String,
    values: MessageBuilder,
}

impl View for MessageActionBuilder {
    type V = MessageActionView;

    closed spec fn view(&self) -> MessageActionView {
        MessageActionView {
            uuid: self.uuid@,
            name: opt_text(self.name),
            message: self.message@,
            values: self.values@.values,
        }
    }
}

impl MessageActionBuilder {
    /// Starts an action that emits a message with the identifier `uuid`, whose
    /// text comes from the template `message`.
    pub fn new(uuid: &str, message: &str) -> (builder: MessageActionBuilder)
        ensures
            builder@ == (MessageActionView {
                uuid: uuid@,
                name: None,
                message: message@,
                values: Map::empty(),
            }),
    {
        MessageActionBuilder {
            uuid: uuid.to_owned(),
            name: None,
            message: message.to_owned(),
            values: MessageBuilder::new(uuid),
        }
    }

    /// Gives the emitted message a name, or none.
    pub fn name(self, name: Option<String>) -> (builder: MessageActionBuilder)
        ensures
            builder@ == (MessageActionView { name: opt_text(name), ..self@ }),
    {
        let mut builder = self;
        builder.name = name;
        builder
    }

    /// Sets the value of `key` in the emitted message.
    pub fn pair(self, key: &str, value: &str) -> (builder: MessageActionBuilder)
        ensures
            builder@ == (MessageActionView {
                values: self@.values.insert(key@, value@),
                ..self@
            }),
    {
        let mut builder = self;
        builder.values.pair(key, value);
        builder
    }

    /// The action collected so far.
    pub fn build(self) -> (action: MessageAction)
        ensures
            action@ == self@,
    {
        let message = self.values.build();
        MessageAction {
            uuid: self.uuid,
            name: self.name,
            message: self.message,
            values: crate::message::copy_pairs(message.values()),
        }
    }
}

/// An action as plain mathematical values.
pub enum ActionView {
    Message(MessageActionView),
}

/// What a context does when one of its windows closes.
#[derive(Debug)]
pub enum Action {
    Message(MessageAction),
}

impl View for Action {
    type V = ActionView;

    open spec fn view(&self) -> ActionView {
        match self {
            Action::Message(action) => ActionView::Message(action@),
        }
    }
}

impl ActionView {
    /// What the action hands out for a window of the named context that
    /// closed with `messages`.
    pub open spec fn execute(
        self,
        context_name: Option<Seq<char>>,
        context_uuid: u128,
        messages: Seq<MessageView>,
    ) -> ActionCommandView {
        match self {
            ActionView::Message(action) => ActionCommandView::Message(
                action.alert(context_name, context_uuid, messages),
            ),
        }
    }
}

impl Action {
    /// What is to be done for a window of `context` that closed in `state`.
    pub fn execute(&self, state: &State, context: &BaseContext) -> (command: ActionCommand)
        ensures
            command@ == self@.execute(context@.name, context@.uuid, state@.messages),
    {
        match self {
            Action::Message(action) => action.execute(state, context),
        }
    }

    /// A copy of this action.
    pub fn duplicate(&self) -> (copy: Action)
        ensures
            copy@ == self@,
    {
        match self {
            Action::Message(action) => Action::Message(action.duplicate()),
        }
    }
}

impl From<MessageAction> for Action {
    fn from(action: MessageAction) -> (wrapped: Action) {
        Action::Message(action)
    }
}

impl FromSpecImpl<MessageAction> for Action {
    open spec fn obeys_from_spec() -> bool {
        true
    }

    open spec fn from_spec(action: MessageAction) -> Action {
        Action::Message(action)
    }
}

/// What an executed action asks for, as plain mathematical values.
pub enum ActionCommandView {
    Message(AlertView),
}

/// What an executed action asks for.
#[derive(Debug)]
pub enum ActionCommand {
    Message(Alert),
}

impl View for ActionCommand {
    type V = ActionCommandView;

    open spec fn view(&self) -> ActionCommandView {
        match self {
            ActionCommand::Message(alert) => ActionCommandView::Message(alert@),
        }
    }
}

} // verus!
