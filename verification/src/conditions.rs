//! The conditions of a context: which message opens a window and when an open
//! window closes.
use crate::message::{names, Message, MessageView};
use crate::state::{State, StateView};
use crate::MiliSec;
use vstd::prelude::*;

verus! {

/// The conditions as plain mathematical values. Durations are milliseconds.
pub struct ConditionsView {
    pub timeout: nat,
    pub max_size: Option<nat>,
    pub renew_timeout: Option<nat>,
    pub patterns: Seq<Seq<char>>,
    pub first_opens: bool,
    pub last_closes: bool,
}

impl ConditionsView {
    /// Whether `message` opens a window. With no patterns every message does.
    /// With patterns the message has to answer to one of them, and to the
    /// first one where `first_opens` is set.
    pub open spec fn opens(self, message: MessageView) -> bool {
        self.patterns.len() == 0 || if self.first_opens {
            names(message, self.patterns[0])
        } else {
            exists|i: int| 0 <= i < self.patterns.len() && names(message, #[trigger] self.patterns[i])
        }
    }

    /// Whether the time since the opening has reached the timeout.
    pub open spec fn timed_out(self, state: StateView) -> bool {
        state.elapsed_total >= self.timeout
    }

    /// Whether the window holds as many messages as it may.
    pub open spec fn full(self, state: StateView) -> bool {
        self.max_size matches Some(max_size) && state.messages.len() >= max_size
    }

    /// Whether the time since the last message has reached the renew timeout.
    pub open spec fn not_renewed(self, state: StateView) -> bool {
        self.renew_timeout matches Some(renew_timeout) && state.elapsed_since_last_message
            >= renew_timeout
    }

    /// Whether the window is to close on its last message: `last_closes` is
    /// set and the message that came last answers to the last pattern.
    pub open spec fn closed_by_last(self, state: StateView) -> bool {
        self.last_closes && state.messages.len() > 0 && self.patterns.len() > 0 && names(
            state.messages.last(),
            self.patterns.last(),
        )
    }

    /// Whether a window in this state closes: any one of the four reasons is
    /// enough.
    pub open spec fn closes(self, state: StateView) -> bool {
        self.timed_out(state) || self.full(state) || self.not_renewed(state) || self.closed_by_last(
            state,
        )
    }
}

/// The texts of a list of strings.
pub open spec fn texts(strings: Seq<String>) -> Seq<Seq<char>> {
    strings.map_values(|text: String| text@)
}

/// The number behind an optional duration.
pub open spec fn opt_millis(duration: Option<MiliSec>) -> Option<nat> {
    match duration {
        Some(millis) => Some(millis as nat),
        None => None,
    }
}

/// The number behind an optional count.
pub open spec fn opt_count(count: Option<usize>) -> Option<nat> {
    match count {
        Some(n) => Some(n as nat),
        None => None,
    }
}

/// The opening and closing conditions of a context.
#[derive(Debug)]
pub struct Conditions {
    pub timeout: MiliSec,
    pub renew_timeout: Option<MiliSec>,
    pub first_opens: bool,
    pub last_closes: bool,
    pub max_size: Option<usize>,
    pub patterns: Vec<String>,
}

impl View for Conditions {
    type V = ConditionsView;

    open spec fn view(&self) -> ConditionsView {
        ConditionsView {
            timeout: self.timeout as nat,
            max_size: opt_count(self.max_size),
            renew_timeout: opt_millis(self.renew_timeout),
            patterns: texts(self.patterns@),
            first_opens: self.first_opens,
            last_closes: self.last_closes,
        }
    }
}

/// A copy of a list of strings.
pub fn copy_strings(strings: &Vec<String>) -> (copy: Vec<String>)
    ensures
        copy@ == strings@,
{
    let mut copy: Vec<String> = Vec::new();
    let mut i: usize = 0;
    while i < strings.len()
        invariant
            i <= strings.len(),
            copy@ == strings@.take(i as int),
        decreases strings.len() - i,
    {
        copy.push(strings[i].clone());
        proof {
            assert(strings@.take(i + 1) =~= strings@.take(i as int).push(strings[i as int]));
        }
        i = i + 1;
    }
    proof {
        assert(strings@.take(strings.len() as int) =~= strings@);
    }
    copy
}

impl Conditions {
    /// Conditions with the given timeout and nothing else: every message
    /// opens a window, and only the timeout closes it.
    pub fn new(timeout: MiliSec) -> (conditions: Conditions)
        ensures
            conditions@ == (ConditionsView {
                timeout: timeout as nat,
                max_size: None,
                renew_timeout: None,
                patterns: Seq::empty(),
                first_opens: false,
                last_closes: false,
            }),
    {
        let conditions = Conditions {
            timeout,
            renew_timeout: None,
            first_opens: false,
            last_closes: false,
            max_size: None,
            patterns: Vec::new(),
        };
        proof {
            assert(texts(conditions.patterns@) =~= Seq::empty());
        }
        conditions
    }

    /// Whether `message` opens a window.
    pub fn is_opening(&self, message: &Message) -> (opening: bool)
        ensures
            opening == self@.opens(message@),
    {
        if self.patterns.len() == 0 {
            return true;
        }
        if self.first_opens {
            return message.is_named(&self.patterns[0]);
        }
        let mut i: usize = 0;
        while i < self.patterns.len()
            invariant
                i <= self.patterns.len(),
                !self.first_opens,
                forall|j: int| 0 <= j < i ==> !names(message@, #[trigger] self@.patterns[j]),
            decreases self.patterns.len() - i,
        {
            if message.is_named(&self.patterns[i]) {
                proof {
                    assert(names(message@, self@.patterns[i as int]));
                }
                return true;
            }
            i = i + 1;
        }
        false
    }

    /// Whether a window in this state closes.
    pub fn is_closing(&self, state: &State) -> (closing: bool)
        ensures
            closing == self@.closes(state@),
    {
        self.is_timed_out(state) || self.is_full(state) || self.is_not_renewed(state)
            || self.is_closed_by_last(state)
    }

    fn is_timed_out(&self, state: &State) -> (reached: bool)
        ensures
            reached == self@.timed_out(state@),
    {
        state.elapsed_total() >= self.timeout
    }

    fn is_full(&self, state: &State) -> (full: bool)
        ensures
            full == self@.full(state@),
    {
        match self.max_size {
            Some(max_size) => state.len() >= max_size,
            None => false,
        }
    }

    fn is_not_renewed(&self, state: &State) -> (expired: bool)
        ensures
            expired == self@.not_renewed(state@),
    {
        match self.renew_timeout {
            Some(renew_timeout) => state.elapsed_since_last_message() >= renew_timeout,
            None => false,
        }
    }

    fn is_closed_by_last(&self, state: &State) -> (closed: bool)
        ensures
            closed == self@.closed_by_last(state@),
    {
        if !self.last_closes || self.patterns.len() == 0 {
            return false;
        }
        match state.last_message() {
            Some(message) => message.is_named(&self.patterns[self.patterns.len() - 1]),
            None => false,
        }
    }

    /// A copy of these conditions.
    pub fn duplicate(&self) -> (copy: Conditions)
        ensures
            copy@ == self@,
    {
        Conditions {
            timeout: self.timeout,
            renew_timeout: self.renew_timeout,
            first_opens: self.first_opens,
            last_closes: self.last_closes,
            max_size: self.max_size,
            patterns: copy_strings(&self.patterns),
        }
    }
}

/// Collects the parts of the conditions and builds them.
pub struct ConditionsBuilder {
    conditions: Conditions,
}

impl View for ConditionsBuilder {
    type V = ConditionsView;

    closed spec fn view(&self) -> ConditionsView {
        self.conditions@
    }
}

impl ConditionsBuilder {
    /// Starts from the conditions that hold a timeout and nothing else.
    pub fn new(timeout: MiliSec) -> (builder: ConditionsBuilder)
        ensures
            builder@ == (ConditionsView {
                timeout: timeout as nat,
                max_size: None,
                renew_timeout: None,
                patterns: Seq::empty(),
                first_opens: false,
                last_closes: false,
            }),
    {
        ConditionsBuilder { conditions: Conditions::new(timeout) }
    }

    /// Closes a window once it holds `max_size` messages.
    pub fn max_size(self, max_size: usize) -> (builder: ConditionsBuilder)
        ensures
            builder@ == (ConditionsView { max_size: Some(max_size as nat), ..self@ }),
    {
        let mut builder = self;
        builder.conditions.max_size = Some(max_size);
        builder
    }

    /// Closes a window once `renew_timeout` milliseconds have passed since
    /// its last message.
    pub fn renew_timeout(self, renew_timeout: MiliSec) -> (builder: ConditionsBuilder)
        ensures
            builder@ == (ConditionsView { renew_timeout: Some(renew_timeout as nat), ..self@ }),
    {
        let mut builder = self;
        builder.conditions.renew_timeout = Some(renew_timeout);
        builder
    }

    /// Sets the patterns that messages are held against.
    pub fn patterns(self, patterns: Vec<String>) -> (builder: ConditionsBuilder)
        ensures
            builder@ == (ConditionsView { patterns: texts(patterns@), ..self@ }),
    {
        let mut builder = self;
        builder.conditions.patterns = patterns;
        builder
    }

    /// Lets only a message that answers to the first pattern open a window.
    pub fn first_opens(self, first_opens: bool) -> (builder: ConditionsBuilder)
        ensures
            builder@ == (ConditionsView { first_opens: first_opens, ..self@ }),
    {
        let mut builder = self;
        builder.conditions.first_opens = first_opens;
        builder
    }

    /// Lets a message that answers to the last pattern close the window.
    pub fn last_closes(self, last_closes: bool) -> (builder: ConditionsBuilder)
        ensures
            builder@ == (ConditionsView { last_closes: last_closes, ..self@ }),
    {
        let mut builder = self;
        builder.conditions.last_closes = last_closes;
        builder
    }

    /// The conditions collected so far.
    pub fn build(self) -> (conditions: Conditions)
        ensures
            conditions@ == self@,
    {
        self.conditions
    }
}

} // verus!
