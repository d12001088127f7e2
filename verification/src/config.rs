//! The definition of a context, as the configuration hands it over.
use crate::action::Action;
use crate::conditions::Conditions;
use crate::context::base::{action_views, BaseContextView};
use crate::message::{copy_name, opt_text};
use vstd::prelude::*;

verus! {

/// The definition of a context as plain mathematical values.
pub struct ContextConfigView {
    pub base: BaseContextView,
    pub context_id: Option<Seq<char>>,
}

/// The definition of a context: its name, its identifier, its conditions,
/// its actions and, where it keeps one window for each correlation key, the
/// key under which a message carries its correlation key.
#[derive(Debug)]
pub struct Context {
    pub name: Option<String>,
    pub uuid: u128,
    pub conditions: Conditions,
    pub context_id: Option<String>,
    pub actions: Vec<Action>,
}

impl View for Context {
    type V = ContextConfigView;

    open spec fn view(&self) -> ContextConfigView {
        ContextConfigView {
            base: BaseContextView {
                name: opt_text(self.name),
                uuid: self.uuid,
                conditions: self.conditions@,
                actions: action_views(self.actions@),
            },
            context_id: opt_text(self.context_id),
        }
    }
}

/// A copy of a list of actions, action for action.
pub fn copy_actions(actions: &Vec<Action>) -> (copy: Vec<Action>)
    ensures
        action_views(copy@) == action_views(actions@),
{
    let mut copy: Vec<Action> = Vec::new();
    let mut i: usize = 0;
    while i < actions.len()
        invariant
            i <= actions.len(),
            copy@.len() == i,
            forall|j: int| 0 <= j < i ==> (#[trigger] copy@[j])@ == actions@[j]@,
        decreases actions.len() - i,
    {
        copy.push(actions[i].duplicate());
        i = i + 1;
    }
    proof {
        assert(action_views(copy@) =~= action_views(actions@));
    }
    copy
}

/// Collects the parts of a context's definition and builds it.
pub struct ContextBuilder {
    name: Option<String>,
    uuid: u128,
    conditions: Conditions,
    context_id: Option<String>,
    actions: Vec<Action>,
}

impl View for ContextBuilder {
    type V = ContextConfigView;

    closed spec fn view(&self) -> ContextConfigView {
        ContextConfigView {
            base: BaseContextView {
                name: opt_text(self.name),
                uuid: self.uuid,
                conditions: self.conditions@,
                actions: action_views(self.actions@),
            },
            context_id: opt_text(self.context_id),
        }
    }
}

impl ContextBuilder {
    /// Starts the definition of a context with a single window, without a
    /// name and without actions.
    pub fn new(uuid: u128, conditions: Conditions) -> (builder: ContextBuilder)
        ensures
            builder@ == (ContextConfigView {
                base: BaseContextView {
                    name: None,
                    uuid: uuid,
                    conditions: conditions@,
                    actions: Seq::empty(),
                },
                context_id: None,
            }),
    {
        let builder = ContextBuilder {
            name: None,
            uuid: uuid,
            conditions: conditions,
            context_id: None,
            actions: Vec::new(),
        };
        proof {
            assert(action_views(builder.actions@) =~= Seq::empty());
        }
        builder
    }

    /// Sets the actions that fire when a window closes.
    pub fn actions(&mut self, actions: Vec<Action>) -> (builder: &mut ContextBuilder)
        ensures
            builder@ == (ContextConfigView {
                base: BaseContextView { actions: action_views(actions@), ..old(self)@.base },
                ..old(self)@
            }),
            *final(self) == *final(builder),
    {
        self.actions = actions;
        self
    }

    /// Gives the context a name.
    pub fn name(&mut self, name: String) -> (builder: &mut ContextBuilder)
        ensures
            builder@ == (ContextConfigView {
                base: BaseContextView { name: Some(name@), ..old(self)@.base },
                ..old(self)@
            }),
            *final(self) == *final(builder),
    {
        self.name = Some(name);
        self
    }

    /// Lets the context keep one window for each correlation key, which a
    /// message carries under `context_id`.
    pub fn context_id(&mut self, context_id: String) -> (builder: &mut ContextBuilder)
        ensures
            builder@ == (ContextConfigView { context_id: Some(context_id@), ..old(self)@ }),
            *final(self) == *final(builder),
    {
        self.context_id = Some(context_id);
        self
    }

    /// The definition collected so far.
    pub fn build(&self) -> (context: Context)
        ensures
            context@ == self@,
    {
        Context {
            name: copy_name(&self.name),
            uuid: self.uuid,
            conditions: self.conditions.duplicate(),
            context_id: copy_name(&self.context_id),
            actions: copy_actions(&self.actions),
        }
    }
}

} // verus!
