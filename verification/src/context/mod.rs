//! Contexts: the configured rules of correlation and their windows.
use crate::conditions::texts;
use crate::config::{Context as ContextConfig, ContextConfigView};
use crate::dispatcher::request::{Request, RequestView};
use crate::dispatcher::response::ResponseSender;
use crate::dispatcher::ResponseView;
use vstd::prelude::*;
use vstd::std_specs::convert::FromSpecImpl;

pub mod base;
pub mod context_map;
pub mod linear;
pub mod map;

pub use self::base::BaseContext;
pub use self::base::Builder as BaseContextBuilder;
pub use self::context_map::ContextMap;
pub use self::linear::LinearContext;
pub use self::linear::LinearView;
pub use self::map::MapContext;
pub use self::map::MapView;

verus! {

/// A context as plain mathematical values.
pub enum ContextView {
    Linear(LinearView),
    Keyed(MapView),
}

impl ContextView {
    /// The context and the responses after an event.
    pub open spec fn on_event(self, event: RequestView) -> (ContextView, Seq<ResponseView>) {
        match self {
            ContextView::Linear(context) => (
                ContextView::Linear(context.on_event(event).0),
                context.on_event(event).1,
            ),
            ContextView::Keyed(context) => (
                ContextView::Keyed(context.on_event(event).0),
                context.on_event(event).1,
            ),
        }
    }

    /// The patterns of the context's conditions.
    pub open spec fn patterns(self) -> Seq<Seq<char>> {
        match self {
            ContextView::Linear(context) => context.base.conditions.patterns,
            ContextView::Keyed(context) => context.base.conditions.patterns,
        }
    }
}

/// A configured rule of correlation with its windows: one window, or one for
/// each correlation key.
pub enum Context {
    Linear(LinearContext),
    Keyed(MapContext),
}

impl View for Context {
    type V = ContextView;

    open spec fn view(&self) -> ContextView {
        match self {
            Context::Linear(context) => ContextView::Linear(context@),
            Context::Keyed(context) => ContextView::Keyed(context@),
        }
    }
}

/// The context that a definition stands for, before any event: one window for
/// each correlation key where the definition names a key field, a single
/// window where it names none; no window is open.
pub open spec fn configured(config: ContextConfigView) -> ContextView {
    match config.context_id {
        Some(key_field) => ContextView::Keyed(
            MapView { base: config.base, key_field: key_field, instances: Seq::empty() },
        ),
        None => ContextView::Linear(
            LinearView { base: config.base, state: crate::state::StateView::closed() },
        ),
    }
}

impl From<ContextConfig> for Context {
    /// The context that `config` stands for, before any event.
    fn from(config: ContextConfig) -> (context: Context)
        ensures
            context@ == configured(config@),
    {
        let ContextConfig { name, uuid, conditions, context_id, actions } = config;

        let base = BaseContextBuilder::new(uuid, conditions);
        let base = base.name(name);
        let base = base.actions(actions);
        let base = base.build();

        if let Some(context_id) = context_id {
            Context::Keyed(MapContext::new(base, context_id))
        } else {
            Context::Linear(LinearContext::new(base))
        }
    }
}

/// What the conversion gives is stated on `from` itself, over the views of
/// the definition and of the context.
impl FromSpecImpl<ContextConfig> for Context {
    open spec fn obeys_from_spec() -> bool {
        false
    }

    open spec fn from_spec(config: ContextConfig) -> Context {
        arbitrary()
    }
}

impl Context {
    /// Serves an event.
    pub fn on_event<R: ResponseSender>(&mut self, event: Request, responder: &mut R)
        ensures
            final(self)@ == old(self)@.on_event(event@).0,
            final(responder).sent() == old(responder).sent() + old(self)@.on_event(event@).1,
    {
        match self {
            Context::Linear(context) => context.on_event(event, responder),
            Context::Keyed(context) => context.on_event(event, responder),
        }
    }

    /// The patterns of the context's conditions.
    pub fn patterns(&self) -> (patterns: &[String])
        ensures
            texts(patterns@) == self@.patterns(),
    {
        match self {
            Context::Linear(context) => context.patterns(),
            Context::Keyed(context) => context.patterns(),
        }
    }
}

} // verus!
