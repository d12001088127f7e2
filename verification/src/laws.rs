//! What holds of the windows of a context whatever the events are.
use crate::context::base::BaseContextView;
use crate::context::linear::LinearView;
use crate::context::map::{key_of, position, timed, window_of, Instances, MapView};
use crate::dispatcher::request::RequestView;
use crate::dispatcher::ResponseView;
use crate::message::MessageView;
use crate::state::StateView;
use vstd::prelude::*;

verus! {

/// The window after a run of ticks, served one after the other.
pub open spec fn after_timers(base: BaseContextView, state: StateView, deltas: Seq<nat>) -> StateView
    decreases deltas.len(),
{
    if deltas.len() == 0 {
        state
    } else {
        base.on_timer(after_timers(base, state, deltas.drop_last()), deltas.last()).0
    }
}

/// The milliseconds that a run of ticks adds up to.
pub open spec fn total(deltas: Seq<nat>) -> nat
    decreases deltas.len(),
{
    if deltas.len() == 0 {
        0
    } else {
        total(deltas.drop_last()) + deltas.last()
    }
}

/// A window that nothing but its size can close: while it holds fewer
/// messages than `max_size` it stays open, on a message as on a tick, and the
/// message that brings it to `max_size` closes it and fires the actions on
/// all its messages.
pub proof fn law_max_size_closes_exactly(
    base: BaseContextView,
    state: StateView,
    message: MessageView,
    delta: nat,
    max_size: nat,
)
    requires
        base.conditions.max_size == Some(max_size),
        base.conditions.renew_timeout is None,
        !base.conditions.last_closes,
        state.is_open,
        state.messages.len() < max_size,
        state.elapsed_total + delta < base.conditions.timeout,
    ensures
        base.on_message(state, message).0.is_open <==> state.messages.len() + 1 < max_size,
        state.messages.len() + 1 < max_size ==> base.on_message(state, message) == (
            state.add_message(message),
            Seq::<ResponseView>::empty(),
        ),
        state.messages.len() + 1 == max_size ==> base.on_message(state, message) == (
            StateView::closed(),
            base.alerts(state.messages.push(message)),
        ),
        base.on_timer(state, delta) == (state.advance(delta), Seq::<ResponseView>::empty()),
{
}

/// The same of the message that opens the window: the window is open
/// afterwards exactly if one message is fewer than `max_size`.
pub proof fn law_max_size_on_opening(
    base: BaseContextView,
    state: StateView,
    message: MessageView,
    max_size: nat,
)
    requires
        base.conditions.max_size == Some(max_size),
        base.conditions.renew_timeout is None,
        !base.conditions.last_closes,
        base.conditions.timeout > 0,
        !state.is_open,
        base.conditions.opens(message),
    ensures
        base.on_message(state, message).0.is_open <==> 1 < max_size,
        1 < max_size ==> base.on_message(state, message).0.messages == seq![message],
{
    assert(StateView::closed().add_message(message).messages =~= seq![message]);
}

/// A window that has just been opened stays open through every run of ticks
/// that adds up to less than the timeout, and is closed after every run that
/// adds up to the timeout or more: so it closes at the first tick at which
/// the sum reaches the timeout. A renew timeout shorter than the timeout
/// would close the window earlier, so there is none.
pub proof fn law_timeout_closes_exactly(base: BaseContextView, state: StateView, deltas: Seq<nat>)
    requires
        state.is_open,
        state.elapsed_total == 0,
        state.elapsed_since_last_message == 0,
        !base.conditions.closes(state),
        base.conditions.renew_timeout matches Some(renew_timeout) ==> renew_timeout
            >= base.conditions.timeout,
    ensures
        after_timers(base, state, deltas).is_open <==> total(deltas) < base.conditions.timeout,
        total(deltas) < base.conditions.timeout ==> after_timers(base, state, deltas) == state.advance(
            total(deltas),
        ),
        total(deltas) >= base.conditions.timeout ==> after_timers(base, state, deltas)
            == StateView::closed(),
    decreases deltas.len(),
{
    if deltas.len() > 0 {
        law_timeout_closes_exactly(base, state, deltas.drop_last());
    }
}

/// With a renew timeout shorter than the timeout: a message that an open
/// window takes starts the clock of the renew timeout again, and a tick that
/// brings this clock to the renew timeout closes the window and fires the
/// actions, however far the timeout is.
pub proof fn law_renew_timeout(
    base: BaseContextView,
    state: StateView,
    message: MessageView,
    delta: nat,
    renew_timeout: nat,
)
    requires
        base.conditions.renew_timeout == Some(renew_timeout),
        renew_timeout < base.conditions.timeout,
        state.is_open,
    ensures
        base.on_message(state, message).0.elapsed_since_last_message == 0,
        state.elapsed_since_last_message + delta >= renew_timeout ==> base.on_timer(state, delta)
            == (StateView::closed(), base.alerts(state.messages)),
        !base.conditions.closes(state) && state.elapsed_since_last_message + delta < renew_timeout
            && state.elapsed_total + delta < base.conditions.timeout ==> base.on_timer(
            state,
            delta,
        ) == (state.advance(delta), Seq::<ResponseView>::empty()),
{
}

/// No window is left open against the conditions: a window that is open
/// after a message or a tick has been held against the closing conditions,
/// and they do not close it. And a window that an event has closed is the
/// empty one from which a new window starts.
pub proof fn law_open_window_does_not_close(
    base: BaseContextView,
    state: StateView,
    message: MessageView,
    delta: nat,
)
    ensures
        base.on_message(state, message).0.is_open ==> !base.conditions.closes(
            base.on_message(state, message).0,
        ),
        state.is_open && base.on_timer(state, delta).0.is_open ==> !base.conditions.closes(
            base.on_timer(state, delta).0,
        ),
        state.is_open && !base.on_message(state, message).0.is_open ==> base.on_message(
            state,
            message,
        ).0 == StateView::closed(),
        state.is_open && !base.on_timer(state, delta).0.is_open ==> base.on_timer(state, delta).0
            == StateView::closed(),
{
}

/// A closed window takes no notice of a tick, nor of a message that does
/// not open it: it stays as it is and no action fires, however often the
/// event comes.
pub proof fn law_closed_window_is_idle(
    base: BaseContextView,
    state: StateView,
    message: MessageView,
    delta: nat,
)
    requires
        !state.is_open,
    ensures
        base.on_timer(state, delta) == (state, Seq::<ResponseView>::empty()),
        !base.conditions.opens(message) ==> base.on_message(state, message) == (
            state,
            Seq::<ResponseView>::empty(),
        ),
{
}

/// The same of a context with a single window.
pub proof fn law_closed_linear_is_idle(context: LinearView, event: RequestView)
    requires
        !context.state.is_open,
        event matches RequestView::Message(message) ==> !context.base.conditions.opens(message),
    ensures
        context.on_event(event) == (context, Seq::<ResponseView>::empty()),
        context.on_event(event).0.on_event(event) == (context, Seq::<ResponseView>::empty()),
{
}

/// The same of a context with a window for each key: a message that opens
/// nothing, whose key has no window, changes nothing and fires nothing.
pub proof fn law_closed_key_is_idle(context: MapView, message: MessageView)
    requires
        position(context.instances, key_of(context.key_field, message)) is None,
        !context.base.conditions.opens(message),
    ensures
        context.on_message(message) == (context, Seq::<ResponseView>::empty()),
{
}

/// Where the first window with a key stands: it carries the key and no
/// window before it does; and where there is none, no window carries the key.
pub proof fn lemma_position(instances: Instances, key: Seq<char>)
    ensures
        match position(instances, key) {
            Some(at) => 0 <= at < instances.len() && instances[at].0 == key && forall|j: int|
                0 <= j < at ==> (#[trigger] instances[j]).0 != key,
            None => forall|j: int| 0 <= j < instances.len() ==> (#[trigger] instances[j]).0 != key,
        },
    decreases instances.len(),
{
    if instances.len() > 0 {
        let front = instances.drop_last();
        lemma_position(front, key);
        match position(front, key) {
            Some(at) => {
                assert(instances[at] == front[at]);
                assert forall|j: int| 0 <= j < at implies (#[trigger] instances[j]).0 != key by {
                    assert(front[j].0 != key);
                }
            },
            None => {
                assert forall|j: int| 0 <= j < instances.len() - 1 implies (
                #[trigger] instances[j]).0 != key by {
                    assert(front[j].0 != key);
                }
            },
        }
    }
}

/// A window that carries a key which no window before it carries is the
/// first with that key.
pub proof fn lemma_position_is(instances: Instances, key: Seq<char>, at: int)
    requires
        0 <= at < instances.len(),
        instances[at].0 == key,
        forall|j: int| 0 <= j < at ==> (#[trigger] instances[j]).0 != key,
    ensures
        position(instances, key) == Some(at),
{
    lemma_position(instances, key);
    match position(instances, key) {
        Some(found) => {
            if found < at {
                assert(instances[found].0 != key);
            }
            if at < found {
                assert(instances[at].0 != key);
            }
        },
        None => {
            assert(instances[at].0 != key);
        },
    }
}

/// No window carries a key: then there is no first one.
pub proof fn lemma_position_none(instances: Instances, key: Seq<char>)
    requires
        forall|j: int| 0 <= j < instances.len() ==> (#[trigger] instances[j]).0 != key,
    ensures
        position(instances, key) is None,
{
    lemma_position(instances, key);
    if let Some(at) = position(instances, key) {
        assert(instances[at].0 != key);
    }
}

/// The windows of a map context stay in order: after a message, no two
/// windows carry the same key and all windows are open.
pub proof fn law_map_message_keeps_order(context: MapView, message: MessageView)
    requires
        context.wf(),
    ensures
        context.on_message(message).0.wf(),
{
    let key = key_of(context.key_field, message);
    let before = context.instances;
    let after = context.on_message(message).0.instances;
    lemma_position(before, key);
    match position(before, key) {
        Some(at) => {
            assert forall|i: int, j: int| 0 <= i < j < after.len() implies (#[trigger] after[i]).0
                != (#[trigger] after[j]).0 by {
                if after.len() == before.len() {
                    assert(after[i].0 == before[i].0);
                    assert(after[j].0 == before[j].0);
                } else {
                    let bi = if i < at { i } else { i + 1 };
                    let bj = if j < at { j } else { j + 1 };
                    assert(after[i] == before[bi]);
                    assert(after[j] == before[bj]);
                }
            }
            assert forall|i: int| 0 <= i < after.len() implies (#[trigger] after[i]).1.is_open by {
                if after.len() == before.len() {
                    if i != at {
                        assert(after[i] == before[i]);
                    }
                } else {
                    let bi = if i < at { i } else { i + 1 };
                    assert(after[i] == before[bi]);
                }
            }
        },
        None => {
            assert forall|i: int, j: int| 0 <= i < j < after.len() implies (#[trigger] after[i]).0
                != (#[trigger] after[j]).0 by {
                if j < before.len() {
                    assert(after[i] == before[i]);
                    assert(after[j] == before[j]);
                } else {
                    assert(after[i] == before[i]);
                    assert(before[i].0 != key);
                }
            }
            assert forall|i: int| 0 <= i < after.len() implies (#[trigger] after[i]).1.is_open by {
                if i < before.len() {
                    assert(after[i] == before[i]);
                }
            }
        },
    }
}

/// The windows of a map context know nothing of each other: a message
/// changes the window of its own key as if that window stood alone, and
/// leaves the window of every other key as it is.
pub proof fn law_map_message_is_per_key(context: MapView, message: MessageView, other: Seq<char>)
    requires
        context.wf(),
    ensures
        window_of(context.on_message(message).0.instances, key_of(context.key_field, message))
            == context.base.on_message(
            window_of(context.instances, key_of(context.key_field, message)),
            message,
        ).0,
        other != key_of(context.key_field, message) ==> window_of(
            context.on_message(message).0.instances,
            other,
        ) == window_of(context.instances, other),
        context.on_message(message).1 == context.base.on_message(
            window_of(context.instances, key_of(context.key_field, message)),
            message,
        ).1,
{
    let key = key_of(context.key_field, message);
    let before = context.instances;
    let after = context.on_message(message).0.instances;
    let served = context.base.on_message(window_of(before, key), message);
    lemma_position(before, key);
    lemma_position(before, other);
    match position(before, key) {
        Some(at) => {
            if served.0.is_open {
                // The window is replaced in its place.
                assert forall|j: int| 0 <= j < at implies (#[trigger] after[j]).0 != key by {
                    assert(after[j] == before[j]);
                }
                lemma_position_is(after, key, at);
                if other != key {
                    match position(before, other) {
                        Some(place) => {
                            assert(after[place] == before[place]);
                            assert forall|j: int| 0 <= j < place implies (#[trigger] after[j]).0
                                != other by {
                                if j != at {
                                    assert(after[j] == before[j]);
                                }
                            }
                            lemma_position_is(after, other, place);
                        },
                        None => {
                            assert forall|j: int| 0 <= j < after.len() implies (#[trigger] after[j]).0
                                != other by {
                                if j != at {
                                    assert(after[j] == before[j]);
                                }
                            }
                            lemma_position_none(after, other);
                        },
                    }
                }
            } else {
                // The window leaves; no other window carries its key.
                assert forall|j: int| 0 <= j < after.len() implies (#[trigger] after[j]).0 != key by {
                    let bj = if j < at { j } else { j + 1 };
                    assert(after[j] == before[bj]);
                    if bj < at {
                        assert(before[bj].0 != before[at].0);
                    } else {
                        assert(before[at].0 != before[bj].0);
                    }
                }
                lemma_position_none(after, key);
                if other != key {
                    match position(before, other) {
                        Some(place) => {
                            let moved = if place < at { place } else { place - 1 };
                            assert(after[moved] == before[place]);
                            assert forall|j: int| 0 <= j < moved implies (#[trigger] after[j]).0
                                != other by {
                                let bj = if j < at { j } else { j + 1 };
                                assert(after[j] == before[bj]);
                                if bj < place {
                                    assert(before[bj].0 != other);
                                } else {
                                    assert(bj == at);
                                }
                            }
                            lemma_position_is(after, other, moved);
                        },
                        None => {
                            assert forall|j: int| 0 <= j < after.len() implies (#[trigger] after[j]).0
                                != other by {
                                let bj = if j < at { j } else { j + 1 };
                                assert(after[j] == before[bj]);
                                assert(before[bj].0 != other);
                            }
                            lemma_position_none(after, other);
                        },
                    }
                }
            }
        },
        None => {
            if served.0.is_open {
                assert forall|j: int| 0 <= j < before.len() implies (#[trigger] after[j]).0 != key by {
                    assert(after[j] == before[j]);
                    assert(before[j].0 != key);
                }
                lemma_position_is(after, key, before.len() as int);
                if other != key {
                    match position(before, other) {
                        Some(place) => {
                            assert(after[place] == before[place]);
                            assert forall|j: int| 0 <= j < place implies (#[trigger] after[j]).0
                                != other by {
                                assert(after[j] == before[j]);
                            }
                            lemma_position_is(after, other, place);
                        },
                        None => {
                            assert forall|j: int| 0 <= j < after.len() implies (#[trigger] after[j]).0
                                != other by {
                                if j < before.len() {
                                    assert(after[j] == before[j]);
                                    assert(before[j].0 != other);
                                }
                            }
                            lemma_position_none(after, other);
                        },
                    }
                }
            }
        },
    }
}

/// What a tick makes of the windows of a map context, window for window:
/// the windows stay in order, no key appears that was not there, and the
/// window of every key is what the tick makes of that window alone.
pub proof fn law_map_timer_is_per_key(context: MapView, delta: nat, key: Seq<char>)
    requires
        context.wf(),
    ensures
        context.on_timer(delta).0.wf(),
        position(context.instances, key) is None ==> position(
            context.on_timer(delta).0.instances,
            key,
        ) is None,
        window_of(context.on_timer(delta).0.instances, key) == context.base.on_timer(
            window_of(context.instances, key),
            delta,
        ).0,
    decreases context.instances.len(),
{
    let before = context.instances;
    let after = timed(context.base, before, delta).0;
    lemma_position(before, key);
    if before.len() > 0 {
        let front = MapView { instances: before.drop_last(), ..context };
        let last = before.last();
        assert(front.wf()) by {
            assert forall|i: int, j: int| 0 <= i < j < front.instances.len() implies (
            #[trigger] front.instances[i]).0 != (#[trigger] front.instances[j]).0 by {
                assert(front.instances[i] == before[i]);
                assert(front.instances[j] == before[j]);
            }
            assert forall|i: int| 0 <= i < front.instances.len() implies (
            #[trigger] front.instances[i]).1.is_open by {
                assert(front.instances[i] == before[i]);
            }
        }
        law_map_timer_is_per_key(front, delta, key);
        law_map_timer_is_per_key(front, delta, last.0);
        let kept = timed(context.base, front.instances, delta).0;
        let served = context.base.on_timer(last.1, delta);
        // The key of the last window is not among the others.
        assert forall|j: int| 0 <= j < front.instances.len() implies (
        #[trigger] front.instances[j]).0 != last.0 by {
            assert(front.instances[j] == before[j]);
            assert(before[j].0 != before[before.len() - 1].0);
        }
        lemma_position_none(front.instances, last.0);
        lemma_position(kept, last.0);
        lemma_position(kept, key);
        lemma_position(front.instances, key);
        assert(last.1.is_open) by {
            assert(before[before.len() - 1].1.is_open);
        }
        if served.0.is_open {
            assert(after == kept.push((last.0, served.0)));
            assert(after.drop_last() =~= kept);
            assert(context.on_timer(delta).0.wf()) by {
                assert forall|i: int, j: int| 0 <= i < j < after.len() implies (
                #[trigger] after[i]).0 != (#[trigger] after[j]).0 by {
                    assert(after[i] == kept[i]);
                    if j < kept.len() {
                        assert(after[j] == kept[j]);
                    } else {
                        assert(kept[i].0 != last.0);
                    }
                }
                assert forall|i: int| 0 <= i < after.len() implies (#[trigger] after[i]).1.is_open by {
                    if i < kept.len() {
                        assert(after[i] == kept[i]);
                    }
                }
            }
        } else {
            assert(after == kept);
        }
        if key == last.0 {
            assert(position(before, key) == Some(before.len() - 1));
        } else {
            assert(position(before, key) == position(front.instances, key));
            if position(front.instances, key) is Some {
                assert(before[position(front.instances, key)->0] == front.instances[position(
                    front.instances,
                    key,
                )->0]);
            }
        }
    }
}

} // verus!
