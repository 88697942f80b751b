//! What holds of every sequence of calls, stated over the model and proved.

use vstd::prelude::*;
use crate::error::NotConnectedError;
use crate::model::{ConnectionHandle, Event, Phase, StateView};
use crate::statement::{wrapped_statement, TEMPLATE_PREFIX, TEMPLATE_SUFFIX};

verus! {

/// Every event leaves a well-formed state well-formed.
pub proof fn law_step_preserves_wf<T>(state: StateView<T>, event: Event<T>)
    requires
        state.wf(),
    ensures
        state.step(event).wf(),
{
}

/// Every state that a sequence of events reaches from a well-formed state is
/// well-formed. In particular no live handle is ever stored while a new one
/// is being established: `connect` has disposed of it before.
pub proof fn law_run_preserves_wf<T>(state: StateView<T>, events: Seq<Event<T>>)
    requires
        state.wf(),
    ensures
        state.run(events).wf(),
        state.run(events).phase == Phase::Opening ==> !state.run(events).connected(),
    decreases events.len(),
{
    if events.len() > 0 {
        law_step_preserves_wf(state, events[0]);
        law_run_preserves_wf(state.step(events[0]), events.drop_first());
    }
}

/// After a `connect` call has returned its acknowledgment, every query
/// observes the handle of that very call, however many calls are submitted
/// and however the queries end, until a further `connect` call has disposed
/// of that handle.
pub proof fn law_queries_observe_the_connected_handle<T>(
    state: StateView<T>,
    transport: T,
    events: Seq<Event<T>>,
)
    requires
        state.phase == Phase::Opening,
        forall|i: int|
            0 <= i < events.len() ==> !(events[i] is DisposalFinished) && !(events[i]
                is OpenFinished),
    ensures
        state.open_finished(Some(transport)).run(events).current() == Ok::<
            _,
            NotConnectedError,
        >(ConnectionHandle::fresh(transport)),
{
    law_slot_stays_between_connects(state.open_finished(Some(transport)), events);
}

/// The slot stays as it is as long as no `connect` call reports the end of
/// a disposal or of an opening.
pub proof fn law_slot_stays_between_connects<T>(state: StateView<T>, events: Seq<Event<T>>)
    requires
        forall|i: int|
            0 <= i < events.len() ==> !(events[i] is DisposalFinished) && !(events[i]
                is OpenFinished),
    ensures
        state.run(events).slot == state.slot,
    decreases events.len(),
{
    if events.len() > 0 {
        let rest = events.drop_first();
        assert forall|i: int| 0 <= i < rest.len() implies !(rest[i] is DisposalFinished) && !(
        rest[i] is OpenFinished) by {
            assert(rest[i] == events[i + 1]);
        }
        law_only_connect_changes_the_slot(state, events[0]);
        law_slot_stays_between_connects(state.step(events[0]), rest);
    }
}

/// Before any `connect` call has succeeded the system is disconnected: from
/// a disconnected state, no sequence of events that delivers no transport
/// reaches a connected one, so every query submitted on the way is refused.
pub proof fn law_disconnected_until_a_connect_succeeds<T>(
    state: StateView<T>,
    events: Seq<Event<T>>,
)
    requires
        state.wf(),
        !state.connected(),
        forall|i: int| 0 <= i < events.len() ==> !events[i].delivers_transport(),
    ensures
        !state.run(events).connected(),
        state.run(events).current() is Err,
        state.run(events).execute_query().phase != Phase::Querying,
    decreases events.len(),
{
    if events.len() > 0 {
        let rest = events.drop_first();
        assert(!events[0].delivers_transport());
        assert forall|i: int| 0 <= i < rest.len() implies !rest[i].delivers_transport() by {
            assert(rest[i] == events[i + 1]);
        }
        law_step_preserves_wf(state, events[0]);
        law_disconnected_until_a_connect_succeeds(state.step(events[0]), rest);
    }
}

/// A `connect` call that finds a live handle disposes of it before it opens
/// anything, and a new handle only ever replaces a slot that holds no live
/// one. A `connect` call submitted while a query is in flight is told to
/// wait, and disposes of the handle in use once that query has ended.
pub proof fn law_connect_disposes_before_it_opens<T>(state: StateView<T>, transport: T)
    requires
        state.wf(),
    ensures
        state.phase == Phase::Idle && state.connected() ==> state.connect().phase
            == Phase::Disposing,
        state.open_finished(Some(transport)).slot != state.slot ==> !state.connected(),
        state.phase == Phase::Querying ==> state.connect() == state
            && state.execution_finished().connect().phase == Phase::Disposing,
{
}

/// Only the completion of a `connect` call closes or replaces the handle:
/// an event that changes the slot reports the end of a disposal or of an
/// opening, and arrives while a `connect` call holds the scope.
pub proof fn law_only_connect_changes_the_slot<T>(state: StateView<T>, event: Event<T>)
    ensures
        state.step(event).slot != state.slot ==> {
            ||| event is DisposalFinished && state.phase == Phase::Disposing
            ||| event is OpenFinished && state.phase == Phase::Opening
        },
{
}

/// While a call holds the scope, every other call that is submitted is told
/// to wait and changes nothing.
pub proof fn law_scope_is_exclusive<T>(state: StateView<T>)
    requires
        state.phase != Phase::Idle,
    ensures
        state.connect() == state,
        state.execute_query() == state,
{
}

/// A call in flight is not disturbed: until the work it waits for has
/// ended, nothing that happens changes the state. So no second statement
/// runs on the session beside a query, the handle that a query uses stays
/// the current one, and the calls take effect one after the other.
pub proof fn law_call_in_flight_is_undisturbed<T>(state: StateView<T>, events: Seq<Event<T>>)
    requires
        state.phase != Phase::Idle,
        forall|i: int| 0 <= i < events.len() ==> !events[i].completes(state.phase),
    ensures
        state.run(events) == state,
    decreases events.len(),
{
    if events.len() > 0 {
        let rest = events.drop_first();
        assert(!events[0].completes(state.phase));
        assert forall|i: int| 0 <= i < rest.len() implies !rest[i].completes(state.phase) by {
            assert(rest[i] == events[i + 1]);
        }
        assert(state.step(events[0]) == state);
        law_call_in_flight_is_undisturbed(state, rest);
    }
}

/// The caller's SQL stands in the wrapped statement unchanged, between the
/// two halves of the template: it can be read back character for character,
/// and two statements are equal only if the SQL they wrap is.
pub proof fn law_wrapping_is_verbatim(sql: Seq<char>, other: Seq<char>)
    ensures
        wrapped_statement(sql).len() == TEMPLATE_PREFIX@.len() + sql.len()
            + TEMPLATE_SUFFIX@.len(),
        wrapped_statement(sql).subrange(
            TEMPLATE_PREFIX@.len() as int,
            (TEMPLATE_PREFIX@.len() + sql.len()) as int,
        ) == sql,
        wrapped_statement(sql) == wrapped_statement(other) ==> sql == other,
{
    let start = TEMPLATE_PREFIX@.len() as int;
    assert(wrapped_statement(sql).subrange(start, start + sql.len()) =~= sql);
    assert(wrapped_statement(other).subrange(start, start + other.len()) =~= other);
    if wrapped_statement(sql) == wrapped_statement(other) {
        assert(wrapped_statement(other).len() == TEMPLATE_PREFIX@.len() + other.len()
            + TEMPLATE_SUFFIX@.len());
        assert(sql.len() == other.len());
    }
}

} // verus!
