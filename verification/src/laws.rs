//! What holds of every handle, whatever events reach it and in whatever
//! order. Each law is proved of the model that the contracts of the handle
//! are stated over.

use crate::model::{
    ends, may_follow, received, spawns, ActionModel, CauseModel, ClientModel, ErrorModel, Input,
};
use vstd::prelude::*;

verus! {

/// No event takes a well-formed handle to one that is not.
pub proof fn law_step_keeps_well_formed<E>(c: ClientModel, input: Input<E>)
    requires
        c.wf(),
    ensures
        c.step(input).wf(),
{
}

/// No run of events takes a well-formed handle to one that is not.
pub proof fn law_run_keeps_well_formed<E>(c: ClientModel, trace: Seq<Input<E>>)
    requires
        c.wf(),
    ensures
        c.run(trace).wf(),
    decreases trace.len(),
{
    if trace.len() > 0 {
        law_step_keeps_well_formed(c, trace[0]);
        law_run_keeps_well_formed(c.step(trace[0]), trace.drop_first());
    }
}

/// A handle moves through its phases in one direction: connecting, then
/// connected, then subscribing and unsubscribing in turn, then terminated.
pub proof fn law_phases_go_forward<E>(c: ClientModel, input: Input<E>)
    ensures
        may_follow(c.phase, c.step(input).phase),
{
}

/// An open stream yields every item that it receives, each once and in the
/// order of receipt, for as long as nothing ends it: whatever else happens on
/// the connection in between, to this stream or to others.
pub proof fn law_open_stream_yields_what_it_receives<E>(
    c: ClientModel,
    trace: Seq<Input<E>>,
    stream: int,
)
    requires
        c.is_open(stream),
        forall|i: int|
            0 <= i < trace.len() ==> !ends(#[trigger] trace[i], stream, c.streams[stream].filter),
    ensures
        c.yields(trace, stream) == received(trace, stream),
        c.run(trace).is_open(stream),
        c.run(trace).streams[stream].filter == c.streams[stream].filter,
    decreases trace.len(),
{
    if trace.len() > 0 {
        let after = c.step(trace[0]);
        let rest = trace.drop_first();
        assert(!ends(trace[0], stream, c.streams[stream].filter));
        assert(after.is_open(stream));
        assert(after.streams[stream].filter == c.streams[stream].filter);
        assert forall|i: int| 0 <= i < rest.len() implies !ends(
            #[trigger] rest[i],
            stream,
            after.streams[stream].filter,
        ) by {
            assert(rest[i] == trace[i + 1]);
        }
        law_open_stream_yields_what_it_receives(after, rest, stream);
    }
}

/// A stream that has closed stays closed and yields nothing more, whatever
/// is received for it: it does not start again.
pub proof fn law_closed_stream_stays_silent<E>(c: ClientModel, trace: Seq<Input<E>>, stream: int)
    requires
        c.has(stream),
        c.streams[stream].state is Closed,
    ensures
        c.yields(trace, stream) == Seq::<E>::empty(),
        c.run(trace).has(stream),
        c.run(trace).streams[stream] == c.streams[stream],
    decreases trace.len(),
{
    if trace.len() > 0 {
        let after = c.step(trace[0]);
        assert(after.has(stream));
        assert(after.streams[stream] =~= c.streams[stream]);
        law_closed_stream_stays_silent(after, trace.drop_first(), stream);
    }
}

/// Cancelling a filter closes the streams of that filter, which yield nothing
/// from then on, and touches nothing else: the handle stays live, and an open
/// stream of another filter goes on yielding all that it receives.
pub proof fn law_unsubscribe_stops_its_filter_only<E>(
    c: ClientModel,
    filter: Seq<char>,
    trace: Seq<Input<E>>,
    stream: int,
)
    requires
        c.live(),
        c.has(stream),
    ensures
        c.unsubscribe(filter).0.live(),
        c.unsubscribe(filter).0.streams.len() == c.streams.len(),
        c.streams[stream].filter == filter ==> c.unsubscribe(filter).0.yields(trace, stream)
            == Seq::<E>::empty(),
        c.streams[stream].filter != filter ==> c.unsubscribe(filter).0.streams[stream]
            == c.streams[stream],
        c.streams[stream].filter != filter && c.is_open(stream) && (forall|i: int|
            0 <= i < trace.len() ==> !ends(#[trigger] trace[i], stream, c.streams[stream].filter))
            ==> c.unsubscribe(filter).0.yields(trace, stream) == received(trace, stream),
{
    let after = c.unsubscribe(filter).0;
    if c.streams[stream].filter == filter {
        law_closed_stream_stays_silent(after, trace, stream);
    } else if c.is_open(stream) && (forall|i: int|
        0 <= i < trace.len() ==> !ends(#[trigger] trace[i], stream, c.streams[stream].filter)) {
        law_open_stream_yields_what_it_receives(after, trace, stream);
    }
}

/// A terminated handle refuses every request at once, with the error of the
/// request, and is left as it was.
pub proof fn law_terminated_handle_refuses(c: ClientModel, filter: Seq<char>)
    requires
        c.phase is Terminated,
    ensures
        c.subscribe(filter).0 == c,
        c.subscribe(filter).1 == Err::<ActionModel, ErrorModel>(
            ErrorModel::Subscription(CauseModel::DriverTerminated),
        ),
        c.unsubscribe(filter).0 == c,
        c.unsubscribe(filter).1 == Err::<ActionModel, ErrorModel>(
            ErrorModel::Unsubscribe(CauseModel::DriverTerminated),
        ),
{
}

/// Termination is final: whatever reaches a terminated handle, it stays as it
/// is, asks for nothing, and none of its streams yields anything.
pub proof fn law_terminated_is_final<E>(c: ClientModel, trace: Seq<Input<E>>, stream: int)
    requires
        c.wf(),
        c.phase is Terminated,
    ensures
        c.run(trace) == c,
        c.actions(trace) == Seq::<ActionModel>::empty(),
        c.yields(trace, stream) == Seq::<E>::empty(),
    decreases trace.len(),
{
    if trace.len() > 0 {
        let after = c.step(trace[0]);
        assert(after =~= c) by {
            assert(after.streams =~= c.streams);
        }
        law_terminated_is_final(c, trace.drop_first(), stream);
    }
}

/// A connection that cannot be made ends the handle with a connection error,
/// and nothing is left running: no driver task was asked for, and none will
/// be, nor any request.
pub proof fn law_failed_connect_leaves_nothing_running<E>(
    endpoint: Seq<char>,
    cause: Seq<char>,
    trace: Seq<Input<E>>,
)
    ensures
        ClientModel::init(endpoint).connect_failed(cause).1 == Some(ErrorModel::Connection(cause)),
        ClientModel::init(endpoint).connect_failed(cause).0.phase is Terminated,
        ClientModel::init(endpoint).connect_failed(cause).0.actions(trace) == Seq::<ActionModel>::empty(),
{
    let failed = ClientModel::init(endpoint).connect_failed(cause).0;
    law_terminated_is_final(failed, trace, 0);
}

/// A handle has at most one driver task: over any run of events it asks for
/// one at most once, and never once it has left the connecting phase.
pub proof fn law_one_driver_at_most<E>(c: ClientModel, trace: Seq<Input<E>>)
    ensures
        spawns(c.actions(trace)) <= 1,
        !(c.phase is Connecting) ==> spawns(c.actions(trace)) == 0,
    decreases trace.len(),
{
    if trace.len() > 0 {
        let after = c.step(trace[0]);
        let rest = after.actions(trace.drop_first());
        law_one_driver_at_most(after, trace.drop_first());
        law_phases_go_forward(c, trace[0]);
        match c.action_on(trace[0]) {
            Some(action) => {
                assert(c.actions(trace) == seq![action] + rest);
                assert((seq![action] + rest).drop_first() =~= rest);
                assert(action is SpawnDriver ==> c.phase is Connecting && after.phase is Connected);
            },
            None => {
                assert(c.actions(trace) =~= rest);
            },
        }
    }
}

} // verus!
