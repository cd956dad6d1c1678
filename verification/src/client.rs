//! The handle: the executable state machine behind a client.

use crate::error::{option_view, result_view, Cause, ClientError, InvalidFilter};
use crate::filter::{canonical_filter, parsed_view, Filter};
use crate::model::{
    close_all, close_matching, ActionModel, CauseModel, ClientModel, ErrorModel, Phase, StreamModel,
    StreamState,
};
use vstd::prelude::*;

verus! {

/// The filter expression for vote events.
pub const VOTE_FILTER: &'static str = "tm.event='Vote'";

/// What the handle asks its surroundings to do.
#[derive(Debug, PartialEq, Eq)]
pub enum Action {
    /// Open the connection to `endpoint`, and report whether it stands.
    Connect { endpoint: String },
    /// Start the driver of the connection as a task of its own.
    SpawnDriver,
    /// Send a subscribe request for `filter`, and report its answer under
    /// `stream`; what the subscription then receives is pulled under `stream`.
    Subscribe { stream: usize, filter: Filter },
    /// Send an unsubscribe request for `filter`.
    Unsubscribe { filter: Filter },
}

impl View for Action {
    type V = ActionModel;

    open spec fn view(&self) -> ActionModel {
        match *self {
            Action::Connect { endpoint } => ActionModel::Connect { endpoint: endpoint@ },
            Action::SpawnDriver => ActionModel::SpawnDriver,
            Action::Subscribe { stream, filter } => ActionModel::Subscribe {
                stream: stream as int,
                filter: filter@,
            },
            Action::Unsubscribe { filter } => ActionModel::Unsubscribe { filter: filter@ },
        }
    }
}

struct Stream {
    filter: String,
    state: StreamState,
}

impl View for Stream {
    type V = StreamModel;

    closed spec fn view(&self) -> StreamModel {
        StreamModel { filter: self.filter@, state: self.state }
    }
}

spec fn stream_models(streams: Seq<Stream>) -> Seq<StreamModel> {
    Seq::new(streams.len(), |i: int| streams[i]@)
}

/// The handle of one connection.
pub struct WsClient {
    endpoint: String,
    phase: Phase,
    streams: Vec<Stream>,
}

impl View for WsClient {
    type V = ClientModel;

    closed spec fn view(&self) -> ClientModel {
        ClientModel {
            endpoint: self.endpoint@,
            phase: self.phase,
            streams: stream_models(self.streams@),
        }
    }
}

impl WsClient {
    #[verifier::type_invariant]
    spec fn well_formed(self) -> bool {
        self@.wf()
    }

    /// A handle for the endpoint at `url`. It is connecting, and asks for the
    /// connection.
    pub fn new(url: &str) -> (r: (WsClient, Action))
        ensures
            r.0@ == ClientModel::init(url@),
            r.1@ == (ActionModel::Connect { endpoint: url@ }),
    {
        let client = WsClient {
            endpoint: url.to_owned(),
            phase: Phase::Connecting,
            streams: Vec::new(),
        };
        assert(client@ =~= ClientModel::init(url@));
        (client, Action::Connect { endpoint: url.to_owned() })
    }

    fn take_streams(&mut self) -> (streams: Vec<Stream>)
        ensures
            final(self).endpoint == old(self).endpoint,
            final(self).phase == old(self).phase,
            final(self).streams@.len() == 0,
            streams == old(self).streams,
    {
        let mut streams: Vec<Stream> = Vec::new();
        core::mem::swap(&mut self.streams, &mut streams);
        streams
    }

    /// Reports that the connection stands.
    pub fn connected(&mut self) -> (r: Option<Action>)
        ensures
            (final(self)@, option_view(r)) == old(self)@.connected(),
            final(self)@.wf(),
    {
        proof {
            use_type_invariant(&*self);
        }
        match self.phase {
            Phase::Connecting => {
                self.phase = Phase::Connected;
                Some(Action::SpawnDriver)
            },
            _ => None,
        }
    }

    /// Reports that the connection could not be made, and why.
    pub fn connect_failed(&mut self, cause: String) -> (r: Option<ClientError>)
        ensures
            (final(self)@, option_view(r)) == old(self)@.connect_failed(cause@),
            final(self)@.wf(),
    {
        proof {
            use_type_invariant(&*self);
        }
        match self.phase {
            Phase::Connecting => {
                self.phase = Phase::Terminated;
                Some(ClientError::Connection(cause))
            },
            _ => None,
        }
    }

    /// Asks for a stream of the events that match a filter, given what
    /// [`Filter::parse`] made of the filter's expression.
    pub fn subscribe(&mut self, parsed: Result<Filter, InvalidFilter>) -> (r: Result<
        Action,
        ClientError,
    >)
        ensures
            (final(self)@, result_view(r)) == old(self)@.subscribe_parsed(parsed_view(parsed)),
            final(self)@.wf(),
    {
        proof {
            use_type_invariant(&*self);
        }
        let filter = match parsed {
            Ok(filter) => filter,
            Err(_) => {
                return Err(ClientError::Subscription(Cause::InvalidFilter));
            },
        };
        match self.phase {
            Phase::Connecting => Err(ClientError::Subscription(Cause::NotConnected)),
            Phase::Terminated => Err(ClientError::Subscription(Cause::DriverTerminated)),
            _ => {
                let mut streams = self.take_streams();
                let stream = streams.len();
                streams.push(
                    Stream { filter: filter.text().to_owned(), state: StreamState::Pending },
                );
                assert(stream_models(streams@) =~= old(self)@.streams.push(
                    StreamModel { filter: filter@, state: StreamState::Pending },
                ));
                self.phase = Phase::Subscribing;
                self.streams = streams;
                Ok(Action::Subscribe { stream, filter })
            },
        }
    }

    /// Asks for a stream of vote events.
    pub fn subscribe_votes(&mut self) -> (r: Result<Action, ClientError>)
        ensures
            (final(self)@, result_view(r)) == old(self)@.subscribe_parsed(
                canonical_filter(VOTE_FILTER@),
            ),
            old(self)@.phase is Terminated ==> (r matches Err(ClientError::Subscription(_)))
                && final(self)@ == old(self)@,
            final(self)@.wf(),
    {
        proof {
            use_type_invariant(&*self);
        }
        self.subscribe(Filter::parse(VOTE_FILTER))
    }

    /// Reports the answer to the subscribe request behind `stream`.
    pub fn subscribed(&mut self, stream: usize, outcome: Result<(), String>) -> (r: Result<
        (),
        ClientError,
    >)
        ensures
            (final(self)@, result_view(r)) == old(self)@.subscribed(
                stream as int,
                match outcome {
                    Ok(_) => Ok(()),
                    Err(cause) => Err(cause@),
                },
            ),
            final(self)@.wf(),
    {
        proof {
            use_type_invariant(&*self);
        }
        let pending = stream < self.streams.len() && match self.streams[stream].state {
            StreamState::Pending => true,
            _ => false,
        };
        let state = match outcome {
            Ok(_) => StreamState::Open,
            Err(_) => StreamState::Closed,
        };
        if pending {
            let mut streams = self.take_streams();
            streams[stream].state = state;
            assert(stream_models(streams@) =~= old(self)@.with_state(stream as int, state).streams);
            self.streams = streams;
        }
        match outcome {
            Ok(_) => Ok(()),
            Err(cause) => Err(ClientError::Subscription(Cause::Rejected(cause))),
        }
    }

    /// Hands over what the transport of `stream` gave: its next item, or
    /// `None` where it has ended. Returns what the stream yields to its
    /// consumer; `None` says that the stream is over.
    pub fn next<E>(&mut self, stream: usize, pulled: Option<E>) -> (yielded: Option<E>)
        ensures
            (final(self)@, yielded) == old(self)@.next(stream as int, pulled),
            final(self)@.wf(),
    {
        proof {
            use_type_invariant(&*self);
        }
        let open = stream < self.streams.len() && match self.streams[stream].state {
            StreamState::Open => true,
            _ => false,
        };
        if open && pulled.is_some() {
            pulled
        } else {
            self.discard(stream);
            None
        }
    }

    /// Lets go of `stream`: it yields nothing more.
    pub fn discard(&mut self, stream: usize)
        ensures
            final(self)@ == old(self)@.discard(stream as int),
            final(self)@.wf(),
    {
        proof {
            use_type_invariant(&*self);
        }
        if stream < self.streams.len() {
            let mut streams = self.take_streams();
            streams[stream].state = StreamState::Closed;
            assert(stream_models(streams@) =~= old(self)@.with_state(
                stream as int,
                StreamState::Closed,
            ).streams);
            self.streams = streams;
        }
    }

    /// Cancels a filter, given what [`Filter::parse`] made of the filter's
    /// expression.
    pub fn unsubscribe(&mut self, parsed: Result<Filter, InvalidFilter>) -> (r: Result<
        Action,
        ClientError,
    >)
        ensures
            (final(self)@, result_view(r)) == old(self)@.unsubscribe_parsed(parsed_view(parsed)),
            final(self)@.wf(),
    {
        proof {
            use_type_invariant(&*self);
        }
        let filter = match parsed {
            Ok(filter) => filter,
            Err(_) => {
                return Err(ClientError::Unsubscribe(Cause::InvalidFilter));
            },
        };
        match self.phase {
            Phase::Connecting => Err(ClientError::Unsubscribe(Cause::NotConnected)),
            Phase::Terminated => Err(ClientError::Unsubscribe(Cause::DriverTerminated)),
            _ => {
                let mut streams = self.take_streams();
                let ghost before = stream_models(streams@);
                let mut at: usize = 0;
                while at < streams.len()
                    invariant
                        at <= streams.len(),
                        streams.len() == before.len(),
                        forall|i: int|
                            0 <= i < at ==> (#[trigger] streams[i])@ == close_matching(
                                before,
                                filter@,
                            )[i],
                        forall|i: int| at <= i < streams.len() ==> (#[trigger] streams[i])@ == before[i],
                    decreases streams.len() - at,
                {
                    if filter.has_text(&streams[at].filter) {
                        streams[at].state = StreamState::Closed;
                    }
                    at += 1;
                }
                assert(stream_models(streams@) =~= close_matching(before, filter@));
                self.phase = Phase::Unsubscribing;
                self.streams = streams;
                Ok(Action::Unsubscribe { filter })
            },
        }
    }

    /// Cancels the stream of vote events.
    pub fn unsubscribe_votes(&mut self) -> (r: Result<Action, ClientError>)
        ensures
            (final(self)@, result_view(r)) == old(self)@.unsubscribe_parsed(
                canonical_filter(VOTE_FILTER@),
            ),
            final(self)@.wf(),
    {
        proof {
            use_type_invariant(&*self);
        }
        self.unsubscribe(Filter::parse(VOTE_FILTER))
    }

    /// Turns the answer to an unsubscribe request into the result of the call
    /// that asked for it: a refusal becomes an unsubscribe error that holds
    /// the refusal.
    pub fn unsubscribed(outcome: Result<(), String>) -> (r: Result<(), ClientError>)
        ensures
            match outcome {
                Ok(_) => r is Ok,
                Err(cause) => result_view(r) == Err::<(), ErrorModel>(
                    ErrorModel::Unsubscribe(CauseModel::Rejected(cause@)),
                ),
            },
    {
        match outcome {
            Ok(_) => Ok(()),
            Err(cause) => Err(ClientError::Unsubscribe(Cause::Rejected(cause))),
        }
    }

    /// Reports that the driver task has ended.
    pub fn driver_stopped(&mut self)
        ensures
            final(self)@ == old(self)@.driver_stopped(),
            final(self)@.wf(),
    {
        proof {
            use_type_invariant(&*self);
        }
        match self.phase {
            Phase::Connecting | Phase::Terminated => {},
            _ => {
                let mut streams = self.take_streams();
                let ghost before = stream_models(streams@);
                let mut at: usize = 0;
                while at < streams.len()
                    invariant
                        at <= streams.len(),
                        streams.len() == before.len(),
                        forall|i: int|
                            0 <= i < at ==> (#[trigger] streams[i])@ == close_all(before)[i],
                        forall|i: int| at <= i < streams.len() ==> (#[trigger] streams[i])@ == before[i],
                    decreases streams.len() - at,
                {
                    streams[at].state = StreamState::Closed;
                    at += 1;
                }
                assert(stream_models(streams@) =~= close_all(before));
                self.streams = streams;
                self.phase = Phase::Terminated;
            },
        }
    }

    /// The endpoint that the handle connects to.
    pub fn endpoint(&self) -> (endpoint: &str)
        ensures
            endpoint@ == self@.endpoint,
    {
        self.endpoint.as_str()
    }

    /// Where the handle stands in its life.
    pub fn phase(&self) -> (phase: Phase)
        ensures
            phase == self@.phase,
    {
        self.phase
    }

    /// How many streams were asked of the handle so far.
    pub fn stream_count(&self) -> (count: usize)
        ensures
            count == self@.streams.len(),
    {
        self.streams.len()
    }

    /// Where `stream` stands, if the handle has such a stream.
    pub fn stream_state(&self, stream: usize) -> (state: Option<StreamState>)
        ensures
            state == if self@.has(stream as int) {
                Some(self@.streams[stream as int].state)
            } else {
                None
            },
    {
        if stream < self.streams.len() {
            Some(self.streams[stream].state)
        } else {
            None
        }
    }
}

} // verus!
