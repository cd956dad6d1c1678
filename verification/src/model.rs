//! The mathematical model of a client: its state, and what each event makes
//! of it. The contracts of the executable handle are stated over this model.

use vstd::prelude::*;

verus! {

/// Where a handle stands in its life.
///
/// A handle starts out `Connecting`. Once the connection stands it is
/// `Connected`, and from its first request on it is `Subscribing` or
/// `Unsubscribing`, whichever it asked for last. It is `Terminated` when the
/// connection could not be made or the driver task has ended, and stays so.
#[derive(Debug, Clone, Copy, PartialEq, Eq, Structural)]
pub enum Phase {
    Connecting,
    Connected,
    Subscribing,
    Unsubscribing,
    Terminated,
}

/// Where one event stream stands.
///
/// A stream is `Pending` until the subscribe request behind it is answered,
/// `Open` while it yields events, and `Closed` for good afterwards.
#[derive(Debug, Clone, Copy, PartialEq, Eq, Structural)]
pub enum StreamState {
    Pending,
    Open,
    Closed,
}

/// One event stream: the canonical text of its filter, and its state.
#[verifier::ext_equal]
pub struct StreamModel {
    pub filter: Seq<char>,
    pub state: StreamState,
}

/// Why a request failed.
#[verifier::ext_equal]
pub enum CauseModel {
    NotConnected,
    DriverTerminated,
    InvalidFilter,
    Rejected(Seq<char>),
}

/// What a call on the handle failed with.
#[verifier::ext_equal]
pub enum ErrorModel {
    Connection(Seq<char>),
    Subscription(CauseModel),
    Unsubscribe(CauseModel),
}

impl CauseModel {
    /// The cause in words.
    pub open spec fn message(self) -> Seq<char> {
        match self {
            CauseModel::NotConnected => "not connected"@,
            CauseModel::DriverTerminated => "driver terminated"@,
            CauseModel::InvalidFilter => "invalid filter"@,
            CauseModel::Rejected(message) => message,
        }
    }
}

impl ErrorModel {
    /// The error in words. A failure to connect or to subscribe reads as its
    /// cause does; a failure to unsubscribe says so before its cause.
    pub open spec fn message(self) -> Seq<char> {
        match self {
            ErrorModel::Connection(message) => message,
            ErrorModel::Subscription(cause) => cause.message(),
            ErrorModel::Unsubscribe(cause) => "failed to unsubscribe: "@ + cause.message(),
        }
    }
}

/// What the handle asks its surroundings to do.
#[verifier::ext_equal]
pub enum ActionModel {
    Connect { endpoint: Seq<char> },
    SpawnDriver,
    Subscribe { stream: int, filter: Seq<char> },
    Unsubscribe { filter: Seq<char> },
}

/// An event in the life of a handle. `E` is what an event stream carries.
pub enum Input<E> {
    /// The connection stands.
    Connected,
    /// The connection could not be made.
    ConnectFailed(Seq<char>),
    /// A caller asks for a stream of the events that match a filter.
    Subscribe(Seq<char>),
    /// The subscribe request behind a stream was answered.
    Subscribed(int, Result<(), Seq<char>>),
    /// A stream's transport handed over its next item, or ended.
    Pulled(int, Option<E>),
    /// A consumer lets go of a stream.
    Discarded(int),
    /// A caller cancels a filter.
    Unsubscribe(Seq<char>),
    /// The driver task ended.
    DriverStopped,
}

/// A handle: the endpoint it connects to, its phase, and every stream that was
/// ever asked of it, each at the index that identifies it.
#[verifier::ext_equal]
pub struct ClientModel {
    pub endpoint: Seq<char>,
    pub phase: Phase,
    pub streams: Seq<StreamModel>,
}

/// The streams with each one closed whose filter is `filter`.
pub open spec fn close_matching(streams: Seq<StreamModel>, filter: Seq<char>) -> Seq<StreamModel> {
    Seq::new(
        streams.len(),
        |i: int|
            if streams[i].filter == filter {
                StreamModel { filter: streams[i].filter, state: StreamState::Closed }
            } else {
                streams[i]
            },
    )
}

/// The streams with every one closed.
pub open spec fn close_all(streams: Seq<StreamModel>) -> Seq<StreamModel> {
    Seq::new(
        streams.len(),
        |i: int| StreamModel { filter: streams[i].filter, state: StreamState::Closed },
    )
}

impl ClientModel {
    /// A fresh handle for `endpoint`.
    pub open spec fn init(endpoint: Seq<char>) -> ClientModel {
        ClientModel { endpoint, phase: Phase::Connecting, streams: Seq::empty() }
    }

    /// The connection stands and the driver runs.
    pub open spec fn live(self) -> bool {
        self.phase is Connected || self.phase is Subscribing || self.phase is Unsubscribing
    }

    /// What holds of every handle: before its first request it has no stream,
    /// and once terminated it has no stream that is not closed.
    pub open spec fn wf(self) -> bool {
        &&& (self.phase is Connecting || self.phase is Connected) ==> self.streams.len() == 0
        &&& self.phase is Terminated ==> forall|i: int|
            0 <= i < self.streams.len() ==> (#[trigger] self.streams[i]).state is Closed
    }

    /// `stream` identifies a stream of this handle.
    pub open spec fn has(self, stream: int) -> bool {
        0 <= stream < self.streams.len()
    }

    /// `stream` is a stream of this handle that yields events.
    pub open spec fn is_open(self, stream: int) -> bool {
        self.has(stream) && self.streams[stream].state is Open
    }

    /// The handle with the state of `stream` replaced.
    pub open spec fn with_state(self, stream: int, state: StreamState) -> ClientModel {
        ClientModel {
            streams: self.streams.update(
                stream,
                StreamModel { filter: self.streams[stream].filter, state },
            ),
            ..self
        }
    }

    /// Why the handle can issue no request now, if it cannot.
    pub open spec fn refusal(self) -> Option<CauseModel> {
        match self.phase {
            Phase::Connecting => Some(CauseModel::NotConnected),
            Phase::Terminated => Some(CauseModel::DriverTerminated),
            _ => None,
        }
    }

    /// The connection stands: a connecting handle becomes connected and asks
    /// for its driver task. Any other handle ignores the report.
    pub open spec fn connected(self) -> (ClientModel, Option<ActionModel>) {
        if self.phase is Connecting {
            (ClientModel { phase: Phase::Connected, ..self }, Some(ActionModel::SpawnDriver))
        } else {
            (self, None)
        }
    }

    /// The connection could not be made: a connecting handle terminates with a
    /// connection error. Any other handle ignores the report.
    pub open spec fn connect_failed(self, cause: Seq<char>) -> (ClientModel, Option<ErrorModel>) {
        if self.phase is Connecting {
            (ClientModel { phase: Phase::Terminated, ..self }, Some(ErrorModel::Connection(cause)))
        } else {
            (self, None)
        }
    }

    /// A caller subscribes to `filter`: a live handle adds a pending stream
    /// and asks for the subscribe request. Any other handle fails at once.
    pub open spec fn subscribe(self, filter: Seq<char>) -> (
        ClientModel,
        Result<ActionModel, ErrorModel>,
    ) {
        match self.refusal() {
            Some(cause) => (self, Err(ErrorModel::Subscription(cause))),
            None => (
                ClientModel {
                    phase: Phase::Subscribing,
                    streams: self.streams.push(
                        StreamModel { filter, state: StreamState::Pending },
                    ),
                    ..self
                },
                Ok(ActionModel::Subscribe { stream: self.streams.len() as int, filter }),
            ),
        }
    }

    /// A caller subscribes to the filter that an expression parsed to, if it
    /// parsed.
    pub open spec fn subscribe_parsed(self, parsed: Option<Seq<char>>) -> (
        ClientModel,
        Result<ActionModel, ErrorModel>,
    ) {
        match parsed {
            Some(filter) => self.subscribe(filter),
            None => (self, Err(ErrorModel::Subscription(CauseModel::InvalidFilter))),
        }
    }

    /// The subscribe request behind `stream` was answered: a pending stream
    /// opens where the request was accepted and closes where it was not. The
    /// caller gets a subscription error for a request that was not accepted.
    pub open spec fn subscribed(self, stream: int, outcome: Result<(), Seq<char>>) -> (
        ClientModel,
        Result<(), ErrorModel>,
    ) {
        let pending = self.has(stream) && self.streams[stream].state is Pending;
        match outcome {
            Ok(_) => (
                if pending {
                    self.with_state(stream, StreamState::Open)
                } else {
                    self
                },
                Ok(()),
            ),
            Err(cause) => (
                if pending {
                    self.with_state(stream, StreamState::Closed)
                } else {
                    self
                },
                Err(ErrorModel::Subscription(CauseModel::Rejected(cause))),
            ),
        }
    }

    /// A consumer lets go of `stream`: the stream closes, and nothing else
    /// changes.
    pub open spec fn discard(self, stream: int) -> ClientModel {
        if self.has(stream) {
            self.with_state(stream, StreamState::Closed)
        } else {
            self
        }
    }

    /// The transport of `stream` handed over `pulled`. An open stream yields
    /// the item that it was handed. A stream that was handed the end, or that
    /// is not open, yields nothing and is closed from then on.
    pub open spec fn next<E>(self, stream: int, pulled: Option<E>) -> (ClientModel, Option<E>) {
        if self.is_open(stream) && pulled is Some {
            (self, pulled)
        } else {
            (self.discard(stream), None)
        }
    }

    /// A caller cancels `filter`: a live handle closes every stream of that
    /// filter and asks for the unsubscribe request. Any other handle fails at
    /// once.
    pub open spec fn unsubscribe(self, filter: Seq<char>) -> (
        ClientModel,
        Result<ActionModel, ErrorModel>,
    ) {
        match self.refusal() {
            Some(cause) => (self, Err(ErrorModel::Unsubscribe(cause))),
            None => (
                ClientModel {
                    phase: Phase::Unsubscribing,
                    streams: close_matching(self.streams, filter),
                    ..self
                },
                Ok(ActionModel::Unsubscribe { filter }),
            ),
        }
    }

    /// A caller cancels the filter that an expression parsed to, if it parsed.
    pub open spec fn unsubscribe_parsed(self, parsed: Option<Seq<char>>) -> (
        ClientModel,
        Result<ActionModel, ErrorModel>,
    ) {
        match parsed {
            Some(filter) => self.unsubscribe(filter),
            None => (self, Err(ErrorModel::Unsubscribe(CauseModel::InvalidFilter))),
        }
    }

    /// The driver task ended: a live handle terminates and closes every
    /// stream. Any other handle has no driver and ignores the report.
    pub open spec fn driver_stopped(self) -> ClientModel {
        if self.live() {
            ClientModel { phase: Phase::Terminated, streams: close_all(self.streams), ..self }
        } else {
            self
        }
    }

    /// The handle after one event.
    pub open spec fn step<E>(self, input: Input<E>) -> ClientModel {
        match input {
            Input::Connected => self.connected().0,
            Input::ConnectFailed(cause) => self.connect_failed(cause).0,
            Input::Subscribe(filter) => self.subscribe(filter).0,
            Input::Subscribed(stream, outcome) => self.subscribed(stream, outcome).0,
            Input::Pulled(stream, pulled) => self.next(stream, pulled).0,
            Input::Discarded(stream) => self.discard(stream),
            Input::Unsubscribe(filter) => self.unsubscribe(filter).0,
            Input::DriverStopped => self.driver_stopped(),
        }
    }

    /// The action that the handle asks for on one event, if any.
    pub open spec fn action_on<E>(self, input: Input<E>) -> Option<ActionModel> {
        match input {
            Input::Connected => self.connected().1,
            Input::Subscribe(filter) => match self.subscribe(filter).1 {
                Ok(action) => Some(action),
                Err(_) => None,
            },
            Input::Unsubscribe(filter) => match self.unsubscribe(filter).1 {
                Ok(action) => Some(action),
                Err(_) => None,
            },
            _ => None,
        }
    }

    /// What `stream` yields on one event: the item of an event that pulls on
    /// it, as far as the stream lets it through.
    pub open spec fn yield_on<E>(self, input: Input<E>, stream: int) -> Seq<E> {
        match input {
            Input::Pulled(pulled_on, pulled) if pulled_on == stream => match self.next(
                stream,
                pulled,
            ).1 {
                Some(item) => seq![item],
                None => Seq::empty(),
            },
            _ => Seq::empty(),
        }
    }

    /// The handle after a run of events.
    pub open spec fn run<E>(self, trace: Seq<Input<E>>) -> ClientModel
        decreases trace.len(),
    {
        if trace.len() == 0 {
            self
        } else {
            self.step(trace[0]).run(trace.drop_first())
        }
    }

    /// The actions that the handle asks for over a run of events, in the
    /// order in which it asks for them.
    pub open spec fn actions<E>(self, trace: Seq<Input<E>>) -> Seq<ActionModel>
        decreases trace.len(),
    {
        if trace.len() == 0 {
            Seq::empty()
        } else {
            let head = match self.action_on(trace[0]) {
                Some(action) => seq![action],
                None => Seq::empty(),
            };
            head + self.step(trace[0]).actions(trace.drop_first())
        }
    }

    /// All that `stream` yields over a run of events, in the order in which it
    /// yields it.
    pub open spec fn yields<E>(self, trace: Seq<Input<E>>, stream: int) -> Seq<E>
        decreases trace.len(),
    {
        if trace.len() == 0 {
            Seq::empty()
        } else {
            self.yield_on(trace[0], stream) + self.step(trace[0]).yields(
                trace.drop_first(),
                stream,
            )
        }
    }
}

/// The items that a run of events hands to `stream`, in the order of their
/// receipt.
pub open spec fn received<E>(trace: Seq<Input<E>>, stream: int) -> Seq<E>
    decreases trace.len(),
{
    if trace.len() == 0 {
        Seq::empty()
    } else {
        let head = match trace[0] {
            Input::Pulled(pulled_on, Some(item)) if pulled_on == stream => seq![item],
            _ => Seq::empty(),
        };
        head + received(trace.drop_first(), stream)
    }
}

/// How often a run of actions asks for a driver task.
pub open spec fn spawns(actions: Seq<ActionModel>) -> nat
    decreases actions.len(),
{
    if actions.len() == 0 {
        0
    } else {
        let head: nat = if actions[0] is SpawnDriver {
            1
        } else {
            0
        };
        head + spawns(actions.drop_first())
    }
}

/// A handle may go from phase `from` to phase `to` in one event: it stays
/// where it is, or goes from connecting to connected, from connected to
/// subscribing or unsubscribing, from either of these to the other, or from
/// any phase to terminated.
pub open spec fn may_follow(from: Phase, to: Phase) -> bool {
    ||| to == from
    ||| from is Connecting && (to is Connected || to is Terminated)
    ||| from is Connected && (to is Subscribing || to is Unsubscribing || to is Terminated)
    ||| from is Subscribing && (to is Unsubscribing || to is Terminated)
    ||| from is Unsubscribing && (to is Subscribing || to is Terminated)
}

/// The event ends `stream`, a stream of `filter`: the filter is cancelled,
/// the driver stops, the stream's transport ends, or its consumer lets go of
/// it.
pub open spec fn ends<E>(input: Input<E>, stream: int, filter: Seq<char>) -> bool {
    match input {
        Input::Unsubscribe(cancelled) => cancelled == filter,
        Input::DriverStopped => true,
        Input::Pulled(pulled_on, None) => pulled_on == stream,
        Input::Discarded(discarded) => discarded == stream,
        _ => false,
    }
}

} // verus!
