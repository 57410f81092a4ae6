//! The sampling loop as a state machine. The loop connects and subscribes
//! the three exchanges in turn, then takes frames into the cache until the
//! timer has ticked twice, and ends when the snapshot is written. Each step
//! takes what happened and says what to do next; doing it is the caller's
//! part.

use crate::cache::{recorded, PriceCache};
use crate::errors::WSError;
use crate::helpers::{
    check_routable, handle_response, is_routable, is_template, reading,
};
use crate::number::is_float_literal;
use crate::parser::{decode_text, frame_text, message_parser, Decoded};
use crate::session::WSHandler;
use crate::text::{copy_strings, strings};
use crate::types::{PricesPairsView, SocketType, WebSocketConfig};
use crate::{all_parted, insert_pairs, seeded};
use tungstenite::Message;
use vstd::prelude::*;

verus! {

/// The two parts of the sampling window: before and after the first tick.
#[derive(Debug, Clone, Copy, PartialEq, Eq, Structural)]
pub enum Window {
    First,
    Second,
}

/// Where the loop stands.
#[derive(Debug, Clone, Copy, PartialEq, Eq, Structural)]
pub enum Phase {
    /// The connection to this exchange is being opened.
    Connecting(SocketType),
    /// The subscription is being sent to this exchange.
    Subscribing(SocketType),
    /// Frames are taken into the cache.
    Sampling(Window),
    /// The window is closed and the snapshot is being written.
    Finalizing,
    /// The run is over.
    Terminated,
}

/// What happened since the last step.
#[derive(Debug)]
pub enum Event {
    /// The attempt to connect has ended.
    Connected(Result<(), tungstenite::Error>),
    /// The attempt to send the subscription has ended.
    Subscribed(Result<(), tungstenite::Error>),
    /// The stream of an exchange has handed out an item.
    Frame(SocketType, Result<Message, tungstenite::Error>),
    /// The timer has ticked.
    Tick,
    /// The snapshot is written.
    Persisted,
}

/// What to do next.
#[derive(Debug)]
pub enum Action {
    /// Open a connection to the exchange at this address, then report
    /// `Event::Connected`.
    Connect(SocketType, String),
    /// Send this text to the exchange as one frame, then report
    /// `Event::Subscribed`.
    Subscribe(SocketType, String),
    /// Wait for a frame of any exchange or for a tick of the timer,
    /// whichever comes first, and report it.
    Listen,
    /// Aggregate the cache, write the snapshot, then report
    /// `Event::Persisted`.
    Persist,
    /// Nothing: the run has ended well.
    Stop,
}

/// The mathematical form of an `Action`.
pub enum ActionView {
    Connect(SocketType, Seq<char>),
    Subscribe(SocketType, Seq<char>),
    Listen,
    Persist,
    Stop,
}

impl View for Action {
    type V = ActionView;

    open spec fn view(&self) -> ActionView {
        match self {
            Action::Connect(exchange, address) => ActionView::Connect(*exchange, address@),
            Action::Subscribe(exchange, payload) => ActionView::Subscribe(*exchange, payload@),
            Action::Listen => ActionView::Listen,
            Action::Persist => ActionView::Persist,
            Action::Stop => ActionView::Stop,
        }
    }
}

/// Whether a step went well and asks for `action`.
pub open spec fn asks(r: Result<Action, WSError>, action: ActionView) -> bool {
    r matches Ok(a) && a@ == action
}

/// Whether a step ended the run with the error that the exchange reported
/// in `text`.
pub open spec fn refuses(r: Result<Action, WSError>, text: Seq<char>) -> bool {
    r matches Err(e) && e.carries(text)
}

/// The exchange that is connected after `exchange`, if any.
pub open spec fn exchange_after(exchange: SocketType) -> Option<SocketType> {
    match exchange {
        SocketType::Binance => Some(SocketType::Coinbase),
        SocketType::Coinbase => Some(SocketType::Okex),
        SocketType::Okex => None,
    }
}

/// Whether `event` can happen in `phase`.
pub open spec fn is_expected(phase: Phase, event: Event) -> bool {
    match (phase, event) {
        (Phase::Connecting(_), Event::Connected(_)) => true,
        (Phase::Subscribing(_), Event::Subscribed(_)) => true,
        (Phase::Sampling(_), Event::Frame(_, _)) => true,
        (Phase::Sampling(_), Event::Tick) => true,
        (Phase::Finalizing, Event::Persisted) => true,
        _ => false,
    }
}

/// Whether a step ended the run with the failure of the transport.
pub open spec fn fails_with(r: Result<Action, WSError>, failure: tungstenite::Error) -> bool {
    r matches Err(WSError::TungsniteError(e)) && e == failure
}

/// What a frame does to the loop while it samples in `window`: the cache
/// and the phase after the step, and its result. Anything but a ticker or a
/// frame that names no pair ends the run and leaves the cache as it is.
pub open spec fn frame_step(
    details: Seq<WebSocketConfig>,
    cache: Map<Seq<char>, Seq<PricesPairsView>>,
    window: Window,
    source: SocketType,
    msg: Result<Message, tungstenite::Error>,
    after: Map<Seq<char>, Seq<PricesPairsView>>,
    phase: Phase,
    r: Result<Action, WSError>,
) -> bool {
    let ended = phase == Phase::Terminated && after == cache;
    let goes_on = phase == Phase::Sampling(window) && asks(r, ActionView::Listen);
    match msg {
        Err(failure) => ended && fails_with(r, failure),
        Ok(frame) => match frame_text(frame) {
            None => ended && r matches Err(WSError::UnknownResponse),
            Some(text) => match decode_text(source, text) {
                Decoded::Malformed => ended && r matches Err(WSError::SerdeError(_)),
                Decoded::Refused => ended && refuses(r, text),
                Decoded::Response(response) => match reading(details, response) {
                    None => goes_on && after == cache,
                    Some((key, observation)) => if !is_float_literal(observation.price) {
                        ended && r matches Err(WSError::ParseFloatError)
                    } else if !is_routable(response) {
                        ended && r matches Err(WSError::UnknownResponse)
                    } else {
                        goes_on && after == recorded(cache, key, observation)
                    },
                },
            },
        },
    }
}

/// The exchange whose connection `event` reports open in `phase`, if any.
pub open spec fn opened_by(phase: Phase, event: Event) -> Option<SocketType> {
    match (phase, event) {
        (Phase::Connecting(exchange), Event::Connected(Ok(_))) => Some(exchange),
        _ => None,
    }
}

/// The sampling loop: the three sessions, the cache and the phase.
#[derive(Debug)]
pub struct SamplingLoop {
    ws_details: Vec<WebSocketConfig>,
    binance: WSHandler,
    coinbase: WSHandler,
    okex: WSHandler,
    cache: PriceCache,
    phase: Phase,
}

impl SamplingLoop {
    /// Where the loop stands.
    pub closed spec fn phase(&self) -> Phase {
        self.phase
    }

    /// What the cache holds.
    pub closed spec fn cache(&self) -> Map<Seq<char>, Seq<PricesPairsView>> {
        self.cache@
    }

    /// What is known of the exchanges: the first, the second, the third.
    pub closed spec fn details(&self) -> Seq<WebSocketConfig> {
        self.ws_details@
    }

    /// The session of an exchange.
    pub closed spec fn handler(&self, exchange: SocketType) -> WSHandler {
        match exchange {
            SocketType::Binance => self.binance,
            SocketType::Coinbase => self.coinbase,
            SocketType::Okex => self.okex,
        }
    }

    /// The sessions belong to the three exchanges in their order, the
    /// templates of the second and the third are of their shape, the cache
    /// is well formed, and the session that subscribes is open.
    pub closed spec fn wf(&self) -> bool {
        &&& self.ws_details@.len() >= 3
        &&& self.cache.wf()
        &&& self.binance.socket_type() == SocketType::Binance
        &&& self.coinbase.socket_type() == SocketType::Coinbase
        &&& self.okex.socket_type() == SocketType::Okex
        &&& self.binance.config() == self.ws_details@[0]@
        &&& self.coinbase.config() == self.ws_details@[1]@
        &&& self.okex.config() == self.ws_details@[2]@
        &&& is_template(SocketType::Coinbase, self.ws_details@[1]@.req_param)
        &&& is_template(SocketType::Okex, self.ws_details@[2]@.req_param)
        &&& self.phase matches Phase::Subscribing(exchange) ==> self.handler(exchange).is_open()
    }

    /// Whether `event` can happen where the loop stands.
    pub open spec fn expects(&self, event: Event) -> bool {
        is_expected(self.phase(), event)
    }

    /// Whether the sessions are those of `before`, with the connection of
    /// `opened` open besides those that were.
    pub open spec fn keeps_sessions(
        &self,
        before: &SamplingLoop,
        opened: Option<SocketType>,
    ) -> bool {
        forall|exchange: SocketType|
            #![trigger self.handler(exchange)]
            self.handler(exchange).config() == before.handler(exchange).config()
                && self.handler(exchange).socket_type() == before.handler(exchange).socket_type()
                && self.handler(exchange).pairs() == before.handler(exchange).pairs()
                && self.handler(exchange).is_open() == (before.handler(exchange).is_open()
                || opened == Some(exchange))
    }

    /// A loop for the three exchanges of `ws_details` and for `pairs`, with
    /// its first action: to connect to the first exchange. The cache follows
    /// the key of each pair and holds no observation.
    pub fn new(ws_details: Vec<WebSocketConfig>, pairs: Vec<String>) -> (r: (SamplingLoop, Action))
        requires
            ws_details@.len() >= 3,
            all_parted(strings(pairs@)),
            is_template(SocketType::Coinbase, ws_details@[1]@.req_param),
            is_template(SocketType::Okex, ws_details@[2]@.req_param),
        ensures
            r.0.wf(),
            r.0.details() == ws_details@,
            r.0.phase() == Phase::Connecting(SocketType::Binance),
            r.0.cache() == seeded(Map::empty(), strings(pairs@)),
            forall|exchange: SocketType|
                #![trigger r.0.handler(exchange)]
                r.0.handler(exchange).socket_type() == exchange && r.0.handler(exchange).pairs()
                    == strings(pairs@) && !r.0.handler(exchange).is_open(),
            r.0.handler(SocketType::Binance).config() == ws_details@[0]@,
            r.0.handler(SocketType::Coinbase).config() == ws_details@[1]@,
            r.0.handler(SocketType::Okex).config() == ws_details@[2]@,
            r.1@ == ActionView::Connect(
                SocketType::Binance,
                r.0.handler(SocketType::Binance).address(),
            ),
    {
        let binance = WSHandler::new(&ws_details[0], SocketType::Binance, copy_strings(&pairs));
        let coinbase = WSHandler::new(&ws_details[1], SocketType::Coinbase, copy_strings(&pairs));
        let okex = WSHandler::new(&ws_details[2], SocketType::Okex, copy_strings(&pairs));
        let mut cache = PriceCache::new();
        insert_pairs(pairs, &mut cache);
        let address = binance.connect();
        let sampling = SamplingLoop {
            ws_details,
            binance,
            coinbase,
            okex,
            cache,
            phase: Phase::Connecting(SocketType::Binance),
        };
        (sampling, Action::Connect(SocketType::Binance, address))
    }

    /// Where the loop stands.
    pub fn state(&self) -> (phase: Phase)
        ensures
            phase == self.phase(),
    {
        self.phase
    }

    /// The cache.
    pub fn snapshot(&self) -> (cache: &PriceCache)
        requires
            self.wf(),
        ensures
            cache.wf(),
            cache@ == self.cache(),
    {
        &self.cache
    }

    /// Whether `event` can happen where the loop stands.
    pub fn accepts(&self, event: &Event) -> (r: bool)
        ensures
            r == self.expects(*event),
    {
        match (self.phase, event) {
            (Phase::Connecting(_), Event::Connected(_)) => true,
            (Phase::Subscribing(_), Event::Subscribed(_)) => true,
            (Phase::Sampling(_), Event::Frame(_, _)) => true,
            (Phase::Sampling(_), Event::Tick) => true,
            (Phase::Finalizing, Event::Persisted) => true,
            _ => false,
        }
    }

    /// Records that the connection of `exchange` is open and gives the text
    /// that subscribes it.
    fn open_session(&mut self, exchange: SocketType) -> (r: Result<String, WSError>)
        requires
            old(self).wf(),
        ensures
            final(self).details() == old(self).details(),
            final(self).cache() == old(self).cache(),
            final(self).phase() == old(self).phase(),
            final(self).keeps_sessions(old(self), Some(exchange)),
            old(self).phase() is Connecting ==> final(self).wf(),
            match r {
                Ok(payload) => old(self).handler(exchange).subscription() == Some(payload@),
                Err(e) => old(self).handler(exchange).subscription() is None && e is SerdeError,
            },
    {
        match exchange {
            SocketType::Binance => {
                self.binance.opened();
                self.binance.subscribe()
            },
            SocketType::Coinbase => {
                self.coinbase.opened();
                self.coinbase.subscribe()
            },
            SocketType::Okex => {
                self.okex.opened();
                self.okex.subscribe()
            },
        }
    }

    /// The address of `exchange`.
    fn address_of(&self, exchange: SocketType) -> (address: String)
        ensures
            address@ == self.handler(exchange).address(),
    {
        match exchange {
            SocketType::Binance => self.binance.connect(),
            SocketType::Coinbase => self.coinbase.connect(),
            SocketType::Okex => self.okex.connect(),
        }
    }

    /// Takes one item of the stream of `source` while the loop samples.
    fn take_frame(
        &mut self,
        window: Window,
        source: SocketType,
        msg: Result<Message, tungstenite::Error>,
    ) -> (r: Result<Action, WSError>)
        requires
            old(self).wf(),
            old(self).phase() == Phase::Sampling(window),
        ensures
            final(self).wf(),
            final(self).details() == old(self).details(),
            forall|exchange: SocketType| #[trigger]
                final(self).handler(exchange) == old(self).handler(exchange),
            frame_step(
                old(self).details(),
                old(self).cache(),
                window,
                source,
                msg,
                final(self).cache(),
                final(self).phase(),
                r,
            ),
    {
        let response = match message_parser(source, msg) {
            Ok(response) => response,
            Err(e) => {
                self.phase = Phase::Terminated;
                return Err(e);
            },
        };
        if !check_routable(&response) {
            self.phase = Phase::Terminated;
            return Err(WSError::UnknownResponse);
        }
        match handle_response(&mut self.cache, self.ws_details.as_slice(), response) {
            Ok(()) => Ok(Action::Listen),
            Err(e) => {
                self.phase = Phase::Terminated;
                Err(e)
            },
        }
    }

    /// Takes what happened and says what to do next. A failure ends the
    /// run: the loop is then terminated and takes no further event.
    pub fn step(&mut self, event: Event) -> (r: Result<Action, WSError>)
        requires
            old(self).wf(),
            old(self).expects(event),
        ensures
            final(self).wf(),
            final(self).details() == old(self).details(),
            final(self).keeps_sessions(old(self), opened_by(old(self).phase(), event)),
            r is Err ==> final(self).phase() == Phase::Terminated,
            !(event is Frame) ==> final(self).cache() == old(self).cache(),
            match (old(self).phase(), event) {
                (Phase::Connecting(exchange), Event::Connected(Ok(_))) => match old(self).handler(
                    exchange,
                ).subscription() {
                    Some(payload) => final(self).phase() == Phase::Subscribing(exchange) && asks(
                        r,
                        ActionView::Subscribe(exchange, payload),
                    ),
                    None => r matches Err(WSError::SerdeError(_)),
                },
                (Phase::Connecting(_), Event::Connected(Err(failure))) => fails_with(r, failure),
                (Phase::Subscribing(exchange), Event::Subscribed(Ok(_))) => match exchange_after(
                    exchange,
                ) {
                    Some(next) => final(self).phase() == Phase::Connecting(next) && asks(
                        r,
                        ActionView::Connect(next, old(self).handler(next).address()),
                    ),
                    None => final(self).phase() == Phase::Sampling(Window::First) && asks(
                        r,
                        ActionView::Listen,
                    ),
                },
                (Phase::Subscribing(_), Event::Subscribed(Err(failure))) => fails_with(r, failure),
                (Phase::Sampling(window), Event::Frame(source, msg)) => frame_step(
                    old(self).details(),
                    old(self).cache(),
                    window,
                    source,
                    msg,
                    final(self).cache(),
                    final(self).phase(),
                    r,
                ),
                (Phase::Sampling(Window::First), Event::Tick) => final(self).phase()
                    == Phase::Sampling(Window::Second) && asks(r, ActionView::Listen),
                (Phase::Sampling(Window::Second), Event::Tick) => final(self).phase()
                    == Phase::Finalizing && asks(r, ActionView::Persist),
                (Phase::Finalizing, Event::Persisted) => final(self).phase() == Phase::Terminated
                    && asks(r, ActionView::Stop),
                _ => true,
            },
    {
        match (self.phase, event) {
            (Phase::Connecting(exchange), Event::Connected(Ok(_))) => {
                let opened = self.open_session(exchange);
                let ghost open = *self;
                self.phase = match opened {
                    Ok(_) => Phase::Subscribing(exchange),
                    Err(_) => Phase::Terminated,
                };
                proof {
                    assert forall|other: SocketType| #[trigger]
                        self.handler(other) == open.handler(other) by {}
                }
                match opened {
                    Ok(payload) => Ok(Action::Subscribe(exchange, payload)),
                    Err(e) => Err(e),
                }
            },
            (Phase::Connecting(_), Event::Connected(Err(failure))) => {
                self.phase = Phase::Terminated;
                Err(WSError::TungsniteError(failure))
            },
            (Phase::Subscribing(exchange), Event::Subscribed(Ok(_))) => {
                let next = match exchange {
                    SocketType::Binance => Some(SocketType::Coinbase),
                    SocketType::Coinbase => Some(SocketType::Okex),
                    SocketType::Okex => None,
                };
                match next {
                    Some(next) => {
                        self.phase = Phase::Connecting(next);
                        Ok(Action::Connect(next, self.address_of(next)))
                    },
                    None => {
                        self.phase = Phase::Sampling(Window::First);
                        Ok(Action::Listen)
                    },
                }
            },
            (Phase::Subscribing(_), Event::Subscribed(Err(failure))) => {
                self.phase = Phase::Terminated;
                Err(WSError::TungsniteError(failure))
            },
            (Phase::Sampling(window), Event::Frame(source, msg)) => self.take_frame(
                window,
                source,
                msg,
            ),
            (Phase::Sampling(Window::First), Event::Tick) => {
                self.phase = Phase::Sampling(Window::Second);
                Ok(Action::Listen)
            },
            (Phase::Sampling(Window::Second), Event::Tick) => {
                self.phase = Phase::Finalizing;
                Ok(Action::Persist)
            },
            (Phase::Finalizing, Event::Persisted) => {
                self.phase = Phase::Terminated;
                Ok(Action::Stop)
            },
            // No other event is expected.
            _ => {
                self.phase = Phase::Terminated;
                Err(WSError::UnknownResponse)
            },
        }
    }
}

} // verus!
