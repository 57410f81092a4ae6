//! One feed: the exchange, the pairs, and whether its connection is open.
//! The session says where to connect and what to send; opening the
//! connection and sending are the caller's part.

use crate::errors::WSError;
use crate::helpers::{
    binance_req_url, binance_url, create_req_params, is_template, request_params, request_text,
};
use crate::text::strings;
use crate::types::{SocketType, WebSocketConfig, WebSocketConfigView};
use vstd::prelude::*;

verus! {

/// The session of one exchange.
#[derive(Debug)]
pub struct WSHandler {
    config: WebSocketConfig,
    socket_type: SocketType,
    pairs: Vec<String>,
    open: bool,
}

impl WSHandler {
    /// What is known of the exchange.
    pub closed spec fn config(&self) -> WebSocketConfigView {
        self.config@
    }

    /// The exchange.
    pub closed spec fn socket_type(&self) -> SocketType {
        self.socket_type
    }

    /// The requested pairs.
    pub closed spec fn pairs(&self) -> Seq<Seq<char>> {
        strings(self.pairs@)
    }

    /// Whether the connection is open.
    pub closed spec fn is_open(&self) -> bool {
        self.open
    }

    /// The address to which the session connects: the first exchange
    /// streams each pair under a path of its own, the other two have one
    /// address for all.
    pub open spec fn address(&self) -> Seq<char> {
        match self.socket_type() {
            SocketType::Binance => binance_url(self.config().ws_base_url, self.pairs()),
            _ => self.config().ws_base_url,
        }
    }

    /// The request that subscribes the session to its pairs, or `None`
    /// where the template of the exchange is not of its shape.
    pub open spec fn subscription(&self) -> Option<Seq<char>> {
        request_text(
            self.socket_type(),
            self.config().req_param,
            request_params(self.socket_type(), self.pairs()),
        )
    }

    /// A session that is not connected yet.
    pub fn new(config: &WebSocketConfig, socket_type: SocketType, pairs: Vec<String>) -> (handler:
        WSHandler)
        ensures
            handler.config() == config@,
            handler.socket_type() == socket_type,
            handler.pairs() == strings(pairs@),
            !handler.is_open(),
    {
        WSHandler { config: config.clone(), socket_type, pairs, open: false }
    }

    /// The address at which to open the connection.
    pub fn connect(&self) -> (address: String)
        ensures
            address@ == self.address(),
    {
        match self.socket_type {
            SocketType::Binance => binance_req_url(self.config.ws_base_url.as_str(), &self.pairs),
            _ => self.config.ws_base_url.clone(),
        }
    }

    /// Records that the connection is open.
    pub fn opened(&mut self)
        ensures
            final(self).is_open(),
            final(self).config() == old(self).config(),
            final(self).socket_type() == old(self).socket_type(),
            final(self).pairs() == old(self).pairs(),
    {
        self.open = true;
    }

    /// Whether the connection is open.
    pub fn connected(&self) -> (r: bool)
        ensures
            r == self.is_open(),
    {
        self.open
    }

    /// The text to send, as one frame, over the open connection. A template
    /// of the first exchange that is not of its shape is refused; one of
    /// the other two must be of theirs.
    pub fn subscribe(&self) -> (r: Result<String, WSError>)
        requires
            self.is_open(),
            self.socket_type() != SocketType::Binance ==> is_template(
                self.socket_type(),
                self.config().req_param,
            ),
        ensures
            match r {
                Ok(payload) => self.subscription() == Some(payload@),
                Err(e) => self.subscription() is None && e is SerdeError,
            },
    {
        create_req_params(self.socket_type, &self.config.req_param, &self.pairs)
    }
}

} // verus!
