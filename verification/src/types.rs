//! The data that the feeds exchange and the cache keeps, each with its
//! mathematical form.

use crate::json::{Json, JsonView};
use crate::number::is_float_literal;
use crate::text::strings;
use vstd::prelude::*;

verus! {

/// The command line: the mode (`cache` or `read`) and the requested pairs.
#[derive(Debug)]
pub struct Args {
    pub mode: String,
    pub pairs: String,
}

/// One of the three exchanges.
#[derive(Debug, Clone, Copy, PartialEq, Eq, Structural)]
pub enum SocketType {
    Binance,
    Okex,
    Coinbase,
}

/// What is known of an exchange before the run: its name, the address of its
/// feed and the template of its subscription request.
#[derive(Debug)]
pub struct WebSocketConfig {
    pub name: String,
    pub ws_base_url: String,
    pub req_param: Json,
}

/// The mathematical form of a `WebSocketConfig`.
pub struct WebSocketConfigView {
    pub name: Seq<char>,
    pub ws_base_url: Seq<char>,
    pub req_param: JsonView,
}

impl View for WebSocketConfig {
    type V = WebSocketConfigView;

    open spec fn view(&self) -> WebSocketConfigView {
        WebSocketConfigView {
            name: self.name@,
            ws_base_url: self.ws_base_url@,
            req_param: self.req_param@,
        }
    }
}

impl Clone for WebSocketConfig {
    fn clone(&self) -> (r: WebSocketConfig)
        ensures
            r@ == self@,
    {
        WebSocketConfig {
            name: self.name.clone(),
            ws_base_url: self.ws_base_url.clone(),
            req_param: self.req_param.clone(),
        }
    }
}

/// The subscription request of the first exchange.
#[derive(Debug)]
pub struct BinanceReqParam {
    pub method: String,
    pub params: Vec<String>,
    pub id: i32,
}

/// The mathematical form of a `BinanceReqParam`.
pub struct BinanceReqParamView {
    pub method: Seq<char>,
    pub params: Seq<Seq<char>>,
    pub id: int,
}

impl View for BinanceReqParam {
    type V = BinanceReqParamView;

    open spec fn view(&self) -> BinanceReqParamView {
        BinanceReqParamView {
            method: self.method@,
            params: strings(self.params@),
            id: self.id as int,
        }
    }
}

/// The subscription request of the second exchange.
#[derive(Debug)]
pub struct CoinbaseReqParam {
    pub request_type: String,
    pub channels: Vec<String>,
    pub product_ids: Vec<String>,
}

/// The mathematical form of a `CoinbaseReqParam`.
pub struct CoinbaseReqParamView {
    pub request_type: Seq<char>,
    pub channels: Seq<Seq<char>>,
    pub product_ids: Seq<Seq<char>>,
}

impl View for CoinbaseReqParam {
    type V = CoinbaseReqParamView;

    open spec fn view(&self) -> CoinbaseReqParamView {
        CoinbaseReqParamView {
            request_type: self.request_type@,
            channels: strings(self.channels@),
            product_ids: strings(self.product_ids@),
        }
    }
}

/// One channel of one pair in the subscription request of the third exchange.
#[derive(Debug)]
pub struct OkexReqParamArg {
    pub channel: String,
    pub inst_id: String,
}

/// The mathematical form of an `OkexReqParamArg`.
pub struct OkexReqParamArgView {
    pub channel: Seq<char>,
    pub inst_id: Seq<char>,
}

impl View for OkexReqParamArg {
    type V = OkexReqParamArgView;

    open spec fn view(&self) -> OkexReqParamArgView {
        OkexReqParamArgView { channel: self.channel@, inst_id: self.inst_id@ }
    }
}

/// The subscription request of the third exchange.
#[derive(Debug)]
pub struct OkexReqParam {
    pub op: String,
    pub args: Vec<OkexReqParamArg>,
}

/// The mathematical form of an `OkexReqParam`.
pub struct OkexReqParamView {
    pub op: Seq<char>,
    pub args: Seq<OkexReqParamArgView>,
}

impl View for OkexReqParam {
    type V = OkexReqParamView;

    open spec fn view(&self) -> OkexReqParamView {
        OkexReqParamView { op: self.op@, args: self.args@.map_values(|a: OkexReqParamArg| a@) }
    }
}

/// A ticker of the first exchange: the pair and its last price.
#[derive(Debug)]
pub struct BinanceResponse {
    pub s: String,
    pub c: String,
}

/// The mathematical form of a `BinanceResponse`.
pub struct BinanceResponseView {
    pub s: Seq<char>,
    pub c: Seq<char>,
}

impl View for BinanceResponse {
    type V = BinanceResponseView;

    open spec fn view(&self) -> BinanceResponseView {
        BinanceResponseView { s: self.s@, c: self.c@ }
    }
}

/// A ticker of the second exchange: the pair and its last price.
#[derive(Debug)]
pub struct CoinbaseResponse {
    pub product_id: String,
    pub price: String,
}

/// The mathematical form of a `CoinbaseResponse`.
pub struct CoinbaseResponseView {
    pub product_id: Seq<char>,
    pub price: Seq<char>,
}

impl View for CoinbaseResponse {
    type V = CoinbaseResponseView;

    open spec fn view(&self) -> CoinbaseResponseView {
        CoinbaseResponseView { product_id: self.product_id@, price: self.price@ }
    }
}

/// One ticker of the third exchange: the pair and its last price.
#[derive(Debug)]
pub struct OkexResponseChild {
    pub inst_id: String,
    pub last: String,
}

/// The mathematical form of an `OkexResponseChild`.
pub struct OkexResponseChildView {
    pub inst_id: Seq<char>,
    pub last: Seq<char>,
}

impl View for OkexResponseChild {
    type V = OkexResponseChildView;

    open spec fn view(&self) -> OkexResponseChildView {
        OkexResponseChildView { inst_id: self.inst_id@, last: self.last@ }
    }
}

/// A frame of the third exchange: its tickers, none for a frame that
/// carries no price.
#[derive(Debug)]
pub struct OkexResponse {
    pub data: Vec<OkexResponseChild>,
}

/// The mathematical form of an `OkexResponse`.
pub struct OkexResponseView {
    pub data: Seq<OkexResponseChildView>,
}

impl View for OkexResponse {
    type V = OkexResponseView;

    open spec fn view(&self) -> OkexResponseView {
        OkexResponseView { data: self.data@.map_values(|d: OkexResponseChild| d@) }
    }
}

/// A decoded frame, by the exchange that sent it.
#[derive(Debug)]
pub enum ResponseEnum {
    Binance(BinanceResponse),
    Okex(OkexResponse),
    Coinbase(CoinbaseResponse),
}

/// The mathematical form of a `ResponseEnum`.
pub enum ResponseView {
    Binance(BinanceResponseView),
    Okex(OkexResponseView),
    Coinbase(CoinbaseResponseView),
}

impl View for ResponseEnum {
    type V = ResponseView;

    open spec fn view(&self) -> ResponseView {
        match self {
            ResponseEnum::Binance(r) => ResponseView::Binance(r@),
            ResponseEnum::Okex(r) => ResponseView::Okex(r@),
            ResponseEnum::Coinbase(r) => ResponseView::Coinbase(r@),
        }
    }
}

/// One observation: the exchange that reported it and the price, kept as
/// the decimal literal that came over the wire.
#[derive(Debug, PartialEq, Eq)]
pub struct PricesPairs {
    pub name: String,
    pub price: String,
}

/// The mathematical form of a `PricesPairs`.
pub struct PricesPairsView {
    pub name: Seq<char>,
    pub price: Seq<char>,
}

impl View for PricesPairs {
    type V = PricesPairsView;

    open spec fn view(&self) -> PricesPairsView {
        PricesPairsView { name: self.name@, price: self.price@ }
    }
}

/// What was observed of one pair, in the order of arrival.
#[derive(Debug, PartialEq, Eq)]
pub struct PairsCache {
    pub prices: Vec<PricesPairs>,
}

impl View for PairsCache {
    type V = Seq<PricesPairsView>;

    open spec fn view(&self) -> Seq<PricesPairsView> {
        self.prices@.map_values(|p: PricesPairs| p@)
    }
}

/// Every price among `observations` is a floating-point literal.
pub open spec fn all_priced(observations: Seq<PricesPairsView>) -> bool {
    forall|i: int|
        0 <= i < observations.len() ==> is_float_literal((#[trigger] observations[i]).price)
}

} // verus!
