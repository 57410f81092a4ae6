//! From a frame to a decoded response: the text of the frame, the JSON
//! document in it, the error that an exchange reports, and the ticker.

use crate::errors::WSError;
use crate::json::{json_of_text, parse_json, Json, JsonView};
use crate::text::str_equal;
use crate::types::{
    BinanceResponse, BinanceResponseView, CoinbaseResponse, CoinbaseResponseView, OkexResponse,
    OkexResponseChild, OkexResponseChildView, OkexResponseView, ResponseEnum, ResponseView,
    SocketType,
};
use tungstenite::Message;
use vstd::prelude::*;
use vstd::string::*;

verus! {

/// `tungstenite::Message`, a frame as the stream hands it out. Only its
/// text is read, by `take_text`.
#[verifier::external_type_specification]
#[verifier::external_body]
pub struct ExMessage(Message);

/// The text that a frame carries: `None` for a frame of any kind but text.
pub uninterp spec fn frame_text(msg: Message) -> Option<Seq<char>>;

/// Takes the text out of a `tungstenite::Message`: the string of the
/// variant `Text`, nothing for the variants `Binary`, `Ping`, `Pong`,
/// `Close` and `Frame`. The contract says that this is the text of the
/// frame.
#[verifier::external_body]
fn take_text(msg: Message) -> (r: Option<String>)
    ensures
        match r {
            Some(s) => frame_text(msg) == Some(s@),
            None => frame_text(msg) is None,
        },
{
    match msg {
        Message::Text(s) => Some(s),
        _ => None,
    }
}

/// Whether a document reports an error of the exchange: its member `key`
/// is the string `error`.
pub open spec fn reports_error(j: JsonView, key: Seq<char>) -> bool {
    j.text_member(key) == Some("error"@)
}

/// The ticker of the first exchange in a document: the pair under `s` and
/// the price under `c`. A document without both as strings names no pair.
pub open spec fn binance_ticker(j: JsonView) -> BinanceResponseView {
    match (j.text_member("s"@), j.text_member("c"@)) {
        (Some(s), Some(c)) => BinanceResponseView { s, c },
        _ => BinanceResponseView { s: Seq::empty(), c: "0.0"@ },
    }
}

/// The ticker of the second exchange in a document: the pair under
/// `product_id` and the price under `price`. A document without both as
/// strings names no pair.
pub open spec fn coinbase_ticker(j: JsonView) -> CoinbaseResponseView {
    match (j.text_member("product_id"@), j.text_member("price"@)) {
        (Some(product_id), Some(price)) => CoinbaseResponseView { product_id, price },
        _ => CoinbaseResponseView { product_id: Seq::empty(), price: "0.0"@ },
    }
}

/// One ticker of the third exchange: the pair under `instId` and the price
/// under `last`, both strings.
pub open spec fn okex_child(j: JsonView) -> Option<OkexResponseChildView> {
    match (j.text_member("instId"@), j.text_member("last"@)) {
        (Some(inst_id), Some(last)) => Some(OkexResponseChildView { inst_id, last }),
        _ => None,
    }
}

/// The tickers of the third exchange in a document: the items of the array
/// under `data`. A document without that array, or with an item in it that
/// is no ticker, carries none.
pub open spec fn okex_ticker(j: JsonView) -> OkexResponseView {
    match j.member("data"@) {
        Some(JsonView::Array(items)) => if forall|i: int|
            0 <= i < items.len() ==> okex_child(#[trigger] items[i]) is Some {
            OkexResponseView { data: items.map_values(|v: JsonView| okex_child(v).unwrap()) }
        } else {
            OkexResponseView { data: Seq::empty() }
        },
        _ => OkexResponseView { data: Seq::empty() },
    }
}

/// Whether the member `key` of `msg` is the string `error`.
fn check_error(msg: &Json, key: &str) -> (r: bool)
    ensures
        r == reports_error(msg@, key@),
{
    match msg.text_member(key) {
        Some(s) => str_equal(s.as_str(), "error"),
        None => false,
    }
}

/// Decodes a document of the first exchange. `raw` is the text that the
/// document was read from; it goes into the error that the exchange
/// reports.
pub fn parse_binance_response(msg: &Json, raw: &str) -> (r: Result<BinanceResponse, WSError>)
    ensures
        match r {
            Ok(response) => !reports_error(msg@, "result"@) && response@ == binance_ticker(msg@),
            Err(e) => reports_error(msg@, "result"@) && e.carries(raw@),
        },
{
    if check_error(msg, "result") {
        return Err(WSError::SocketResponseError(String::from_str(raw)));
    }
    match (msg.text_member("s"), msg.text_member("c")) {
        (Some(s), Some(c)) => Ok(BinanceResponse { s: s.clone(), c: c.clone() }),
        _ => Ok(BinanceResponse { s: String::new(), c: String::from_str("0.0") }),
    }
}

/// Decodes a document of the second exchange. `raw` is the text that the
/// document was read from; it goes into the error that the exchange
/// reports.
pub fn parse_coinbase_response(msg: &Json, raw: &str) -> (r: Result<CoinbaseResponse, WSError>)
    ensures
        match r {
            Ok(response) => !reports_error(msg@, "type"@) && response@ == coinbase_ticker(msg@),
            Err(e) => reports_error(msg@, "type"@) && e.carries(raw@),
        },
{
    if check_error(msg, "type") {
        return Err(WSError::SocketResponseError(String::from_str(raw)));
    }
    match (msg.text_member("product_id"), msg.text_member("price")) {
        (Some(product_id), Some(price)) => Ok(
            CoinbaseResponse { product_id: product_id.clone(), price: price.clone() },
        ),
        _ => Ok(CoinbaseResponse { product_id: String::new(), price: String::from_str("0.0") }),
    }
}

/// The tickers in the array under `data`, or none.
fn read_okex_children(msg: &Json) -> (data: Vec<OkexResponseChild>)
    ensures
        data@.map_values(|d: OkexResponseChild| d@) == okex_ticker(msg@).data,
{
    let list = match msg.member("data") {
        Some(list) => list,
        None => return Vec::new(),
    };
    let items = match list.items() {
        Some(items) => items,
        None => return Vec::new(),
    };
    let ghost all = list@->Array_0;
    let mut data: Vec<OkexResponseChild> = Vec::new();
    let mut i: usize = 0;
    while i < items.len()
        invariant
            i <= items@.len(),
            msg@.member("data"@) == Some(list@),
            list@ == JsonView::Array(all),
            all.len() == items@.len(),
            forall|k: int| 0 <= k < items@.len() ==> #[trigger] all[k] == items@[k]@,
            data@.len() == i,
            forall|k: int| 0 <= k < i ==> okex_child(all[k]) == Some((#[trigger] data@[k])@),
        decreases items@.len() - i,
    {
        match (items[i].text_member("instId"), items[i].text_member("last")) {
            (Some(inst_id), Some(last)) => {
                data.push(OkexResponseChild { inst_id: inst_id.clone(), last: last.clone() });
            },
            _ => {
                assert(okex_child(all[i as int]) is None);
                return Vec::new();
            },
        }
        i += 1;
    }
    proof {
        assert forall|k: int| 0 <= k < all.len() implies okex_child(#[trigger] all[k]) == Some(
            data@[k]@,
        ) by {}
        assert(data@.map_values(|d: OkexResponseChild| d@) =~= all.map_values(
            |v: JsonView| okex_child(v).unwrap(),
        ));
    }
    data
}

/// Decodes a document of the third exchange. `raw` is the text that the
/// document was read from; it goes into the error that the exchange
/// reports.
pub fn parse_okex_response(msg: &Json, raw: &str) -> (r: Result<OkexResponse, WSError>)
    ensures
        match r {
            Ok(response) => !reports_error(msg@, "event"@) && response@ == okex_ticker(msg@),
            Err(e) => reports_error(msg@, "event"@) && e.carries(raw@),
        },
{
    if check_error(msg, "event") {
        return Err(WSError::SocketResponseError(String::from_str(raw)));
    }
    Ok(OkexResponse { data: read_okex_children(msg) })
}

/// What the text of a frame holds for the exchange that sent it.
pub enum Decoded {
    /// The text is no JSON document.
    Malformed,
    /// The document reports an error of the exchange.
    Refused,
    /// The document is taken as a ticker, or as a frame that names no pair.
    Response(ResponseView),
}

/// What a JSON document holds for the exchange that sent it.
pub open spec fn decode_document(socket_type: SocketType, j: JsonView) -> Decoded {
    match socket_type {
        SocketType::Binance => if reports_error(j, "result"@) {
            Decoded::Refused
        } else {
            Decoded::Response(ResponseView::Binance(binance_ticker(j)))
        },
        SocketType::Okex => if reports_error(j, "event"@) {
            Decoded::Refused
        } else {
            Decoded::Response(ResponseView::Okex(okex_ticker(j)))
        },
        SocketType::Coinbase => if reports_error(j, "type"@) {
            Decoded::Refused
        } else {
            Decoded::Response(ResponseView::Coinbase(coinbase_ticker(j)))
        },
    }
}

/// What the text of a frame holds for the exchange that sent it.
pub open spec fn decode_text(socket_type: SocketType, text: Seq<char>) -> Decoded {
    match json_of_text(text) {
        Some(j) => decode_document(socket_type, j),
        None => Decoded::Malformed,
    }
}

/// Whether `r` is the result that stands for `decoded`, with `text` as the
/// payload of a reported error.
pub open spec fn stands_for(
    r: Result<ResponseEnum, WSError>,
    decoded: Decoded,
    text: Seq<char>,
) -> bool {
    match decoded {
        Decoded::Malformed => r matches Err(WSError::SerdeError(_)),
        Decoded::Refused => r matches Err(e) && e.carries(text),
        Decoded::Response(response) => r matches Ok(v) && v@ == response,
    }
}

/// Decodes the document `msg` for the exchange that sent it. `raw` is the
/// text that the document was read from.
pub fn parse_document(socket_type: SocketType, msg: &Json, raw: &str) -> (r: Result<
    ResponseEnum,
    WSError,
>)
    ensures
        stands_for(r, decode_document(socket_type, msg@), raw@),
{
    match socket_type {
        SocketType::Binance => match parse_binance_response(msg, raw) {
            Ok(response) => Ok(ResponseEnum::Binance(response)),
            Err(e) => Err(e),
        },
        SocketType::Okex => match parse_okex_response(msg, raw) {
            Ok(response) => Ok(ResponseEnum::Okex(response)),
            Err(e) => Err(e),
        },
        SocketType::Coinbase => match parse_coinbase_response(msg, raw) {
            Ok(response) => Ok(ResponseEnum::Coinbase(response)),
            Err(e) => Err(e),
        },
    }
}

/// Decodes the text of a frame for the exchange that sent it.
pub fn parse_text(socket_type: SocketType, message: &str) -> (r: Result<ResponseEnum, WSError>)
    ensures
        stands_for(r, decode_text(socket_type, message@), message@),
{
    match parse_json(message) {
        Ok(msg) => parse_document(socket_type, &msg, message),
        Err(e) => Err(WSError::SerdeError(e)),
    }
}

/// Decodes what came from the stream of an exchange. A failure of the
/// transport is handed on. A frame that is no text is refused. The text of
/// any other frame is decoded as `decode_text` says.
pub fn message_parser(socket_type: SocketType, msg: Result<Message, tungstenite::Error>) -> (r:
    Result<ResponseEnum, WSError>)
    ensures
        match msg {
            Err(failure) => r matches Err(WSError::TungsniteError(e)) && e == failure,
            Ok(frame) => match frame_text(frame) {
                None => r matches Err(WSError::UnknownResponse),
                Some(text) => stands_for(r, decode_text(socket_type, text), text),
            },
        },
{
    match msg {
        Err(failure) => Err(WSError::TungsniteError(failure)),
        Ok(frame) => match take_text(frame) {
            Some(message) => parse_text(socket_type, message.as_str()),
            None => Err(WSError::UnknownResponse),
        },
    }
}

} // verus!
