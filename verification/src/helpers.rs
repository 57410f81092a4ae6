//! What is sent to an exchange and what is made of its answers: the address
//! and the subscription request, the key of a pair, and the cache update.

use crate::cache::{recorded, PriceCache};
use crate::errors::WSError;
use crate::json::{shape_error, Json, JsonView};
use crate::number::{check_float_literal, is_float_literal};
use crate::request::{
    binance_template, binance_text, coinbase_template, coinbase_text, okex_template, okex_text,
};
use crate::text::{
    has_separator, joined, lemma_split_len, lemma_split_pair, lowercase, split, split_fields,
    strings, to_lower, to_upper, uppercase,
};
use crate::types::{
    BinanceReqParam, BinanceReqParamView, CoinbaseReqParam, CoinbaseReqParamView, OkexReqParam,
    OkexReqParamArg, OkexReqParamArgView, OkexReqParamView, PricesPairs, PricesPairsView,
    ResponseEnum, ResponseView, SocketType, WebSocketConfig,
};
use vstd::prelude::*;
use vstd::string::*;

verus! {

/// The key of a pair whose two symbols stand before and after the first
/// `sep`: both in upper case, nothing between them. A third field, if there
/// is one, is left out.
pub open spec fn canonical_key(pair: Seq<char>, sep: char) -> Seq<char> {
    let coin = split(pair, sep);
    uppercase(coin[0]) + uppercase(coin[1])
}

/// The key of a pair written with `sep` between its symbols.
pub fn key_of(pair: &str, sep: char) -> (key: String)
    requires
        pair@.contains(sep),
    ensures
        key@ == canonical_key(pair@, sep),
{
    proof {
        lemma_split_len(pair@, sep);
    }
    let coin = split_fields(pair, sep);
    let mut key = to_upper(coin[0]);
    key.append(to_upper(coin[1]).as_str());
    key
}

/// The key of a pair in the notation of the exchanges that write a hyphen
/// between the symbols.
pub fn pair_key(string: &str) -> (key: String)
    requires
        string@.contains('-'),
    ensures
        key@ == canonical_key(string@, '-'),
{
    key_of(string, '-')
}

/// For a pair of two symbols that hold no separator, the key is the first
/// symbol in upper case followed by the second in upper case.
pub proof fn canonical_key_of_symbols(base: Seq<char>, quote: Seq<char>, sep: char)
    requires
        !base.contains(sep),
        !quote.contains(sep),
    ensures
        canonical_key(base + seq![sep] + quote, sep) == uppercase(base) + uppercase(quote),
{
    lemma_split_pair(base, quote, sep);
}

/// A pair has one key, whether it is written with an underscore, as it is
/// requested, or with a hyphen, as the exchanges report it.
pub proof fn canonical_key_in_both_notations(base: Seq<char>, quote: Seq<char>)
    requires
        !base.contains('_'),
        !quote.contains('_'),
        !base.contains('-'),
        !quote.contains('-'),
    ensures
        canonical_key(base + seq!['_'] + quote, '_') == canonical_key(
            base + seq!['-'] + quote,
            '-',
        ),
{
    canonical_key_of_symbols(base, quote, '_');
    canonical_key_of_symbols(base, quote, '-');
}

/// The path segment by which the first exchange streams one pair: nothing
/// for a text that is not two fields around one underscore.
pub open spec fn ticker_path(pair: Seq<char>) -> Seq<char> {
    let coin = split(pair, '_');
    if coin.len() == 2 {
        "/"@ + lowercase(coin[0]) + lowercase(coin[1]) + "@ticker"@
    } else {
        Seq::empty()
    }
}

/// The address of the first exchange's feed for `pairs`.
pub open spec fn binance_url(base: Seq<char>, pairs: Seq<Seq<char>>) -> Seq<char> {
    base + "/ws"@ + joined(pairs.map_values(|p: Seq<char>| ticker_path(p)))
}

/// The address at which the first exchange streams the tickers of `pairs`:
/// the base address, `/ws`, and one path segment per pair, in their order.
pub fn binance_req_url(ws_base_url: &str, pairs: &Vec<String>) -> (url: String)
    ensures
        url@ == binance_url(ws_base_url@, strings(pairs@)),
{
    let mut url = String::from_str(ws_base_url);
    url.append("/ws");
    let ghost paths = strings(pairs@).map_values(|p: Seq<char>| ticker_path(p));
    proof {
        assert(paths.subrange(0, 0) == Seq::<Seq<char>>::empty());
    }
    let mut i: usize = 0;
    while i < pairs.len()
        invariant
            i <= pairs@.len(),
            paths == strings(pairs@).map_values(|p: Seq<char>| ticker_path(p)),
            url@ == ws_base_url@ + "/ws"@ + joined(paths.subrange(0, i as int)),
        decreases pairs@.len() - i,
    {
        let coin = split_fields(pairs[i].as_str(), '_');
        if coin.len() == 2 {
            url.append("/");
            url.append(to_lower(coin[0]).as_str());
            url.append(to_lower(coin[1]).as_str());
            url.append("@ticker");
        }
        proof {
            let done = paths.subrange(0, i as int);
            let next = paths.subrange(0, i + 1);
            assert(next.drop_last() == done);
        }
        i += 1;
    }
    proof {
        assert(paths.subrange(0, i as int) == paths);
    }
    url
}

/// The name by which an exchange subscribes one pair: the two symbols in
/// upper case, followed by `@ticker` for the first exchange, with a hyphen
/// between them for the other two.
pub open spec fn request_param(socket_type: SocketType, pair: Seq<char>) -> Seq<char> {
    let coin = split(pair, '_');
    match socket_type {
        SocketType::Binance => uppercase(coin[0]) + uppercase(coin[1]) + "@ticker"@,
        _ => uppercase(coin[0]) + "-"@ + uppercase(coin[1]),
    }
}

/// The names of `pairs` in their order, without the texts that are not two
/// fields around one underscore.
pub open spec fn request_params(socket_type: SocketType, pairs: Seq<Seq<char>>) -> Seq<
    Seq<char>,
>
    decreases pairs.len(),
{
    if pairs.len() == 0 {
        Seq::empty()
    } else {
        let head = request_params(socket_type, pairs.drop_last());
        if split(pairs.last(), '_').len() == 2 {
            head.push(request_param(socket_type, pairs.last()))
        } else {
            head
        }
    }
}

/// The channels by which the third exchange subscribes `params`.
pub open spec fn ticker_args(params: Seq<Seq<char>>) -> Seq<OkexReqParamArgView> {
    params.map_values(|p: Seq<char>| OkexReqParamArgView { channel: "tickers"@, inst_id: p })
}

/// The request of an exchange for `params`: what its template holds, with
/// `params` added in their order behind what the template lists already.
/// `None` where the template is not of the exchange's shape.
pub open spec fn request_text(
    socket_type: SocketType,
    data: JsonView,
    params: Seq<Seq<char>>,
) -> Option<Seq<char>> {
    match socket_type {
        SocketType::Binance => match binance_template(data) {
            Some(t) => Some(
                binance_text(
                    BinanceReqParamView { method: t.method, params: t.params + params, id: t.id },
                ),
            ),
            None => None,
        },
        SocketType::Okex => match okex_template(data) {
            Some(t) => Some(
                okex_text(OkexReqParamView { op: t.op, args: t.args + ticker_args(params) }),
            ),
            None => None,
        },
        SocketType::Coinbase => match coinbase_template(data) {
            Some(t) => Some(
                coinbase_text(
                    CoinbaseReqParamView {
                        request_type: t.request_type,
                        channels: t.channels,
                        product_ids: t.product_ids + params,
                    },
                ),
            ),
            None => None,
        },
    }
}

/// Whether `data` is a template of the exchange's shape.
pub open spec fn is_template(socket_type: SocketType, data: JsonView) -> bool {
    match socket_type {
        SocketType::Binance => binance_template(data) is Some,
        SocketType::Okex => okex_template(data) is Some,
        SocketType::Coinbase => coinbase_template(data) is Some,
    }
}

/// Whether `data` is a template of the exchange's shape.
pub fn check_template(socket_type: SocketType, data: &Json) -> (r: bool)
    ensures
        r == is_template(socket_type, data@),
{
    match socket_type {
        SocketType::Binance => BinanceReqParam::from_json(data).is_some(),
        SocketType::Okex => OkexReqParam::from_json(data).is_some(),
        SocketType::Coinbase => CoinbaseReqParam::from_json(data).is_some(),
    }
}

/// Moves `more` behind `list`.
fn extend(list: &mut Vec<String>, more: Vec<String>)
    ensures
        strings(final(list)@) == strings(old(list)@) + strings(more@),
{
    let mut more = more;
    list.append(&mut more);
}

/// Puts the ticker channel of each of `params` behind `args`.
fn extend_with_tickers(args: &mut Vec<OkexReqParamArg>, params: &Vec<String>)
    ensures
        final(args)@.map_values(|a: OkexReqParamArg| a@) == old(args)@.map_values(
            |a: OkexReqParamArg| a@,
        ) + ticker_args(strings(params@)),
{
    let ghost listed = args@.map_values(|a: OkexReqParamArg| a@);
    let ghost added = ticker_args(strings(params@));
    let mut i: usize = 0;
    while i < params.len()
        invariant
            i <= params@.len(),
            added == ticker_args(strings(params@)),
            args@.map_values(|a: OkexReqParamArg| a@) == listed + added.subrange(0, i as int),
        decreases params@.len() - i,
    {
        let ghost before = args@.map_values(|a: OkexReqParamArg| a@);
        args.push(
            OkexReqParamArg { channel: String::from_str("tickers"), inst_id: params[i].clone() },
        );
        proof {
            assert(added.subrange(0, i + 1) == added.subrange(0, i as int).push(added[i as int]));
            assert(args@.map_values(|a: OkexReqParamArg| a@) == before.push(added[i as int]));
        }
        i += 1;
    }
    assert(added.subrange(0, i as int) == added);
}

/// The subscription request of an exchange for the names `params`, as a JSON
/// text. A template of the first exchange that is not of its shape is
/// refused; one of the other two must be of theirs.
pub fn get_request_param_string(
    socket_type: SocketType,
    data: &Json,
    params: Vec<String>,
) -> (r: Result<String, WSError>)
    requires
        socket_type != SocketType::Binance ==> is_template(socket_type, data@),
    ensures
        match r {
            Ok(s) => request_text(socket_type, data@, strings(params@)) == Some(s@),
            Err(e) => request_text(socket_type, data@, strings(params@)) is None
                && e is SerdeError,
        },
{
    match socket_type {
        SocketType::Binance => match BinanceReqParam::from_json(data) {
            Some(req_param) => {
                let mut req_param = req_param;
                extend(&mut req_param.params, params);
                req_param.to_json_text()
            },
            None => Err(
                WSError::SerdeError(shape_error("the template holds no request of the exchange")),
            ),
        },
        SocketType::Okex => match OkexReqParam::from_json(data) {
            Some(req_param) => {
                let mut req_param = req_param;
                extend_with_tickers(&mut req_param.args, &params);
                req_param.to_json_text()
            },
            None => Err(
                WSError::SerdeError(shape_error("the template holds no request of the exchange")),
            ),
        },
        SocketType::Coinbase => match CoinbaseReqParam::from_json(data) {
            Some(req_param) => {
                let mut req_param = req_param;
                extend(&mut req_param.product_ids, params);
                req_param.to_json_text()
            },
            None => Err(
                WSError::SerdeError(shape_error("the template holds no request of the exchange")),
            ),
        },
    }
}

/// The subscription request of an exchange for `pairs`, as a JSON text:
/// each pair goes under the name by which the exchange knows it.
pub fn create_req_params(socket_type: SocketType, data: &Json, pairs: &Vec<String>) -> (r: Result<
    String,
    WSError,
>)
    requires
        socket_type != SocketType::Binance ==> is_template(socket_type, data@),
    ensures
        match r {
            Ok(s) => request_text(
                socket_type,
                data@,
                request_params(socket_type, strings(pairs@)),
            ) == Some(s@),
            Err(e) => request_text(
                socket_type,
                data@,
                request_params(socket_type, strings(pairs@)),
            ) is None && e is SerdeError,
        },
{
    let mut params: Vec<String> = Vec::new();
    let ghost all = strings(pairs@);
    let mut i: usize = 0;
    proof {
        assert(all.subrange(0, 0) == Seq::<Seq<char>>::empty());
    }
    while i < pairs.len()
        invariant
            i <= pairs@.len(),
            all == strings(pairs@),
            strings(params@) == request_params(socket_type, all.subrange(0, i as int)),
        decreases pairs@.len() - i,
    {
        let coin = split_fields(pairs[i].as_str(), '_');
        if coin.len() == 2 {
            let mut param = to_upper(coin[0]);
            match socket_type {
                SocketType::Binance => {
                    param.append(to_upper(coin[1]).as_str());
                    param.append("@ticker");
                },
                _ => {
                    param.append("-");
                    param.append(to_upper(coin[1]).as_str());
                },
            }
            params.push(param);
        }
        proof {
            let next = all.subrange(0, i + 1);
            assert(next.drop_last() == all.subrange(0, i as int));
        }
        i += 1;
    }
    proof {
        assert(all.subrange(0, i as int) == all);
    }
    get_request_param_string(socket_type, data, params)
}

/// What a decoded frame reports: the key of the pair and the observation.
/// `None` for a frame that names no pair. The name of the exchange comes
/// from `ws_details`, which lists the first, the second and the third
/// exchange in this order.
pub open spec fn reading(ws_details: Seq<WebSocketConfig>, response: ResponseView) -> Option<
    (Seq<char>, PricesPairsView),
> {
    match response {
        ResponseView::Binance(r) => if r.s.len() == 0 {
            None
        } else {
            Some((r.s, PricesPairsView { name: ws_details[0].name@, price: r.c }))
        },
        ResponseView::Okex(r) => if r.data.len() == 0 {
            None
        } else {
            Some(
                (
                    canonical_key(r.data[0].inst_id, '-'),
                    PricesPairsView { name: ws_details[2].name@, price: r.data[0].last },
                ),
            )
        },
        ResponseView::Coinbase(r) => if r.product_id.len() == 0 {
            None
        } else {
            Some(
                (
                    canonical_key(r.product_id, '-'),
                    PricesPairsView { name: ws_details[1].name@, price: r.price },
                ),
            )
        },
    }
}

/// Whether the pair that a frame names can be turned into a key: the first
/// exchange names it by the key itself, the other two with a hyphen between
/// the symbols.
pub open spec fn names_a_pair(response: ResponseView) -> bool {
    match response {
        ResponseView::Binance(r) => true,
        ResponseView::Okex(r) => r.data.len() > 0 ==> r.data[0].inst_id.contains('-'),
        ResponseView::Coinbase(r) => r.product_id.len() > 0 ==> r.product_id.contains('-'),
    }
}

/// The price that a frame reports, where it names a pair.
pub open spec fn reported_price(response: ResponseView) -> Option<Seq<char>> {
    match response {
        ResponseView::Binance(r) => if r.s.len() == 0 {
            None
        } else {
            Some(r.c)
        },
        ResponseView::Okex(r) => if r.data.len() == 0 {
            None
        } else {
            Some(r.data[0].last)
        },
        ResponseView::Coinbase(r) => if r.product_id.len() == 0 {
            None
        } else {
            Some(r.price)
        },
    }
}

/// Whether `handle_response` takes the frame: a frame whose price is a
/// floating-point literal must name a pair that can be turned into a key.
pub open spec fn is_routable(response: ResponseView) -> bool {
    reported_price(response) matches Some(price) && is_float_literal(price) ==> names_a_pair(
        response,
    )
}

/// Whether `handle_response` takes the frame.
pub fn check_routable(response: &ResponseEnum) -> (r: bool)
    ensures
        r == is_routable(response@),
{
    match response {
        ResponseEnum::Binance(_) => true,
        ResponseEnum::Okex(tickers) => {
            tickers.data.len() == 0 || !check_float_literal(tickers.data[0].last.as_str())
                || has_separator(tickers.data[0].inst_id.as_str(), '-')
        },
        ResponseEnum::Coinbase(ticker) => {
            ticker.product_id.as_str().unicode_len() == 0 || !check_float_literal(
                ticker.price.as_str(),
            ) || has_separator(ticker.product_id.as_str(), '-')
        },
    }
}

/// Adds one observation to the cache, under `key` if the cache follows that
/// key; an observation of any other pair is dropped and the cache stays as
/// it is.
pub fn update_price_cache(pairs_cache: &mut PriceCache, key: String, name: String, price: String)
    requires
        old(pairs_cache).wf(),
        is_float_literal(price@),
    ensures
        final(pairs_cache).wf(),
        final(pairs_cache)@ == recorded(
            old(pairs_cache)@,
            key@,
            PricesPairsView { name: name@, price: price@ },
        ),
        !old(pairs_cache)@.contains_key(key@) ==> final(pairs_cache)@ == old(pairs_cache)@,
{
    pairs_cache.record(key.as_str(), PricesPairs { name, price });
}

/// Takes one decoded frame into the cache. A frame that names no pair
/// changes nothing. A price that is no floating-point literal is refused,
/// and the cache stays as it is. Otherwise the observation goes under the
/// key of its pair, or is dropped where the cache does not follow the pair.
pub fn handle_response(
    pairs_cache: &mut PriceCache,
    ws_details: &[WebSocketConfig],
    response: ResponseEnum,
) -> (r: Result<(), WSError>)
    requires
        old(pairs_cache).wf(),
        ws_details@.len() >= 3,
        is_routable(response@),
    ensures
        final(pairs_cache).wf(),
        reading(ws_details@, response@) matches Some((key, _)) ==> !old(pairs_cache)@.contains_key(
            key,
        ) ==> final(pairs_cache)@ == old(pairs_cache)@,
        match reading(ws_details@, response@) {
            None => r is Ok && final(pairs_cache)@ == old(pairs_cache)@,
            Some((key, observation)) => if is_float_literal(observation.price) {
                r is Ok && final(pairs_cache)@ == recorded(old(pairs_cache)@, key, observation)
            } else {
                r matches Err(WSError::ParseFloatError) && final(pairs_cache)@ == old(
                    pairs_cache,
                )@
            },
        },
{
    match response {
        ResponseEnum::Binance(binance_response) => {
            if binance_response.s.as_str().unicode_len() > 0 {
                if !check_float_literal(binance_response.c.as_str()) {
                    return Err(WSError::ParseFloatError);
                }
                update_price_cache(
                    pairs_cache,
                    binance_response.s,
                    ws_details[0].name.clone(),
                    binance_response.c,
                );
            }
        },
        ResponseEnum::Okex(okex_response) => {
            if okex_response.data.len() > 0 {
                if !check_float_literal(okex_response.data[0].last.as_str()) {
                    return Err(WSError::ParseFloatError);
                }
                let key = pair_key(okex_response.data[0].inst_id.as_str());
                update_price_cache(
                    pairs_cache,
                    key,
                    ws_details[2].name.clone(),
                    okex_response.data[0].last.clone(),
                );
            }
        },
        ResponseEnum::Coinbase(coinbase_response) => {
            if coinbase_response.product_id.as_str().unicode_len() > 0 {
                if !check_float_literal(coinbase_response.price.as_str()) {
                    return Err(WSError::ParseFloatError);
                }
                let key = pair_key(coinbase_response.product_id.as_str());
                update_price_cache(
                    pairs_cache,
                    key,
                    ws_details[1].name.clone(),
                    coinbase_response.price,
                );
            }
        },
    }
    Ok(())
}

} // verus!
