//! The subscription requests: how each is read from the template that the
//! configuration holds, and how it is written as a JSON text.

use crate::errors::WSError;
use crate::json::{json_string, quote, Json, JsonView};
use crate::number::{decimal, render_i32};
use crate::text::{interleaved, strings};
use crate::types::{
    BinanceReqParam, BinanceReqParamView, CoinbaseReqParam, CoinbaseReqParamView, OkexReqParam,
    OkexReqParamArg, OkexReqParamArgView, OkexReqParamView,
};
use vstd::prelude::*;
use vstd::string::*;

verus! {

/// The strings of an array that holds nothing but strings.
pub open spec fn text_items(j: JsonView) -> Option<Seq<Seq<char>>> {
    match j {
        JsonView::Array(items) => if forall|i: int|
            0 <= i < items.len() ==> (#[trigger] items[i]).text() is Some {
            Some(items.map_values(|v: JsonView| v.text().unwrap()))
        } else {
            None
        },
        _ => None,
    }
}

/// The strings of the member `key`, where it is an array of strings.
pub open spec fn text_items_member(j: JsonView, key: Seq<char>) -> Option<Seq<Seq<char>>> {
    match j.member(key) {
        Some(v) => text_items(v),
        None => None,
    }
}

/// The integer member `key`, where it fits 32 signed bits.
pub open spec fn integer_member(j: JsonView, key: Seq<char>) -> Option<int> {
    match j.member(key) {
        Some(v) => v.small_integer(),
        None => None,
    }
}

/// The JSON array whose items are the texts `items`.
pub open spec fn array_text(items: Seq<Seq<char>>) -> Seq<char> {
    "["@ + interleaved(items, ","@) + "]"@
}

/// The JSON array of the strings `items`.
pub open spec fn string_array_text(items: Seq<Seq<char>>) -> Seq<char> {
    array_text(items.map_values(|s: Seq<char>| json_string(s)))
}

/// The strings of `j`, where it is an array of strings.
fn read_text_items(j: &Json) -> (r: Option<Vec<String>>)
    ensures
        match r {
            Some(v) => text_items(j@) == Some(strings(v@)),
            None => text_items(j@) is None,
        },
{
    match j.items() {
        Some(items) => {
            let ghost all = j@->Array_0;
            let mut out: Vec<String> = Vec::new();
            let mut i: usize = 0;
            while i < items.len()
                invariant
                    i <= items@.len(),
                    j@ == JsonView::Array(all),
                    all.len() == items@.len(),
                    forall|k: int| 0 <= k < items@.len() ==> #[trigger] all[k] == items@[k]@,
                    out@.len() == i,
                    forall|k: int|
                        0 <= k < i ==> all[k].text() == Some((#[trigger] out@[k])@),
                decreases items@.len() - i,
            {
                match items[i].text() {
                    Some(s) => {
                        out.push(s.clone());
                    },
                    None => {
                        assert(all[i as int].text() is None);
                        return None;
                    },
                }
                i += 1;
            }
            assert forall|k: int| 0 <= k < all.len() implies (#[trigger] all[k]).text()
                == Some(out@[k]@) by {}
            Some(out)
        },
        None => None,
    }
}

/// Appends the quoted form of `text` to `out`.
fn write_string(out: &mut String, text: &str) -> (r: Result<(), WSError>)
    ensures
        r is Ok,
        final(out)@ == old(out)@ + json_string(text@),
{
    match quote(text) {
        Ok(q) => {
            out.append(q.as_str());
            Ok(())
        },
        Err(e) => Err(WSError::SerdeError(e)),
    }
}

/// Appends the JSON array of the texts `items` to `out`.
fn write_array(out: &mut String, items: &Vec<String>)
    ensures
        final(out)@ == old(out)@ + array_text(strings(items@)),
{
    out.append("[");
    let ghost texts = strings(items@);
    let ghost start = out@;
    let mut i: usize = 0;
    proof {
        assert(texts.subrange(0, 0) == Seq::<Seq<char>>::empty());
    }
    while i < items.len()
        invariant
            i <= items@.len(),
            texts == strings(items@),
            out@ == start + interleaved(texts.subrange(0, i as int), ","@),
        decreases items@.len() - i,
    {
        if i > 0 {
            out.append(",");
        }
        out.append(items[i].as_str());
        proof {
            let done = texts.subrange(0, i as int);
            let next = texts.subrange(0, i + 1);
            assert(next.drop_last() == done);
            if i == 0 {
                assert(interleaved(next, ","@) == next[0]);
            } else {
                assert(interleaved(next, ","@) == interleaved(done, ","@) + ","@ + next.last());
            }
        }
        i += 1;
    }
    proof {
        assert(texts.subrange(0, i as int) == texts);
    }
    out.append("]");
}

/// The quoted forms of `items`.
fn quote_all(items: &Vec<String>) -> (r: Result<Vec<String>, WSError>)
    ensures
        r matches Ok(q) && strings(q@) == strings(items@).map_values(
            |s: Seq<char>| json_string(s),
        ),
{
    let mut out: Vec<String> = Vec::new();
    let mut i: usize = 0;
    while i < items.len()
        invariant
            i <= items@.len(),
            out@.len() == i,
            forall|k: int| 0 <= k < i ==> (#[trigger] out@[k])@ == json_string(items@[k]@),
        decreases items@.len() - i,
    {
        match quote(items[i].as_str()) {
            Ok(q) => out.push(q),
            Err(e) => {
                return Err(WSError::SerdeError(e));
            },
        }
        i += 1;
    }
    Ok(out)
}

/// Appends the JSON array of the strings `items` to `out`.
fn write_string_array(out: &mut String, items: &Vec<String>) -> (r: Result<(), WSError>)
    ensures
        r is Ok,
        final(out)@ == old(out)@ + string_array_text(strings(items@)),
{
    let quoted = quote_all(items)?;
    write_array(out, &quoted);
    Ok(())
}

/// The request that a template of the first exchange holds: a method, a
/// list of parameters and an identifier.
pub open spec fn binance_template(j: JsonView) -> Option<BinanceReqParamView> {
    match (
        j.text_member("method"@),
        text_items_member(j, "params"@),
        integer_member(j, "id"@),
    ) {
        (Some(method), Some(params), Some(id)) => Some(BinanceReqParamView { method, params, id }),
        _ => None,
    }
}

/// The JSON text of a request to the first exchange.
pub open spec fn binance_text(p: BinanceReqParamView) -> Seq<char> {
    "{\"method\":"@ + json_string(p.method) + ",\"params\":"@ + string_array_text(p.params)
        + ",\"id\":"@ + decimal(p.id) + "}"@
}

impl BinanceReqParam {
    /// Reads the request from a template.
    pub fn from_json(data: &Json) -> (r: Option<BinanceReqParam>)
        ensures
            match r {
                Some(p) => binance_template(data@) == Some(p@),
                None => binance_template(data@) is None,
            },
    {
        let method = data.text_member("method")?.clone();
        let params = read_text_items(data.member("params")?)?;
        let id = data.member("id")?.small_integer()?;
        Some(BinanceReqParam { method, params, id })
    }

    /// Writes the request as a JSON text.
    pub fn to_json_text(&self) -> (r: Result<String, WSError>)
        ensures
            r matches Ok(s) && s@ == binance_text(self@),
    {
        let mut out = String::from_str("{\"method\":");
        write_string(&mut out, self.method.as_str())?;
        out.append(",\"params\":");
        write_string_array(&mut out, &self.params)?;
        out.append(",\"id\":");
        out.append(render_i32(self.id).as_str());
        out.append("}");
        Ok(out)
    }
}

/// The request that a template of the second exchange holds: a type, a
/// list of channels and a list of products.
pub open spec fn coinbase_template(j: JsonView) -> Option<CoinbaseReqParamView> {
    match (
        j.text_member("type"@),
        text_items_member(j, "channels"@),
        text_items_member(j, "product_ids"@),
    ) {
        (Some(request_type), Some(channels), Some(product_ids)) => Some(
            CoinbaseReqParamView { request_type, channels, product_ids },
        ),
        _ => None,
    }
}

/// The JSON text of a request to the second exchange.
pub open spec fn coinbase_text(p: CoinbaseReqParamView) -> Seq<char> {
    "{\"type\":"@ + json_string(p.request_type) + ",\"channels\":"@ + string_array_text(
        p.channels,
    ) + ",\"product_ids\":"@ + string_array_text(p.product_ids) + "}"@
}

impl CoinbaseReqParam {
    /// Reads the request from a template.
    pub fn from_json(data: &Json) -> (r: Option<CoinbaseReqParam>)
        ensures
            match r {
                Some(p) => coinbase_template(data@) == Some(p@),
                None => coinbase_template(data@) is None,
            },
    {
        let request_type = data.text_member("type")?.clone();
        let channels = read_text_items(data.member("channels")?)?;
        let product_ids = read_text_items(data.member("product_ids")?)?;
        Some(CoinbaseReqParam { request_type, channels, product_ids })
    }

    /// Writes the request as a JSON text.
    pub fn to_json_text(&self) -> (r: Result<String, WSError>)
        ensures
            r matches Ok(s) && s@ == coinbase_text(self@),
    {
        let mut out = String::from_str("{\"type\":");
        write_string(&mut out, self.request_type.as_str())?;
        out.append(",\"channels\":");
        write_string_array(&mut out, &self.channels)?;
        out.append(",\"product_ids\":");
        write_string_array(&mut out, &self.product_ids)?;
        out.append("}");
        Ok(out)
    }
}

/// The channel of one pair that an object holds.
pub open spec fn okex_arg(j: JsonView) -> Option<OkexReqParamArgView> {
    match (j.text_member("channel"@), j.text_member("instId"@)) {
        (Some(channel), Some(inst_id)) => Some(OkexReqParamArgView { channel, inst_id }),
        _ => None,
    }
}

/// The channels of an array that holds nothing but such objects.
pub open spec fn okex_args(j: JsonView) -> Option<Seq<OkexReqParamArgView>> {
    match j {
        JsonView::Array(items) => if forall|i: int|
            0 <= i < items.len() ==> okex_arg(#[trigger] items[i]) is Some {
            Some(items.map_values(|v: JsonView| okex_arg(v).unwrap()))
        } else {
            None
        },
        _ => None,
    }
}

/// The request that a template of the third exchange holds: an operation
/// and a list of channels.
pub open spec fn okex_template(j: JsonView) -> Option<OkexReqParamView> {
    match (
        j.text_member("op"@),
        match j.member("args"@) {
            Some(v) => okex_args(v),
            None => None,
        },
    ) {
        (Some(op), Some(args)) => Some(OkexReqParamView { op, args }),
        _ => None,
    }
}

/// The JSON text of one channel of one pair.
pub open spec fn okex_arg_text(a: OkexReqParamArgView) -> Seq<char> {
    "{\"channel\":"@ + json_string(a.channel) + ",\"instId\":"@ + json_string(a.inst_id) + "}"@
}

/// The JSON text of a request to the third exchange.
pub open spec fn okex_text(p: OkexReqParamView) -> Seq<char> {
    "{\"op\":"@ + json_string(p.op) + ",\"args\":"@ + array_text(
        p.args.map_values(|a: OkexReqParamArgView| okex_arg_text(a)),
    ) + "}"@
}

impl OkexReqParamArg {
    /// Reads one channel from an object.
    pub fn from_json(data: &Json) -> (r: Option<OkexReqParamArg>)
        ensures
            match r {
                Some(a) => okex_arg(data@) == Some(a@),
                None => okex_arg(data@) is None,
            },
    {
        let channel = data.text_member("channel")?.clone();
        let inst_id = data.text_member("instId")?.clone();
        Some(OkexReqParamArg { channel, inst_id })
    }

    /// Writes the channel as a JSON text.
    pub fn to_json_text(&self) -> (r: Result<String, WSError>)
        ensures
            r matches Ok(s) && s@ == okex_arg_text(self@),
    {
        let mut out = String::from_str("{\"channel\":");
        write_string(&mut out, self.channel.as_str())?;
        out.append(",\"instId\":");
        write_string(&mut out, self.inst_id.as_str())?;
        out.append("}");
        Ok(out)
    }
}

impl OkexReqParam {
    /// Reads the request from a template.
    pub fn from_json(data: &Json) -> (r: Option<OkexReqParam>)
        ensures
            match r {
                Some(p) => okex_template(data@) == Some(p@),
                None => okex_template(data@) is None,
            },
    {
        let op = data.text_member("op")?.clone();
        let list = data.member("args")?;
        let items = list.items()?;
        let ghost all = list@->Array_0;
        let mut args: Vec<OkexReqParamArg> = Vec::new();
        let mut i: usize = 0;
        while i < items.len()
            invariant
                i <= items@.len(),
                data@.member("args"@) == Some(list@),
                list@ == JsonView::Array(all),
                all.len() == items@.len(),
                forall|k: int| 0 <= k < items@.len() ==> #[trigger] all[k] == items@[k]@,
                args@.len() == i,
                forall|k: int| 0 <= k < i ==> okex_arg(all[k]) == Some((#[trigger] args@[k])@),
            decreases items@.len() - i,
        {
            match OkexReqParamArg::from_json(&items[i]) {
                Some(a) => {
                    args.push(a);
                },
                None => {
                    assert(okex_arg(all[i as int]) is None);
                    return None;
                },
            }
            i += 1;
        }
        proof {
            assert forall|k: int| 0 <= k < all.len() implies okex_arg(#[trigger] all[k]) == Some(
                args@[k]@,
            ) by {}
            assert(args@.map_values(|a: OkexReqParamArg| a@) =~= all.map_values(
                |v: JsonView| okex_arg(v).unwrap(),
            ));
        }
        Some(OkexReqParam { op, args })
    }

    /// Writes the request as a JSON text.
    pub fn to_json_text(&self) -> (r: Result<String, WSError>)
        ensures
            r matches Ok(s) && s@ == okex_text(self@),
    {
        let mut texts: Vec<String> = Vec::new();
        let mut i: usize = 0;
        while i < self.args.len()
            invariant
                i <= self.args@.len(),
                texts@.len() == i,
                forall|k: int|
                    0 <= k < i ==> (#[trigger] texts@[k])@ == okex_arg_text(self.args@[k]@),
            decreases self.args@.len() - i,
        {
            texts.push(self.args[i].to_json_text()?);
            i += 1;
        }
        assert(strings(texts@) =~= self@.args.map_values(
            |a: OkexReqParamArgView| okex_arg_text(a),
        ));
        let mut out = String::from_str("{\"op\":");
        write_string(&mut out, self.op.as_str())?;
        out.append(",\"args\":");
        write_array(&mut out, &texts);
        out.append("}");
        Ok(out)
    }
}

} // verus!
