//! The canonical record payloads: Binance-style combined-stream
//! envelopes, written out as exact JSON text.
use vstd::prelude::*;

use crate::num::{dec_int, i64_to_string};
use crate::text::{esc, esc_x, to_upper, to_upper_x};

verus! {

/// One price level as canonical JSON: `["price","qty"]`.
pub open spec fn level_json(l: (Seq<char>, Seq<char>)) -> Seq<char> {
    "[\""@ + esc(l.0) + "\",\""@ + esc(l.1) + "\"]"@
}

/// The comma-separated levels between the brackets.
pub open spec fn levels_inner(ls: Seq<(Seq<char>, Seq<char>)>) -> Seq<char>
    decreases ls.len(),
{
    if ls.len() == 0 {
        Seq::empty()
    } else if ls.len() == 1 {
        level_json(ls[0])
    } else {
        levels_inner(ls.drop_last()) + ","@ + level_json(ls.last())
    }
}

/// A side of the book as canonical JSON: `[["p","q"],...]`.
pub open spec fn levels_json(ls: Seq<(Seq<char>, Seq<char>)>) -> Seq<char> {
    "["@ + levels_inner(ls) + "]"@
}

/// The canonical trade payload.
pub open spec fn trade_payload(
    sym: Seq<char>,
    recv_ms: i64,
    trade_id: i64,
    px: Seq<char>,
    sz: Seq<char>,
    ts: i64,
) -> Seq<char> {
    "{\"stream\":\""@ + esc(sym) + "@trade\",\"data\":{\"e\":\"trade\",\"E\":"@
        + dec_int(recv_ms as int) + ",\"s\":\""@ + esc(to_upper(sym)) + "\",\"t\":"@
        + dec_int(trade_id as int) + ",\"p\":\""@ + esc(px) + "\",\"q\":\""@ + esc(sz)
        + "\",\"T\":"@ + dec_int(ts as int) + "}}"@
}

/// The canonical best-bid-and-offer payload.
pub open spec fn bbo_payload(
    sym: Seq<char>,
    ts: i64,
    bid_px: Seq<char>,
    bid_qty: Seq<char>,
    ask_px: Seq<char>,
    ask_qty: Seq<char>,
) -> Seq<char> {
    "{\"stream\":\""@ + esc(sym) + "@bookTicker\",\"data\":{\"u\":"@ + dec_int(ts as int)
        + ",\"s\":\""@ + esc(to_upper(sym)) + "\",\"b\":\""@ + esc(bid_px) + "\",\"B\":\""@
        + esc(bid_qty) + "\",\"a\":\""@ + esc(ask_px) + "\",\"A\":\""@ + esc(ask_qty)
        + "\"}}"@
}

/// The canonical depth payload, bids before asks.
pub open spec fn depth_payload(
    sym: Seq<char>,
    recv_ms: i64,
    first_seq: i64,
    last_seq: i64,
    bids: Seq<(Seq<char>, Seq<char>)>,
    asks: Seq<(Seq<char>, Seq<char>)>,
) -> Seq<char> {
    "{\"stream\":\""@ + esc(sym) + "@depth\",\"data\":{\"e\":\"depthUpdate\",\"E\":"@
        + dec_int(recv_ms as int) + ",\"s\":\""@ + esc(to_upper(sym)) + "\",\"U\":"@
        + dec_int(first_seq as int) + ",\"u\":"@ + dec_int(last_seq as int) + ",\"b\":"@
        + levels_json(bids) + ",\"a\":"@ + levels_json(asks) + "}}"@
}

/// The text that names the symbol inside a canonical payload: the `s`
/// field opened with the uppercased symbol.
pub open spec fn symbol_field(sym: Seq<char>) -> Seq<char> {
    "\"s\":\""@ + esc(to_upper(sym))
}

/// Record well-formedness, trade side: the payload carries the
/// uppercased symbol as its `s` field.
pub proof fn lemma_trade_symbol_field(
    sym: Seq<char>,
    recv_ms: i64,
    trade_id: i64,
    px: Seq<char>,
    sz: Seq<char>,
    ts: i64,
)
    ensures
        exists|pre: Seq<char>, post: Seq<char>|
            trade_payload(sym, recv_ms, trade_id, px, sz, ts)
                == pre + symbol_field(sym) + post,
{
    reveal_strlit(",\"s\":\"");
    reveal_strlit("\"s\":\"");
    reveal_strlit(",");
    let pre = "{\"stream\":\""@ + esc(sym) + "@trade\",\"data\":{\"e\":\"trade\",\"E\":"@
        + dec_int(recv_ms as int) + ","@;
    let post = "\",\"t\":"@ + dec_int(trade_id as int) + ",\"p\":\""@ + esc(px) + "\",\"q\":\""@
        + esc(sz) + "\",\"T\":"@ + dec_int(ts as int) + "}}"@;
    assert(",\"s\":\""@ =~= ","@ + "\"s\":\""@);
    assert(trade_payload(sym, recv_ms, trade_id, px, sz, ts)
        =~= pre + symbol_field(sym) + post);
}

/// Record well-formedness, best-bid-and-offer side.
pub proof fn lemma_bbo_symbol_field(
    sym: Seq<char>,
    ts: i64,
    bid_px: Seq<char>,
    bid_qty: Seq<char>,
    ask_px: Seq<char>,
    ask_qty: Seq<char>,
)
    ensures
        exists|pre: Seq<char>, post: Seq<char>|
            bbo_payload(sym, ts, bid_px, bid_qty, ask_px, ask_qty)
                == pre + symbol_field(sym) + post,
{
    reveal_strlit(",\"s\":\"");
    reveal_strlit("\"s\":\"");
    reveal_strlit(",");
    let pre = "{\"stream\":\""@ + esc(sym) + "@bookTicker\",\"data\":{\"u\":"@
        + dec_int(ts as int) + ","@;
    let post = "\",\"b\":\""@ + esc(bid_px) + "\",\"B\":\""@ + esc(bid_qty) + "\",\"a\":\""@
        + esc(ask_px) + "\",\"A\":\""@ + esc(ask_qty) + "\"}}"@;
    assert(",\"s\":\""@ =~= ","@ + "\"s\":\""@);
    assert(bbo_payload(sym, ts, bid_px, bid_qty, ask_px, ask_qty)
        =~= pre + symbol_field(sym) + post);
}

/// Record well-formedness, depth side.
pub proof fn lemma_depth_symbol_field(
    sym: Seq<char>,
    recv_ms: i64,
    first_seq: i64,
    last_seq: i64,
    bids: Seq<(Seq<char>, Seq<char>)>,
    asks: Seq<(Seq<char>, Seq<char>)>,
)
    ensures
        exists|pre: Seq<char>, post: Seq<char>|
            depth_payload(sym, recv_ms, first_seq, last_seq, bids, asks)
                == pre + symbol_field(sym) + post,
{
    reveal_strlit(",\"s\":\"");
    reveal_strlit("\"s\":\"");
    reveal_strlit(",");
    let pre = "{\"stream\":\""@ + esc(sym)
        + "@depth\",\"data\":{\"e\":\"depthUpdate\",\"E\":"@ + dec_int(recv_ms as int) + ","@;
    let post = "\",\"U\":"@ + dec_int(first_seq as int) + ",\"u\":"@ + dec_int(last_seq as int)
        + ",\"b\":"@ + levels_json(bids) + ",\"a\":"@ + levels_json(asks) + "}}"@;
    assert(",\"s\":\""@ =~= ","@ + "\"s\":\""@);
    assert(depth_payload(sym, recv_ms, first_seq, last_seq, bids, asks)
        =~= pre + symbol_field(sym) + post);
}

/// The view of a list of owned levels.
pub open spec fn levels_view(ls: Seq<(String, String)>) -> Seq<(Seq<char>, Seq<char>)> {
    ls.map_values(|l: (String, String)| (l.0@, l.1@))
}

/// Writes a side of the book as canonical JSON text.
pub fn levels_json_x(ls: &Vec<(String, String)>) -> (r: String)
    ensures
        r@ == levels_json(levels_view(ls@)),
{
    let mut out = String::new();
    out.append("[");
    let n = ls.len();
    let mut i: usize = 0;
    while i < n
        invariant
            i <= n,
            n == ls@.len(),
            out@ == "["@ + levels_inner(levels_view(ls@).take(i as int)),
        decreases n - i,
    {
        let ghost pre = levels_view(ls@).take(i as int);
        let ghost cur = levels_view(ls@).take(i as int + 1);
        assert(cur.drop_last() =~= pre);
        if i > 0 {
            out.append(",");
        }
        out.append("[\"");
        out.append(esc_x(ls[i].0.as_str()).as_str());
        out.append("\",\"");
        out.append(esc_x(ls[i].1.as_str()).as_str());
        out.append("\"]");
        i += 1;
        assert(out@ =~= "["@ + levels_inner(cur));
    }
    assert(levels_view(ls@).take(n as int) =~= levels_view(ls@));
    out.append("]");
    assert(out@ =~= levels_json(levels_view(ls@)));
    out
}

/// Writes the canonical trade payload.
pub fn trade_payload_x(sym: &str, recv_ms: i64, trade_id: i64, px: &str, sz: &str, ts: i64)
    -> (r: String)
    ensures
        r@ == trade_payload(sym@, recv_ms, trade_id, px@, sz@, ts),
{
    let mut out = String::new();
    out.append("{\"stream\":\"");
    out.append(esc_x(sym).as_str());
    out.append("@trade\",\"data\":{\"e\":\"trade\",\"E\":");
    out.append(i64_to_string(recv_ms).as_str());
    out.append(",\"s\":\"");
    out.append(esc_x(to_upper_x(sym).as_str()).as_str());
    out.append("\",\"t\":");
    out.append(i64_to_string(trade_id).as_str());
    out.append(",\"p\":\"");
    out.append(esc_x(px).as_str());
    out.append("\",\"q\":\"");
    out.append(esc_x(sz).as_str());
    out.append("\",\"T\":");
    out.append(i64_to_string(ts).as_str());
    out.append("}}");
    assert(out@ =~= trade_payload(sym@, recv_ms, trade_id, px@, sz@, ts));
    out
}

/// Writes the canonical best-bid-and-offer payload.
pub fn bbo_payload_x(sym: &str, ts: i64, bid_px: &str, bid_qty: &str, ask_px: &str, ask_qty: &str)
    -> (r: String)
    ensures
        r@ == bbo_payload(sym@, ts, bid_px@, bid_qty@, ask_px@, ask_qty@),
{
    let mut out = String::new();
    out.append("{\"stream\":\"");
    out.append(esc_x(sym).as_str());
    out.append("@bookTicker\",\"data\":{\"u\":");
    out.append(i64_to_string(ts).as_str());
    out.append(",\"s\":\"");
    out.append(esc_x(to_upper_x(sym).as_str()).as_str());
    out.append("\",\"b\":\"");
    out.append(esc_x(bid_px).as_str());
    out.append("\",\"B\":\"");
    out.append(esc_x(bid_qty).as_str());
    out.append("\",\"a\":\"");
    out.append(esc_x(ask_px).as_str());
    out.append("\",\"A\":\"");
    out.append(esc_x(ask_qty).as_str());
    out.append("\"}}");
    assert(out@ =~= bbo_payload(sym@, ts, bid_px@, bid_qty@, ask_px@, ask_qty@));
    out
}

/// Writes the canonical depth payload.
pub fn depth_payload_x(
    sym: &str,
    recv_ms: i64,
    first_seq: i64,
    last_seq: i64,
    bids: &Vec<(String, String)>,
    asks: &Vec<(String, String)>,
) -> (r: String)
    ensures
        r@ == depth_payload(
            sym@, recv_ms, first_seq, last_seq, levels_view(bids@), levels_view(asks@),
        ),
{
    let mut out = String::new();
    out.append("{\"stream\":\"");
    out.append(esc_x(sym).as_str());
    out.append("@depth\",\"data\":{\"e\":\"depthUpdate\",\"E\":");
    out.append(i64_to_string(recv_ms).as_str());
    out.append(",\"s\":\"");
    out.append(esc_x(to_upper_x(sym).as_str()).as_str());
    out.append("\",\"U\":");
    out.append(i64_to_string(first_seq).as_str());
    out.append(",\"u\":");
    out.append(i64_to_string(last_seq).as_str());
    out.append(",\"b\":");
    out.append(levels_json_x(bids).as_str());
    out.append(",\"a\":");
    out.append(levels_json_x(asks).as_str());
    out.append("}}");
    assert(out@ =~= depth_payload(
        sym@, recv_ms, first_seq, last_seq, levels_view(bids@), levels_view(asks@),
    ));
    out
}

} // verus!
