//! The OKX collector: classification of channel messages, continuity
//! over the exchange's own snapshot/update marking, and normalization
//! into the canonical Binance-style envelopes.
use vstd::prelude::*;

use crate::CollectorError;
use crate::Record;
use crate::record_views;
use crate::canon::{
    bbo_payload, bbo_payload_x, depth_payload, depth_payload_x, levels_view, trade_payload,
    trade_payload_x,
};
use crate::continuity::{ContinuityMap, lookup};
use crate::jsonext::{
    j_data_len, j_elem_arr_len, j_elem_pair, j_elem_str, j_has, j_parses, j_str1, j_str2,
    json_data_len, json_elem_arr_len, json_elem_pair, json_elem_str, json_has, json_parses,
    json_str1, json_str2,
};
use crate::num::parse_i64_spec;
use crate::num::parse_i64;
use crate::text::{canon_sym, canon_sym_x, esc, esc_x, str_eq, to_upper, to_upper_x};

verus! {

/// The numeric trade identifier: the parsed `tradeId`, or zero when it
/// is not a decimal number in range.
pub open spec fn tid_num(tid: Seq<char>) -> i64 {
    match parse_i64_spec(tid) {
        Some(v) => v as i64,
        None => 0,
    }
}

/// The canonical trade payload drawn from element `i` of a `trades`
/// message, when the element carries the four needed fields and its
/// `ts` is numeric.
pub open spec fn trade_result(t: Seq<char>, i: int, sym: Seq<char>, recv_ms: i64)
    -> Option<Seq<char>> {
    match j_elem_str(t, i, "tradeId"@) {
        Some(tid) => match j_elem_str(t, i, "px"@) {
            Some(px) => match j_elem_str(t, i, "sz"@) {
                Some(sz) => match j_elem_str(t, i, "ts"@) {
                    Some(ts_s) => match parse_i64_spec(ts_s) {
                        Some(ts) => Some(trade_payload(
                            sym, recv_ms, tid_num(tid), px, sz, ts as i64,
                        )),
                        None => None,
                    },
                    None => None,
                },
                None => None,
            },
            None => None,
        },
        None => None,
    }
}

/// The canonical best-bid-and-offer payload drawn from element `i` of
/// a `bbo-tbt` message, when a first level of each side and a numeric
/// `ts` are there.
pub open spec fn bbo_result(t: Seq<char>, i: int, sym: Seq<char>) -> Option<Seq<char>> {
    match j_elem_pair(t, i, "asks"@, 0) {
        Some(ask) => match j_elem_pair(t, i, "bids"@, 0) {
            Some(bid) => match j_elem_str(t, i, "ts"@) {
                Some(ts_s) => match parse_i64_spec(ts_s) {
                    Some(ts) => Some(bbo_payload(sym, ts as i64, bid.0, bid.1, ask.0, ask.1)),
                    None => None,
                },
                None => None,
            },
            None => None,
        },
        None => None,
    }
}

/// The first `n` levels of side `key` of element `i`, keeping those
/// whose first two entries are strings.
pub open spec fn levels_spec(t: Seq<char>, i: int, key: Seq<char>, n: int)
    -> Seq<(Seq<char>, Seq<char>)>
    decreases n,
{
    if n <= 0 {
        Seq::empty()
    } else {
        levels_spec(t, i, key, n - 1) + match j_elem_pair(t, i, key, n - 1) {
            Some(p) => seq![p],
            None => Seq::empty(),
        }
    }
}

/// The levels of side `key` of element `i`: empty when the side is
/// absent or not an array.
pub open spec fn side_levels(t: Seq<char>, i: int, key: Seq<char>)
    -> Seq<(Seq<char>, Seq<char>)> {
    match j_elem_arr_len(t, i, key) {
        Some(n) => levels_spec(t, i, key, n),
        None => Seq::empty(),
    }
}

/// The canonical depth payload of a snapshot element: both sides must
/// be arrays, `ts` numeric, and the batch bounds are both `ts`.
pub open spec fn snapshot_result(t: Seq<char>, i: int, sym: Seq<char>, recv_ms: i64)
    -> Option<Seq<char>> {
    if j_elem_arr_len(t, i, "asks"@) is Some && j_elem_arr_len(t, i, "bids"@) is Some {
        match j_elem_str(t, i, "ts"@) {
            Some(ts_s) => match parse_i64_spec(ts_s) {
                Some(ts) => Some(depth_payload(
                    sym,
                    recv_ms,
                    ts as i64,
                    ts as i64,
                    levels_spec(t, i, "bids"@, j_elem_arr_len(t, i, "bids"@).unwrap()),
                    levels_spec(t, i, "asks"@, j_elem_arr_len(t, i, "asks"@).unwrap()),
                )),
                None => None,
            },
            None => None,
        }
    } else {
        None
    }
}

/// The first sequence bound of an incremental update: the stored
/// sequence when one is on record, else one less than `ts` (wrapping
/// at the numeric floor).
pub open spec fn update_first(prev: Option<i64>, ts: i64) -> i64 {
    match prev {
        Some(p) => p,
        None => if ts == i64::MIN {
            i64::MAX
        } else {
            (ts - 1) as i64
        },
    }
}

/// The canonical depth payload of an incremental update element, and
/// the `ts` to store: present iff the element's `ts` is numeric.
/// Either side may be missing and is then empty.
pub open spec fn update_result(
    t: Seq<char>,
    i: int,
    sym: Seq<char>,
    recv_ms: i64,
    prev: Option<i64>,
) -> Option<(Seq<char>, i64)> {
    match j_elem_str(t, i, "ts"@) {
        Some(ts_s) => match parse_i64_spec(ts_s) {
            Some(ts) => Some((
                depth_payload(
                    sym,
                    recv_ms,
                    update_first(prev, ts as i64),
                    ts as i64,
                    side_levels(t, i, "bids"@),
                    side_levels(t, i, "asks"@),
                ),
                ts as i64,
            )),
            None => None,
        },
        None => None,
    }
}

/// The channel a message belongs to, or empty.
pub open spec fn okx_channel(t: Seq<char>) -> Seq<char> {
    match j_str2(t, "arg"@, "channel"@) {
        Some(c) => c,
        None => Seq::empty(),
    }
}

/// The instrument a message concerns, or empty.
pub open spec fn okx_inst(t: Seq<char>) -> Seq<char> {
    match j_str2(t, "arg"@, "instId"@) {
        Some(s) => s,
        None => Seq::empty(),
    }
}

/// The canonical symbol of a message: its instrument without dashes,
/// lowercased.
pub open spec fn okx_symbol(t: Seq<char>) -> Seq<char> {
    canon_sym(okx_inst(t))
}

/// Whether a message carries nothing to process: a subscription
/// acknowledgement or error event, no `arg`, or no `data` array.
pub open spec fn okx_skip(t: Seq<char>) -> bool {
    ||| j_str1(t, "event"@) == Some("subscribe"@)
    ||| j_str1(t, "event"@) == Some("error"@)
    ||| !j_has(t, "arg"@)
    ||| j_data_len(t) is None
}

/// Whether a depth channel message announces a snapshot boundary.
pub open spec fn okx_is_depth_channel(t: Seq<char>) -> bool {
    ||| okx_channel(t) == "books"@
    ||| okx_channel(t) == "books5"@
    ||| okx_channel(t) == "books-l2-tbt"@
}

/// What processing the first `n` elements of a message yields: the
/// records to emit (each under the uppercased symbol), the
/// instruments whose snapshot must be fetched, and the continuity map
/// afterwards.
pub open spec fn okx_scan(t: Seq<char>, recv_ms: i64, m: Map<Seq<char>, i64>, n: int)
    -> (Seq<(i64, Seq<char>, Seq<char>)>, Seq<Seq<char>>, Map<Seq<char>, i64>)
    decreases n,
{
    if n <= 0 {
        (Seq::empty(), Seq::empty(), m)
    } else {
        let (rs, fs, m1) = okx_scan(t, recv_ms, m, n - 1);
        let i = n - 1;
        let sym = okx_symbol(t);
        if okx_channel(t) == "trades"@ {
            match trade_result(t, i, sym, recv_ms) {
                Some(p) => (rs.push((recv_ms, to_upper(sym), p)), fs, m1),
                None => (rs, fs, m1),
            }
        } else if okx_channel(t) == "bbo-tbt"@ {
            match bbo_result(t, i, sym) {
                Some(p) => (rs.push((recv_ms, to_upper(sym), p)), fs, m1),
                None => (rs, fs, m1),
            }
        } else if okx_is_depth_channel(t) {
            if j_str1(t, "action"@) == Some("snapshot"@) {
                (rs, fs.push(okx_inst(t)), m1)
            } else if j_str1(t, "action"@) == Some("update"@) {
                match update_result(t, i, sym, recv_ms, lookup(m1, sym)) {
                    Some(pu) => (
                        rs.push((recv_ms, to_upper(sym), pu.0)),
                        fs,
                        m1.insert(sym, pu.1),
                    ),
                    None => (rs, fs, m1),
                }
            } else {
                (rs, fs, m1)
            }
        } else {
            (rs, fs, m1)
        }
    }
}

/// One snapshot fetch the collector asks of its caller: the exchange's
/// instrument name to fetch, and the canonical symbol whose continuity
/// state the result updates.
#[derive(Debug)]
pub struct SnapshotRequest {
    pub inst_id: String,
    pub symbol: String,
}

/// What handling one OKX message yields.
#[derive(Debug)]
pub struct OkxOutcome {
    /// The normalized records, in emission order.
    pub records: Vec<Record>,
    /// The snapshot fetches to dispatch through the throttler.
    pub fetches: Vec<SnapshotRequest>,
}

/// Writes the canonical trade payload of element `i`, when the element
/// is complete.
pub fn transform_trade(text: &str, i: usize, symbol: &str, recv_ms: i64) -> (r: Option<String>)
    ensures
        r is Some <==> trade_result(text@, i as int, symbol@, recv_ms) is Some,
        r matches Some(p) ==> trade_result(text@, i as int, symbol@, recv_ms) == Some(p@),
{
    let tid = match json_elem_str(text, i, "tradeId") {
        Some(x) => x,
        None => {
            return None;
        },
    };
    let px = match json_elem_str(text, i, "px") {
        Some(x) => x,
        None => {
            return None;
        },
    };
    let sz = match json_elem_str(text, i, "sz") {
        Some(x) => x,
        None => {
            return None;
        },
    };
    let ts_s = match json_elem_str(text, i, "ts") {
        Some(x) => x,
        None => {
            return None;
        },
    };
    let ts = match parse_i64(ts_s.as_str()) {
        Some(v) => v,
        None => {
            return None;
        },
    };
    let tid_v = match parse_i64(tid.as_str()) {
        Some(v) => v,
        None => 0,
    };
    Some(trade_payload_x(symbol, recv_ms, tid_v, px.as_str(), sz.as_str(), ts))
}

/// Writes the canonical best-bid-and-offer payload of element `i`,
/// when the element is complete.
pub fn transform_bbo(text: &str, i: usize, symbol: &str) -> (r: Option<String>)
    ensures
        r is Some <==> bbo_result(text@, i as int, symbol@) is Some,
        r matches Some(p) ==> bbo_result(text@, i as int, symbol@) == Some(p@),
{
    let ask = match json_elem_pair(text, i, "asks", 0) {
        Some(x) => x,
        None => {
            return None;
        },
    };
    let bid = match json_elem_pair(text, i, "bids", 0) {
        Some(x) => x,
        None => {
            return None;
        },
    };
    let ts_s = match json_elem_str(text, i, "ts") {
        Some(x) => x,
        None => {
            return None;
        },
    };
    let ts = match parse_i64(ts_s.as_str()) {
        Some(v) => v,
        None => {
            return None;
        },
    };
    Some(bbo_payload_x(symbol, ts, bid.0.as_str(), bid.1.as_str(), ask.0.as_str(), ask.1.as_str()))
}

/// Collects the well-formed levels of side `key` of element `i`, when
/// that side is an array.
fn collect_levels(text: &str, i: usize, key: &str) -> (r: Option<Vec<(String, String)>>)
    ensures
        r is Some <==> j_elem_arr_len(text@, i as int, key@) is Some,
        r matches Some(v) ==> levels_view(v@) == levels_spec(
            text@, i as int, key@, j_elem_arr_len(text@, i as int, key@).unwrap(),
        ),
{
    let n = match json_elem_arr_len(text, i, key) {
        Some(n) => n,
        None => {
            return None;
        },
    };
    let mut out: Vec<(String, String)> = Vec::new();
    let mut k: usize = 0;
    while k < n
        invariant
            k <= n,
            j_elem_arr_len(text@, i as int, key@) == Some(n as int),
            levels_view(out@) == levels_spec(text@, i as int, key@, k as int),
        decreases n - k,
    {
        match json_elem_pair(text, i, key, k) {
            Some(p) => {
                out.push(p);
                assert(levels_view(out@) =~= levels_spec(text@, i as int, key@, k as int + 1));
            },
            None => {
                assert(levels_view(out@) =~= levels_spec(text@, i as int, key@, k as int + 1));
            },
        }
        k += 1;
    }
    Some(out)
}

/// Writes the canonical depth payload of a snapshot element, with both
/// batch bounds at the element's `ts`.
pub fn transform_depth_snapshot(text: &str, i: usize, symbol: &str, recv_ms: i64)
    -> (r: Option<(String, i64)>)
    ensures
        r is Some <==> snapshot_result(text@, i as int, symbol@, recv_ms) is Some,
        r matches Some(p) ==> {
            &&& snapshot_result(text@, i as int, symbol@, recv_ms) == Some(p.0@)
            &&& Some(p.1) == ts_of(text@, i as int)
        },
{
    let asks = match collect_levels(text, i, "asks") {
        Some(v) => v,
        None => {
            return None;
        },
    };
    let bids = match collect_levels(text, i, "bids") {
        Some(v) => v,
        None => {
            return None;
        },
    };
    let ts_s = match json_elem_str(text, i, "ts") {
        Some(x) => x,
        None => {
            return None;
        },
    };
    let ts = match parse_i64(ts_s.as_str()) {
        Some(v) => v,
        None => {
            return None;
        },
    };
    Some((depth_payload_x(symbol, recv_ms, ts, ts, &bids, &asks), ts))
}

/// The numeric `ts` of element `i`, when it is there.
pub open spec fn ts_of(t: Seq<char>, i: int) -> Option<i64> {
    match j_elem_str(t, i, "ts"@) {
        Some(ts_s) => match parse_i64_spec(ts_s) {
            Some(ts) => Some(ts as i64),
            None => None,
        },
        None => None,
    }
}

/// Writes the canonical depth payload of an incremental update
/// element, given the stored sequence bound, and the `ts` to store.
pub fn transform_depth_update(
    text: &str,
    i: usize,
    symbol: &str,
    recv_ms: i64,
    prev: Option<i64>,
) -> (r: Option<(String, i64)>)
    ensures
        r is Some <==> update_result(text@, i as int, symbol@, recv_ms, prev) is Some,
        r matches Some(p) ==> update_result(text@, i as int, symbol@, recv_ms, prev)
            == Some((p.0@, p.1)),
{
    let ts_s = match json_elem_str(text, i, "ts") {
        Some(x) => x,
        None => {
            return None;
        },
    };
    let ts = match parse_i64(ts_s.as_str()) {
        Some(v) => v,
        None => {
            return None;
        },
    };
    let first: i64 = match prev {
        Some(p) => p,
        None => if ts == i64::MIN {
            i64::MAX
        } else {
            ts - 1
        },
    };
    let bids = match collect_levels(text, i, "bids") {
        Some(v) => v,
        None => Vec::new(),
    };
    let asks = match collect_levels(text, i, "asks") {
        Some(v) => v,
        None => Vec::new(),
    };
    proof {
        assert(levels_view(Seq::<(String, String)>::empty()) =~= Seq::<(Seq<char>, Seq<char>)>::empty());
    }
    Some((depth_payload_x(symbol, recv_ms, first, ts, &bids, &asks), ts))
}

/// Handles one OKX channel message: drops acknowledgements and
/// errors, normalizes trades, best-bid-and-offer and depth elements
/// into records filed under the uppercased symbol, threads the
/// per-symbol continuity state through incremental updates, and asks
/// for a snapshot fetch for each element of a snapshot-marked depth
/// message.
pub fn okx_step(map: &mut ContinuityMap, recv_ms: i64, text: &str)
    -> (r: Result<OkxOutcome, CollectorError>)
    requires
        old(map).wf(),
    ensures
        final(map).wf(),
        r is Err <==> !j_parses(text@),
        r matches Err(e) ==> e == CollectorError::Parse,
        r is Err ==> final(map)@ == old(map)@,
        r is Ok && okx_skip(text@) ==> {
            &&& r matches Ok(o) && o.records@.len() == 0 && o.fetches@.len() == 0
            &&& final(map)@ == old(map)@
        },
        r is Ok && !okx_skip(text@) ==> {
            let (rs, fs, m2) = okx_scan(text@, recv_ms, old(map)@, j_data_len(text@).unwrap());
            &&& r matches Ok(o)
            &&& record_views(o.records@) == rs
            &&& o.fetches@.map_values(|f: SnapshotRequest| f.inst_id@) == fs
            &&& (forall|j: int| 0 <= j < o.fetches@.len()
                ==> (#[trigger] o.fetches@[j]).symbol@ == okx_symbol(text@))
            &&& final(map)@ == m2
        },
{
    if !json_parses(text) {
        return Err(CollectorError::Parse);
    }
    let empty_outcome = || -> (o: OkxOutcome)
        ensures o.records@.len() == 0 && o.fetches@.len() == 0,
        { OkxOutcome { records: Vec::new(), fetches: Vec::new() } };
    if let Some(event) = json_str1(text, "event") {
        if str_eq(event.as_str(), "subscribe") {
            return Ok(empty_outcome());
        }
        if str_eq(event.as_str(), "error") {
            return Ok(empty_outcome());
        }
    }
    if !json_has(text, "arg") {
        return Ok(empty_outcome());
    }
    let n = match json_data_len(text) {
        Some(n) => n,
        None => {
            return Ok(empty_outcome());
        },
    };
    let channel = match json_str2(text, "arg", "channel") {
        Some(c) => c,
        None => String::new(),
    };
    let inst = match json_str2(text, "arg", "instId") {
        Some(s) => s,
        None => String::new(),
    };
    let symbol = canon_sym_x(inst.as_str());
    let symbol_u = to_upper_x(symbol.as_str());
    let is_trades = str_eq(channel.as_str(), "trades");
    let is_bbo = str_eq(channel.as_str(), "bbo-tbt");
    let is_depth = str_eq(channel.as_str(), "books") || str_eq(channel.as_str(), "books5")
        || str_eq(channel.as_str(), "books-l2-tbt");
    let action = json_str1(text, "action");
    let is_snapshot = match &action {
        Some(a) => str_eq(a.as_str(), "snapshot"),
        None => false,
    };
    let is_update = match &action {
        Some(a) => str_eq(a.as_str(), "update"),
        None => false,
    };
    let mut records: Vec<Record> = Vec::new();
    let mut fetches: Vec<SnapshotRequest> = Vec::new();
    let ghost m0 = map@;
    let ghost t = text@;
    let mut i: usize = 0;
    while i < n
        invariant
            i <= n,
            map.wf(),
            t == text@,
            j_data_len(t) == Some(n as int),
            channel@ == okx_channel(t),
            inst@ == okx_inst(t),
            symbol@ == okx_symbol(t),
            symbol_u@ == to_upper(okx_symbol(t)),
            is_trades == (okx_channel(t) == "trades"@),
            is_bbo == (okx_channel(t) == "bbo-tbt"@),
            is_depth == okx_is_depth_channel(t),
            is_snapshot == (j_str1(t, "action"@) == Some("snapshot"@)),
            is_update == (j_str1(t, "action"@) == Some("update"@)),
            okx_scan(t, recv_ms, m0, i as int) == (
                record_views(records@),
                fetches@.map_values(|f: SnapshotRequest| f.inst_id@),
                map@,
            ),
            forall|j: int| 0 <= j < fetches@.len()
                ==> (#[trigger] fetches@[j]).symbol@ == okx_symbol(t),
        decreases n - i,
    {
        let ghost step_pre = (
            record_views(records@),
            fetches@.map_values(|f: SnapshotRequest| f.inst_id@),
            map@,
        );
        if is_trades {
            match transform_trade(text, i, symbol.as_str(), recv_ms) {
                Some(p) => {
                    records.push(Record {
                        recv_time_ms: recv_ms,
                        symbol: symbol_u.clone(),
                        payload: p,
                    });
                    proof {
                        assert(record_views(records@)
                            =~= step_pre.0.push((recv_ms, symbol_u@, records@.last().payload@)));
                    }
                },
                None => {},
            }
        } else if is_bbo {
            match transform_bbo(text, i, symbol.as_str()) {
                Some(p) => {
                    records.push(Record {
                        recv_time_ms: recv_ms,
                        symbol: symbol_u.clone(),
                        payload: p,
                    });
                    proof {
                        assert(record_views(records@)
                            =~= step_pre.0.push((recv_ms, symbol_u@, records@.last().payload@)));
                    }
                },
                None => {},
            }
        } else if is_depth {
            if is_snapshot {
                fetches.push(SnapshotRequest { inst_id: inst.clone(), symbol: symbol.clone() });
                proof {
                    assert(fetches@.map_values(|f: SnapshotRequest| f.inst_id@)
                        =~= step_pre.1.push(inst@));
                }
            } else if is_update {
                let prev = map.get(symbol.as_str());
                match transform_depth_update(text, i, symbol.as_str(), recv_ms, prev) {
                    Some(pu) => {
                        map.set(symbol.as_str(), pu.1);
                        records.push(Record {
                            recv_time_ms: recv_ms,
                            symbol: symbol_u.clone(),
                            payload: pu.0,
                        });
                        proof {
                            assert(record_views(records@)
                                =~= step_pre.0.push((recv_ms, symbol_u@, records@.last().payload@)));
                        }
                    },
                    None => {},
                }
            }
        }
        i += 1;
        proof {
            assert(record_views(records@) =~= okx_scan(t, recv_ms, m0, i as int).0);
            assert(fetches@.map_values(|f: SnapshotRequest| f.inst_id@)
                =~= okx_scan(t, recv_ms, m0, i as int).1);
            assert(map@ =~= okx_scan(t, recv_ms, m0, i as int).2);
        }
    }
    Ok(OkxOutcome { records, fetches })
}

/// The instrument names of the first `n` elements of an instrument
/// listing, keeping the elements that carry one.
pub open spec fn inst_ids_spec(t: Seq<char>, n: int) -> Seq<Seq<char>>
    decreases n,
{
    if n <= 0 {
        Seq::empty()
    } else {
        inst_ids_spec(t, n - 1) + match j_elem_str(t, n - 1, "instId"@) {
            Some(s) => seq![s],
            None => Seq::empty(),
        }
    }
}

/// Reads the instrument names out of an instrument-listing response:
/// the `instId` of every element of its `data` array that has one,
/// and nothing at all when the body has no such array.
pub fn instrument_ids(text: &str) -> (r: Vec<String>)
    ensures
        texts_view(r@) == match j_data_len(text@) {
            Some(n) => inst_ids_spec(text@, n),
            None => Seq::<Seq<char>>::empty(),
        },
{
    let mut out: Vec<String> = Vec::new();
    let n = match json_data_len(text) {
        Some(n) => n,
        None => {
            proof {
                assert(texts_view(out@) =~= Seq::<Seq<char>>::empty());
            }
            return out;
        },
    };
    let mut i: usize = 0;
    while i < n
        invariant
            i <= n,
            j_data_len(text@) == Some(n as int),
            texts_view(out@) == inst_ids_spec(text@, i as int),
        decreases n - i,
    {
        match json_elem_str(text, i, "instId") {
            Some(s) => {
                out.push(s);
                assert(texts_view(out@) =~= inst_ids_spec(text@, i as int + 1));
            },
            None => {
                assert(texts_view(out@) =~= inst_ids_spec(text@, i as int + 1));
            },
        }
        i += 1;
    }
    out
}

/// One subscription argument: a channel bound to an instrument.
pub open spec fn sub_arg(ch: Seq<char>, inst: Seq<char>) -> Seq<char> {
    "{\"channel\":\""@ + esc(ch) + "\",\"instId\":\""@ + esc(inst) + "\"}"@
}

/// The subscription arguments of one instrument, one per channel, in
/// channel order.
pub open spec fn inst_args(channels: Seq<Seq<char>>, inst: Seq<char>) -> Seq<Seq<char>>
    decreases channels.len(),
{
    if channels.len() == 0 {
        Seq::empty()
    } else {
        inst_args(channels.drop_last(), inst).push(sub_arg(channels.last(), inst))
    }
}

/// All subscription arguments: instruments outermost, channels within.
pub open spec fn all_args(channels: Seq<Seq<char>>, insts: Seq<Seq<char>>) -> Seq<Seq<char>>
    decreases insts.len(),
{
    if insts.len() == 0 {
        Seq::empty()
    } else {
        all_args(channels, insts.drop_last()) + inst_args(channels, insts.last())
    }
}

/// Texts joined with commas.
pub open spec fn comma_join(xs: Seq<Seq<char>>) -> Seq<char>
    decreases xs.len(),
{
    if xs.len() == 0 {
        Seq::empty()
    } else if xs.len() == 1 {
        xs[0]
    } else {
        comma_join(xs.drop_last()) + ","@ + xs.last()
    }
}

/// The first outbound frame of a session: one subscription argument
/// for every channel of every instrument.
pub open spec fn subscribe_payload(channels: Seq<Seq<char>>, insts: Seq<Seq<char>>)
    -> Seq<char> {
    "{\"op\":\"subscribe\",\"args\":["@ + comma_join(all_args(channels, insts)) + "]}"@
}

/// The views of a list of owned texts.
pub open spec fn texts_view(xs: Seq<String>) -> Seq<Seq<char>> {
    xs.map_values(|x: String| x@)
}

/// Writes the subscription frame for the given channels and
/// instruments.
pub fn subscribe_payload_x(channels: &Vec<String>, insts: &Vec<String>) -> (r: String)
    ensures
        r@ == subscribe_payload(texts_view(channels@), texts_view(insts@)),
{
    let ghost chs = texts_view(channels@);
    let ghost ins = texts_view(insts@);
    let mut out = String::new();
    out.append("{\"op\":\"subscribe\",\"args\":[");
    let ghost mut acc: Seq<Seq<char>> = Seq::empty();
    let mut first = true;
    let n = insts.len();
    let m = channels.len();
    let mut i: usize = 0;
    while i < n
        invariant
            i <= n,
            n == ins.len(),
            m == chs.len(),
            chs == texts_view(channels@),
            ins == texts_view(insts@),
            acc == all_args(chs, ins.take(i as int)),
            first == (acc.len() == 0),
            out@ == "{\"op\":\"subscribe\",\"args\":["@ + comma_join(acc),
        decreases n - i,
    {
        let mut j: usize = 0;
        while j < m
            invariant
                i < n,
                j <= m,
                n == ins.len(),
                m == chs.len(),
                chs == texts_view(channels@),
                ins == texts_view(insts@),
                acc == all_args(chs, ins.take(i as int)) + inst_args(chs.take(j as int), ins[i as int]),
                first == (acc.len() == 0),
                out@ == "{\"op\":\"subscribe\",\"args\":["@ + comma_join(acc),
            decreases m - j,
        {
            let ghost arg = sub_arg(chs[j as int], ins[i as int]);
            if !first {
                out.append(",");
            }
            out.append("{\"channel\":\"");
            out.append(esc_x(channels[j].as_str()).as_str());
            out.append("\",\"instId\":\"");
            out.append(esc_x(insts[i].as_str()).as_str());
            out.append("\"}");
            proof {
                assert(acc.push(arg).drop_last() =~= acc);
                if acc.len() > 0 {
                    assert(comma_join(acc.push(arg)) == comma_join(acc) + ","@ + arg);
                } else {
                    assert(comma_join(acc.push(arg)) == arg);
                    assert(comma_join(acc) =~= Seq::<char>::empty());
                }
                acc = acc.push(arg);
                assert(out@ =~= "{\"op\":\"subscribe\",\"args\":["@ + comma_join(acc));
            }
            first = false;
            j += 1;
            proof {
                assert(chs.take(j as int).drop_last() =~= chs.take(j as int - 1));
                assert(acc =~= all_args(chs, ins.take(i as int))
                    + inst_args(chs.take(j as int), ins[i as int]));
            }
        }
        i += 1;
        proof {
            assert(chs.take(m as int) =~= chs);
            assert(ins.take(i as int).drop_last() =~= ins.take(i as int - 1));
            assert(ins.take(i as int).last() == ins[i as int - 1]);
            assert(acc =~= all_args(chs, ins.take(i as int)));
        }
    }
    proof {
        assert(ins.take(n as int) =~= ins);
    }
    out.append("]}");
    assert(out@ =~= subscribe_payload(chs, ins));
    out
}

/// Files a fetched snapshot: when the snapshot text carries a data
/// element that normalizes, stores its `ts` for the symbol and hands
/// back the canonical record, filed under the uppercased symbol;
/// otherwise changes nothing.
pub fn apply_snapshot(map: &mut ContinuityMap, symbol: &str, snapshot: &str, recv_ms: i64)
    -> (r: Option<Record>)
    requires
        old(map).wf(),
    ensures
        final(map).wf(),
        ({
            let ok = j_data_len(snapshot@) matches Some(n) && n >= 1
                && snapshot_result(snapshot@, 0, symbol@, recv_ms) is Some;
            &&& r is Some <==> ok
            &&& r matches Some(rec) ==> {
                &&& rec.recv_time_ms == recv_ms
                &&& rec.symbol@ == to_upper(symbol@)
                &&& Some(rec.payload@) == snapshot_result(snapshot@, 0, symbol@, recv_ms)
                &&& final(map)@ == old(map)@.insert(symbol@, ts_of(snapshot@, 0).unwrap())
            }
            &&& r is None ==> final(map)@ == old(map)@
        }),
{
    let n = match json_data_len(snapshot) {
        Some(n) => n,
        None => {
            return None;
        },
    };
    if n == 0 {
        return None;
    }
    match transform_depth_snapshot(snapshot, 0, symbol, recv_ms) {
        Some(pt) => {
            map.set(symbol, pt.1);
            Some(Record {
                recv_time_ms: recv_ms,
                symbol: to_upper_x(symbol),
                payload: pt.0,
            })
        },
        None => None,
    }
}

} // verus!
