//! The Binance-family collector: classification of combined-stream
//! frames, symbol extraction, depth continuity, and the repair
//! decision.
use vstd::prelude::*;

use crate::CollectorError;
use crate::Record;
use crate::continuity::{ContinuityMap, gap, gap_x, lookup};
use crate::jsonext::{
    j_has, j_has2, j_i64_2, j_is_obj, j_parses, j_str1, j_str2, json_has, json_has2,
    json_i64_2, json_is_obj, json_parses, json_str1, json_str2,
};
use crate::text::{stream_prefix, stream_prefix_x, str_eq, to_upper, to_upper_x};

verus! {

/// What handling one frame asks of the caller: a record to forward,
/// and possibly a symbol whose depth snapshot must be fetched.
#[derive(Debug)]
pub struct FrameOutcome {
    /// The frame itself, stamped and tagged, bound for the writer.
    pub record: Option<Record>,
    /// The symbol of a detected gap, for an asynchronous repair fetch.
    pub repair: Option<String>,
}

/// The symbol a frame concerns: the `s` field of its `data` object
/// when present, else the part of the combined stream name before the
/// first `@`, uppercased. Nothing when the involved field is absent or
/// of the wrong type.
pub open spec fn b_sym(t: Seq<char>) -> Option<Seq<char>> {
    if j_has2(t, "data"@, "s"@) {
        j_str2(t, "data"@, "s"@)
    } else if j_has(t, "stream"@) {
        match j_str1(t, "stream"@) {
            Some(st) => Some(to_upper(stream_prefix(st))),
            None => None,
        }
    } else {
        None
    }
}

/// Whether the frame is a depth update: its `data.e` field says so.
pub open spec fn b_is_depth(t: Seq<char>) -> bool {
    j_has2(t, "data"@, "e"@) && j_str2(t, "data"@, "e"@) == Some("depthUpdate"@)
}

/// The error a frame earns, checked in the order the handler checks:
/// not JSON; no error (but nothing forwarded) when `data` is absent;
/// `data` not an object; no usable symbol; an `e` field that is not a
/// string; a depth update without numeric `u` and `U`.
pub open spec fn b_error(t: Seq<char>) -> Option<CollectorError> {
    if !j_parses(t) {
        Some(CollectorError::Parse)
    } else if !j_has(t, "data"@) {
        None
    } else if !j_is_obj(t, "data"@) {
        Some(CollectorError::Format)
    } else if b_sym(t) is None {
        Some(CollectorError::Format)
    } else if j_has2(t, "data"@, "e"@) && j_str2(t, "data"@, "e"@) is None {
        Some(CollectorError::Format)
    } else if b_is_depth(t) && (j_i64_2(t, "data"@, "u"@) is None
            || j_i64_2(t, "data"@, "U"@) is None) {
        Some(CollectorError::Format)
    } else {
        None
    }
}

/// Handles one frame of a Binance-family combined stream.
///
/// A frame with a `data` object is always forwarded verbatim, tagged
/// with its symbol and receipt time. A depth update additionally moves
/// the symbol's continuity state to its `u`, and asks for a snapshot
/// repair iff a previous sequence number was on record and the
/// batch's `U` exceeds it by more than one.
pub fn handle_frame(map: &mut ContinuityMap, recv_time_ms: i64, text: &str)
    -> (r: Result<FrameOutcome, CollectorError>)
    requires
        old(map).wf(),
    ensures
        final(map).wf(),
        r is Err <==> b_error(text@) is Some,
        r matches Err(e) ==> b_error(text@) == Some(e),
        r is Err ==> final(map)@ == old(map)@,
        r is Ok && !j_has(text@, "data"@) ==> {
            &&& r matches Ok(o) && o.record is None && o.repair is None
            &&& final(map)@ == old(map)@
        },
        r is Ok && j_has(text@, "data"@) ==> {
            &&& r matches Ok(o)
            &&& o.record matches Some(rec)
                && rec.recv_time_ms == recv_time_ms
                && Some(rec.symbol@) == b_sym(text@)
                && rec.payload@ == text@
            &&& b_is_depth(text@) ==> {
                &&& final(map)@ == old(map)@.insert(
                    b_sym(text@).unwrap(),
                    j_i64_2(text@, "data"@, "u"@).unwrap(),
                )
                &&& (o.repair is Some <==> gap(
                    lookup(old(map)@, b_sym(text@).unwrap()),
                    j_i64_2(text@, "data"@, "U"@).unwrap(),
                ))
                &&& o.repair matches Some(s) ==> Some(s@) == b_sym(text@)
            }
            &&& !b_is_depth(text@) ==> final(map)@ == old(map)@ && o.repair is None
        },
{
    if !json_parses(text) {
        return Err(CollectorError::Parse);
    }
    if !json_has(text, "data") {
        return Ok(FrameOutcome { record: None, repair: None });
    }
    if !json_is_obj(text, "data") {
        return Err(CollectorError::Format);
    }
    let symbol: String = if json_has2(text, "data", "s") {
        match json_str2(text, "data", "s") {
            Some(s) => s,
            None => {
                return Err(CollectorError::Format);
            },
        }
    } else if json_has(text, "stream") {
        match json_str1(text, "stream") {
            Some(st) => to_upper_x(stream_prefix_x(st.as_str()).as_str()),
            None => {
                return Err(CollectorError::Format);
            },
        }
    } else {
        return Err(CollectorError::Format);
    };
    let mut repair: Option<String> = None;
    if json_has2(text, "data", "e") {
        let ev = match json_str2(text, "data", "e") {
            Some(e) => e,
            None => {
                return Err(CollectorError::Format);
            },
        };
        if str_eq(ev.as_str(), "depthUpdate") {
            let u = match json_i64_2(text, "data", "u") {
                Some(u) => u,
                None => {
                    return Err(CollectorError::Format);
                },
            };
            let first = match json_i64_2(text, "data", "U") {
                Some(x) => x,
                None => {
                    return Err(CollectorError::Format);
                },
            };
            let prev = map.get(symbol.as_str());
            if gap_x(prev, first) {
                repair = Some(symbol.clone());
            }
            map.set(symbol.as_str(), u);
        }
    }
    let rec = Record { recv_time_ms, symbol, payload: String::from_str(text) };
    Ok(FrameOutcome { record: Some(rec), repair })
}

/// What a finished repair task hands the writer: the snapshot text, if
/// the fetch was granted and succeeded, stamped with the instant it
/// was obtained; nothing when it was skipped or failed.
pub fn repair_record(symbol: String, snapshot: Option<String>, now_ms: i64)
    -> (r: Option<Record>)
    ensures
        r is Some <==> snapshot is Some,
        r matches Some(rec) ==> {
            &&& rec.recv_time_ms == now_ms
            &&& rec.symbol == symbol
            &&& snapshot matches Some(s) && rec.payload == s
        },
{
    match snapshot {
        Some(s) => Some(Record { recv_time_ms: now_ms, symbol, payload: s }),
        None => None,
    }
}

} // verus!
