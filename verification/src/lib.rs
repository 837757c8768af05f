//! Verified core of a market-data collector: connection supervision
//! decisions, per-symbol order-book continuity tracking, REST-call
//! throttling, and normalization of exchange messages into a single
//! canonical record shape.
use vstd::prelude::*;

pub mod binance;
pub mod canon;
pub mod continuity;
pub mod dispatch;
pub mod jsonext;
pub mod num;
pub mod okx;
pub mod session;
pub mod supervisor;
pub mod text;
pub mod throttler;

verus! {

/// One record bound for the writer: the instant the payload was obtained
/// (milliseconds since the Unix epoch), the uppercase symbol it
/// concerns, and the payload text itself.
#[derive(Debug)]
pub struct Record {
    pub recv_time_ms: i64,
    pub symbol: String,
    pub payload: String,
}

/// The mathematical content of a list of records: receipt instant,
/// symbol and payload of each.
pub open spec fn record_views(rs: Seq<Record>) -> Seq<(i64, Seq<char>, Seq<char>)> {
    rs.map_values(|r: Record| (r.recv_time_ms, r.symbol@, r.payload@))
}

/// Why a frame could not be handled. The frame is dropped and the
/// session continues either way.
#[derive(PartialEq, Eq, Structural, Clone, Copy, Debug)]
pub enum CollectorError {
    /// The frame is not JSON.
    Parse,
    /// A required field is missing or of the wrong JSON type.
    Format,
}

} // verus!
