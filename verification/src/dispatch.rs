//! The main dispatcher's decisions: which collector family an exchange
//! name selects, the instrument form each exchange wants its symbols
//! in, and the writer loop's reaction to each of its events.
use vstd::prelude::*;

use crate::Record;
use crate::text::{has_suffix, has_suffix_x, str_eq, take_prefix, to_upper, to_upper_x};

verus! {

/// The collector families the dispatcher can spawn.
#[derive(PartialEq, Eq, Structural, Clone, Copy, Debug)]
pub enum Exchange {
    /// Binance spot.
    BinanceSpot,
    /// Binance USD(S)-margined futures.
    BinanceFuturesUm,
    /// Binance coin-margined futures.
    BinanceFuturesCm,
    /// Bybit perpetual contracts.
    BybitLinear,
    /// Bybit spot.
    BybitSpot,
    /// Hyperliquid.
    Hyperliquid,
    /// OKX spot.
    OkxSpot,
    /// OKX perpetual swap.
    OkxSwap,
}

/// The collector family an exchange name selects, when it names one.
pub open spec fn exchange_of(n: Seq<char>) -> Option<Exchange> {
    if n == "binancefutures"@ || n == "binancefuturesum"@ {
        Some(Exchange::BinanceFuturesUm)
    } else if n == "binancefuturescm"@ {
        Some(Exchange::BinanceFuturesCm)
    } else if n == "binance"@ || n == "binancespot"@ {
        Some(Exchange::BinanceSpot)
    } else if n == "bybit"@ {
        Some(Exchange::BybitLinear)
    } else if n == "bybitspot"@ {
        Some(Exchange::BybitSpot)
    } else if n == "hyperliquid"@ {
        Some(Exchange::Hyperliquid)
    } else if n == "okx"@ || n == "okxspot"@ {
        Some(Exchange::OkxSpot)
    } else if n == "okxswap"@ || n == "okxfutures"@ {
        Some(Exchange::OkxSwap)
    } else {
        None
    }
}

/// Selects the collector family for an exchange name; an unknown name
/// selects none and the process must refuse to start.
pub fn parse_exchange(name: &str) -> (r: Option<Exchange>)
    ensures
        r == exchange_of(name@),
{
    if str_eq(name, "binancefutures") || str_eq(name, "binancefuturesum") {
        Some(Exchange::BinanceFuturesUm)
    } else if str_eq(name, "binancefuturescm") {
        Some(Exchange::BinanceFuturesCm)
    } else if str_eq(name, "binance") || str_eq(name, "binancespot") {
        Some(Exchange::BinanceSpot)
    } else if str_eq(name, "bybit") {
        Some(Exchange::BybitLinear)
    } else if str_eq(name, "bybitspot") {
        Some(Exchange::BybitSpot)
    } else if str_eq(name, "hyperliquid") {
        Some(Exchange::Hyperliquid)
    } else if str_eq(name, "okx") || str_eq(name, "okxspot") {
        Some(Exchange::OkxSpot)
    } else if str_eq(name, "okxswap") || str_eq(name, "okxfutures") {
        Some(Exchange::OkxSwap)
    } else {
        None
    }
}

/// The OKX instrument for a symbol: uppercased; a `-` goes in before a
/// `USDT` or `USDC` quote, and perpetual variants get `-SWAP` behind
/// it; anything else passes through uppercased.
pub open spec fn okx_instrument(s: Seq<char>, swap: bool) -> Seq<char> {
    let up = to_upper(s);
    let tail: Seq<char> = if swap {
        "-SWAP"@
    } else {
        Seq::empty()
    };
    if has_suffix(up, "USDT"@) {
        up.take(up.len() - 4) + "-USDT"@ + tail
    } else if has_suffix(up, "USDC"@) {
        up.take(up.len() - 4) + "-USDC"@ + tail
    } else {
        up
    }
}

/// Writes a symbol in OKX's instrument form.
pub fn okx_instrument_x(s: &str, swap: bool) -> (r: String)
    ensures
        r@ == okx_instrument(s@, swap),
{
    let up = to_upper_x(s);
    let suffix_usdt = has_suffix_x(up.as_str(), "USDT");
    let suffix_usdc = has_suffix_x(up.as_str(), "USDC");
    if !suffix_usdt && !suffix_usdc {
        return up;
    }
    proof {
        reveal_strlit("USDT");
        reveal_strlit("USDC");
    }
    let len = up.as_str().unicode_len();
    let mut out = take_prefix(up.as_str(), len - 4);
    if suffix_usdt {
        out.append("-USDT");
    } else {
        out.append("-USDC");
    }
    if swap {
        out.append("-SWAP");
    }
    proof {
        if !swap {
            assert(out@ =~= okx_instrument(s@, swap));
        }
    }
    out
}

/// One thing the writer loop can observe: the interrupt signal, the
/// closure of the record channel, or a record to write.
pub enum WriterEvent {
    /// The process received an interrupt.
    Interrupt,
    /// Every producer is gone and the channel is closed.
    ChannelClosed,
    /// A record arrived.
    Received(Record),
}

/// What the writer loop must do with an event.
pub enum WriterAction {
    /// Leave the loop and shut down.
    Stop,
    /// Append the record to the store, then continue.
    Write(Record),
}

/// The writer loop's reaction: it stops on an interrupt or a closed
/// channel, and otherwise appends the record it received.
pub fn writer_step(event: WriterEvent) -> (r: WriterAction)
    ensures
        event is Interrupt ==> r is Stop,
        event is ChannelClosed ==> r is Stop,
        (event matches WriterEvent::Received(rec)
            ==> r matches WriterAction::Write(w) && w == rec),
{
    match event {
        WriterEvent::Interrupt => WriterAction::Stop,
        WriterEvent::ChannelClosed => WriterAction::Stop,
        WriterEvent::Received(rec) => WriterAction::Write(rec),
    }
}

/// Whether the writer loop must stop after an append: any write
/// failure is fatal.
pub fn after_write(write_ok: bool) -> (stop: bool)
    ensures
        stop == !write_ok,
{
    !write_ok
}

} // verus!
