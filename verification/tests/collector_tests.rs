use collector::binance::{handle_frame, repair_record};
use collector::continuity::ContinuityMap;
use collector::dispatch::{
    Exchange, WriterAction, WriterEvent, after_write, okx_instrument_x, parse_exchange,
    writer_step,
};
use collector::num::{i64_to_string, parse_i64};
use collector::okx::{
    apply_snapshot, okx_step, subscribe_payload_x, transform_bbo, transform_depth_update,
    transform_trade,
};
use collector::session::{SessionAction, SessionError, SessionEvent, SessionState};
use collector::supervisor::{after_failure, next_backoff_secs};
use collector::text::{canon_sym_x, esc_x, has_suffix_x, str_eq, stream_prefix_x, to_upper_x};
use collector::throttler::Throttler;
use collector::CollectorError;

#[test]
fn parse_i64_reads_plain_decimals() {
    assert_eq!(parse_i64("123"), Some(123));
    assert_eq!(parse_i64("-5"), Some(-5));
    assert_eq!(parse_i64("+7"), Some(7));
    assert_eq!(parse_i64("0"), Some(0));
    assert_eq!(parse_i64("1700000000000"), Some(1_700_000_000_000));
}

#[test]
fn parse_i64_rejects_malformed_input() {
    assert_eq!(parse_i64(""), None);
    assert_eq!(parse_i64("-"), None);
    assert_eq!(parse_i64("12a"), None);
    assert_eq!(parse_i64(" 12"), None);
    assert_eq!(parse_i64("1.5"), None);
}

#[test]
fn parse_i64_handles_the_range_bounds() {
    assert_eq!(parse_i64("9223372036854775807"), Some(i64::MAX));
    assert_eq!(parse_i64("9223372036854775808"), None);
    assert_eq!(parse_i64("-9223372036854775808"), Some(i64::MIN));
    assert_eq!(parse_i64("-9223372036854775809"), None);
}

#[test]
fn i64_to_string_prints_decimals() {
    assert_eq!(i64_to_string(0), "0");
    assert_eq!(i64_to_string(7), "7");
    assert_eq!(i64_to_string(-1), "-1");
    assert_eq!(i64_to_string(1_700_000_000_123), "1700000000123");
    assert_eq!(i64_to_string(i64::MAX), "9223372036854775807");
    assert_eq!(i64_to_string(i64::MIN), "-9223372036854775808");
}

#[test]
fn text_helpers_work_on_ascii() {
    assert_eq!(to_upper_x("btc123usdt"), "BTC123USDT");
    assert_eq!(canon_sym_x("BTC-USDT-SWAP"), "btcusdtswap");
    assert_eq!(canon_sym_x("BTC-USDT"), "btcusdt");
    assert_eq!(stream_prefix_x("btcusdt@depth20@100ms"), "btcusdt");
    assert_eq!(stream_prefix_x("noatsign"), "noatsign");
    assert!(str_eq("abc", "abc"));
    assert!(!str_eq("abc", "abd"));
    assert!(has_suffix_x("BTCUSDT", "USDT"));
    assert!(!has_suffix_x("BTCUSD", "USDT"));
    assert!(!has_suffix_x("DT", "USDT"));
}

#[test]
fn esc_escapes_json_specials() {
    assert_eq!(esc_x("plain"), "plain");
    assert_eq!(esc_x("a\"b"), "a\\\"b");
    assert_eq!(esc_x("a\\b"), "a\\\\b");
    assert_eq!(esc_x("a\nb"), "a\\u000ab");
}

#[test]
fn okx_instrument_inserts_the_quote_dash() {
    assert_eq!(okx_instrument_x("btcusdt", false), "BTC-USDT");
    assert_eq!(okx_instrument_x("BTCUSDT", true), "BTC-USDT-SWAP");
    assert_eq!(okx_instrument_x("ethusdc", true), "ETH-USDC-SWAP");
    assert_eq!(okx_instrument_x("xmrbtc", false), "XMRBTC");
}

#[test]
fn exchange_names_select_their_family() {
    assert_eq!(parse_exchange("binance"), Some(Exchange::BinanceSpot));
    assert_eq!(parse_exchange("binancespot"), Some(Exchange::BinanceSpot));
    assert_eq!(parse_exchange("binancefutures"), Some(Exchange::BinanceFuturesUm));
    assert_eq!(parse_exchange("binancefuturesum"), Some(Exchange::BinanceFuturesUm));
    assert_eq!(parse_exchange("binancefuturescm"), Some(Exchange::BinanceFuturesCm));
    assert_eq!(parse_exchange("bybit"), Some(Exchange::BybitLinear));
    assert_eq!(parse_exchange("bybitspot"), Some(Exchange::BybitSpot));
    assert_eq!(parse_exchange("hyperliquid"), Some(Exchange::Hyperliquid));
    assert_eq!(parse_exchange("okx"), Some(Exchange::OkxSpot));
    assert_eq!(parse_exchange("okxspot"), Some(Exchange::OkxSpot));
    assert_eq!(parse_exchange("okxswap"), Some(Exchange::OkxSwap));
    assert_eq!(parse_exchange("okxfutures"), Some(Exchange::OkxSwap));
    assert_eq!(parse_exchange("kraken"), None);
}

#[test]
fn continuity_map_stores_per_symbol() {
    let mut m = ContinuityMap::new();
    assert_eq!(m.get("BTCUSDT"), None);
    m.set("BTCUSDT", 5);
    m.set("ETHUSDT", 9);
    assert_eq!(m.get("BTCUSDT"), Some(5));
    assert_eq!(m.get("ETHUSDT"), Some(9));
    m.set("BTCUSDT", 12);
    assert_eq!(m.get("BTCUSDT"), Some(12));
    assert_eq!(m.get("SOLUSDT"), None);
}

// Two depth updates in sequence: records forwarded, no repair, the
// map holds the last terminal sequence.
#[test]
fn continuity_no_gap() {
    let mut m = ContinuityMap::new();
    let f1 = "{\"stream\":\"btcusdt@depth@100ms\",\"data\":{\"e\":\"depthUpdate\",\"s\":\"BTCUSDT\",\"U\":1,\"u\":5}}";
    let f2 = "{\"stream\":\"btcusdt@depth@100ms\",\"data\":{\"e\":\"depthUpdate\",\"s\":\"BTCUSDT\",\"U\":6,\"u\":9}}";
    let o1 = handle_frame(&mut m, 1000, f1).unwrap();
    let o2 = handle_frame(&mut m, 1001, f2).unwrap();
    let r1 = o1.record.unwrap();
    assert_eq!(r1.symbol, "BTCUSDT");
    assert_eq!(r1.payload, f1);
    assert_eq!(r1.recv_time_ms, 1000);
    assert!(o1.repair.is_none());
    let r2 = o2.record.unwrap();
    assert_eq!(r2.payload, f2);
    assert!(o2.repair.is_none());
    assert_eq!(m.get("BTCUSDT"), Some(9));
}

// A hole between batches: both updates still forwarded, and exactly
// the second asks for a snapshot repair.
#[test]
fn gap_triggers_repair() {
    let mut m = ContinuityMap::new();
    let f1 = "{\"stream\":\"btcusdt@depth@100ms\",\"data\":{\"e\":\"depthUpdate\",\"s\":\"BTCUSDT\",\"U\":1,\"u\":5}}";
    let f2 = "{\"stream\":\"btcusdt@depth@100ms\",\"data\":{\"e\":\"depthUpdate\",\"s\":\"BTCUSDT\",\"U\":10,\"u\":12}}";
    let o1 = handle_frame(&mut m, 1000, f1).unwrap();
    assert!(o1.record.is_some());
    assert!(o1.repair.is_none());
    let o2 = handle_frame(&mut m, 1001, f2).unwrap();
    assert!(o2.record.is_some());
    assert_eq!(o2.repair.as_deref(), Some("BTCUSDT"));
    assert_eq!(m.get("BTCUSDT"), Some(12));
    // the fetched snapshot is forwarded verbatim under a fresh stamp
    let snap = "{\"lastUpdateId\":13,\"bids\":[],\"asks\":[]}";
    let rec = repair_record("BTCUSDT".to_string(), Some(snap.to_string()), 2000).unwrap();
    assert_eq!(rec.recv_time_ms, 2000);
    assert_eq!(rec.symbol, "BTCUSDT");
    assert_eq!(rec.payload, snap);
    assert!(repair_record("BTCUSDT".to_string(), None, 2000).is_none());
}

// An overlapping batch is forwarded without repair.
#[test]
fn overlap_is_not_a_gap() {
    let mut m = ContinuityMap::new();
    let f1 = "{\"stream\":\"btcusdt@depth@100ms\",\"data\":{\"e\":\"depthUpdate\",\"s\":\"BTCUSDT\",\"U\":1,\"u\":5}}";
    let f2 = "{\"stream\":\"btcusdt@depth@100ms\",\"data\":{\"e\":\"depthUpdate\",\"s\":\"BTCUSDT\",\"U\":3,\"u\":7}}";
    handle_frame(&mut m, 1, f1).unwrap();
    let o2 = handle_frame(&mut m, 2, f2).unwrap();
    assert!(o2.repair.is_none());
    assert_eq!(m.get("BTCUSDT"), Some(7));
}

#[test]
fn frame_without_data_is_skipped() {
    let mut m = ContinuityMap::new();
    let o = handle_frame(&mut m, 1, "{\"result\":null,\"id\":1}").unwrap();
    assert!(o.record.is_none());
    assert!(o.repair.is_none());
}

#[test]
fn frame_errors_are_classified() {
    let mut m = ContinuityMap::new();
    assert_eq!(handle_frame(&mut m, 1, "not json").unwrap_err(), CollectorError::Parse);
    assert_eq!(
        handle_frame(&mut m, 1, "{\"data\":5}").unwrap_err(),
        CollectorError::Format
    );
    assert_eq!(
        handle_frame(&mut m, 1, "{\"data\":{}}").unwrap_err(),
        CollectorError::Format
    );
    assert_eq!(
        handle_frame(&mut m, 1, "{\"data\":{\"s\":\"X\",\"e\":\"depthUpdate\"}}").unwrap_err(),
        CollectorError::Format
    );
    assert_eq!(
        handle_frame(&mut m, 1, "{\"data\":{\"s\":7}}").unwrap_err(),
        CollectorError::Format
    );
}

#[test]
fn symbol_falls_back_to_the_stream_prefix() {
    let mut m = ContinuityMap::new();
    let f = "{\"stream\":\"ethusdt@depth20@100ms\",\"data\":{\"bids\":[],\"asks\":[]}}";
    let o = handle_frame(&mut m, 1, f).unwrap();
    assert_eq!(o.record.unwrap().symbol, "ETHUSDT");
}

// The throttler grants at most its rate within any sliding second.
#[test]
fn throttler_skips_over_budget() {
    let mut th = Throttler::new(1);
    assert!(th.try_acquire(10_000));
    assert!(!th.try_acquire(10_050));
    // a second later the window has expired
    assert!(th.try_acquire(11_011));
}

#[test]
fn throttler_window_slides() {
    let mut th = Throttler::new(2);
    assert!(th.try_acquire(0));
    assert!(th.try_acquire(10));
    assert!(!th.try_acquire(20));
    assert!(!th.try_acquire(1000));
    assert!(th.try_acquire(1011));
}

// Reconnect policy: immediate retries at first, then thresholded
// backoff, and a long session absolves the counter.
#[test]
fn session_reconnect_backoff() {
    let mut errors = 0u64;
    let mut sleep;
    (errors, sleep) = after_failure(errors, 2);
    assert_eq!((errors, sleep), (1, 0));
    (errors, sleep) = after_failure(errors, 2);
    assert_eq!((errors, sleep), (2, 0));
    (errors, sleep) = after_failure(errors, 2);
    assert_eq!((errors, sleep), (3, 0));
    (errors, sleep) = after_failure(errors, 2);
    assert_eq!((errors, sleep), (4, 1));
    // one attempt that lived over thirty seconds restarts the count
    (errors, sleep) = after_failure(errors, 31);
    assert_eq!((errors, sleep), (1, 0));
}

#[test]
fn backoff_thresholds() {
    assert_eq!(next_backoff_secs(0), 0);
    assert_eq!(next_backoff_secs(3), 0);
    assert_eq!(next_backoff_secs(4), 1);
    assert_eq!(next_backoff_secs(10), 1);
    assert_eq!(next_backoff_secs(11), 5);
    assert_eq!(next_backoff_secs(20), 5);
    assert_eq!(next_backoff_secs(21), 10);
    assert_eq!(next_backoff_secs(u64::MAX), 10);
}

#[test]
fn session_steps_react_to_frames() {
    let mut s = SessionState::start(0);
    match s.step(SessionEvent::Text("x".to_string()), 100) {
        SessionAction::Emit(t) => assert_eq!(t, "x"),
        _ => panic!("text must be emitted"),
    }
    assert_eq!(s.last_activity_ms, 100);
    match s.step(SessionEvent::Ping(vec![1, 2, 3]), 200) {
        SessionAction::QueuePong(p) => assert_eq!(p, vec![1, 2, 3]),
        _ => panic!("a ping must queue a pong with its own payload"),
    }
    assert!(matches!(s.step(SessionEvent::Pong, 300), SessionAction::Ignore));
    assert!(matches!(s.step(SessionEvent::Binary, 400), SessionAction::Ignore));
    assert!(matches!(
        s.step(SessionEvent::CloseFrame, 500),
        SessionAction::ExitErr(SessionError::ConnectionClosed)
    ));
    assert!(matches!(
        s.step(SessionEvent::TransportError, 600),
        SessionAction::ExitErr(SessionError::Transport)
    ));
    assert!(matches!(s.step(SessionEvent::StreamEnd, 700), SessionAction::ExitOk));
    assert!(matches!(s.step(SessionEvent::OutChannelClosed, 800), SessionAction::ExitOk));
}

#[test]
fn session_ping_deadline() {
    let mut s = SessionState::start(0);
    assert!(matches!(s.step(SessionEvent::Tick, 30_000), SessionAction::Ignore));
    assert!(matches!(
        s.step(SessionEvent::Tick, 30_001),
        SessionAction::ExitErr(SessionError::PingTimeout)
    ));
    // activity pushes the deadline out
    let mut s2 = SessionState::start(0);
    s2.step(SessionEvent::Pong, 20_000);
    assert!(matches!(s2.step(SessionEvent::Tick, 40_000), SessionAction::Ignore));
}

// The canonical trade envelope, field for field.
#[test]
fn okx_trade_to_canonical() {
    let text = "{\"arg\":{\"channel\":\"trades\",\"instId\":\"BTC-USDT\"},\"data\":[{\"instId\":\"BTC-USDT\",\"tradeId\":\"7\",\"px\":\"100.5\",\"sz\":\"0.1\",\"side\":\"buy\",\"ts\":\"1700000000000\"}]}";
    let p = transform_trade(text, 0, "btcusdt", 1_700_000_000_123).unwrap();
    assert_eq!(
        p,
        "{\"stream\":\"btcusdt@trade\",\"data\":{\"e\":\"trade\",\"E\":1700000000123,\"s\":\"BTCUSDT\",\"t\":7,\"p\":\"100.5\",\"q\":\"0.1\",\"T\":1700000000000}}"
    );
    // an unparseable trade identifier falls back to zero
    let text2 = "{\"data\":[{\"tradeId\":\"x\",\"px\":\"1\",\"sz\":\"2\",\"ts\":\"5\"}]}";
    let p2 = transform_trade(text2, 0, "btcusdt", 9).unwrap();
    assert_eq!(
        p2,
        "{\"stream\":\"btcusdt@trade\",\"data\":{\"e\":\"trade\",\"E\":9,\"s\":\"BTCUSDT\",\"t\":0,\"p\":\"1\",\"q\":\"2\",\"T\":5}}"
    );
    // a missing field drops the element
    let text3 = "{\"data\":[{\"px\":\"1\",\"sz\":\"2\",\"ts\":\"5\"}]}";
    assert!(transform_trade(text3, 0, "btcusdt", 9).is_none());
}

// The canonical best-bid-and-offer envelope.
#[test]
fn okx_bbo_to_canonical() {
    let text = "{\"arg\":{\"channel\":\"bbo-tbt\",\"instId\":\"BTC-USDT\"},\"data\":[{\"asks\":[[\"101\",\"1\",\"0\",\"1\"]],\"bids\":[[\"100\",\"2\",\"0\",\"1\"]],\"ts\":\"1700000000000\"}]}";
    let p = transform_bbo(text, 0, "btcusdt").unwrap();
    assert_eq!(
        p,
        "{\"stream\":\"btcusdt@bookTicker\",\"data\":{\"u\":1700000000000,\"s\":\"BTCUSDT\",\"b\":\"100\",\"B\":\"2\",\"a\":\"101\",\"A\":\"1\"}}"
    );
    // an empty side drops the element
    let text2 = "{\"data\":[{\"asks\":[],\"bids\":[[\"100\",\"2\"]],\"ts\":\"1\"}]}";
    assert!(transform_bbo(text2, 0, "btcusdt").is_none());
}

// The canonical payload parses back as JSON with the fields the
// envelope promises.
#[test]
fn canonical_payload_is_json() {
    let text = "{\"data\":[{\"tradeId\":\"7\",\"px\":\"100.5\",\"sz\":\"0.1\",\"ts\":\"1700000000000\"}]}";
    let p = transform_trade(text, 0, "btcusdt", 1_700_000_000_123).unwrap();
    let v: serde_json::Value = serde_json::from_str(&p).unwrap();
    assert_eq!(v.get("stream").unwrap().as_str().unwrap(), "btcusdt@trade");
    let d = v.get("data").unwrap();
    assert_eq!(d.get("e").unwrap().as_str().unwrap(), "trade");
    assert_eq!(d.get("s").unwrap().as_str().unwrap(), "BTCUSDT");
    assert_eq!(d.get("t").unwrap().as_i64().unwrap(), 7);
    assert_eq!(d.get("T").unwrap().as_i64().unwrap(), 1_700_000_000_000);
}

// A whole trades message through the collector step.
#[test]
fn okx_step_emits_trades() {
    let mut m = ContinuityMap::new();
    let text = "{\"arg\":{\"channel\":\"trades\",\"instId\":\"BTC-USDT\"},\"data\":[{\"tradeId\":\"1\",\"px\":\"9\",\"sz\":\"1\",\"ts\":\"10\"},{\"tradeId\":\"2\",\"px\":\"8\",\"sz\":\"2\",\"ts\":\"11\"}]}";
    let o = okx_step(&mut m, 50, text).unwrap();
    assert_eq!(o.records.len(), 2);
    assert_eq!(o.fetches.len(), 0);
    assert_eq!(o.records[0].symbol, "BTCUSDT");
    assert_eq!(o.records[0].recv_time_ms, 50);
    assert!(o.records[0].payload.contains("\"t\":1"));
    assert!(o.records[1].payload.contains("\"t\":2"));
}

#[test]
fn okx_step_skips_acks_and_unknown_channels() {
    let mut m = ContinuityMap::new();
    let ack = "{\"event\":\"subscribe\",\"arg\":{\"channel\":\"trades\",\"instId\":\"BTC-USDT\"}}";
    let o = okx_step(&mut m, 1, ack).unwrap();
    assert!(o.records.is_empty() && o.fetches.is_empty());
    let err = "{\"event\":\"error\",\"msg\":\"bad\"}";
    let o2 = okx_step(&mut m, 1, err).unwrap();
    assert!(o2.records.is_empty() && o2.fetches.is_empty());
    let unk = "{\"arg\":{\"channel\":\"tickers\",\"instId\":\"BTC-USDT\"},\"data\":[{}]}";
    let o3 = okx_step(&mut m, 1, unk).unwrap();
    assert!(o3.records.is_empty() && o3.fetches.is_empty());
    assert_eq!(
        okx_step(&mut m, 1, "nonsense").unwrap_err(),
        CollectorError::Parse
    );
}

// An incremental depth update with no stored bound uses ts - 1.
#[test]
fn okx_step_update_without_prior() {
    let mut m = ContinuityMap::new();
    let text = "{\"arg\":{\"channel\":\"books\",\"instId\":\"BTC-USDT\"},\"action\":\"update\",\"data\":[{\"asks\":[[\"101\",\"1\",\"0\",\"1\"]],\"bids\":[[\"100\",\"2\",\"0\",\"1\"]],\"ts\":\"1700000000000\"}]}";
    let o = okx_step(&mut m, 42, text).unwrap();
    assert_eq!(o.records.len(), 1);
    assert_eq!(
        o.records[0].payload,
        "{\"stream\":\"btcusdt@depth\",\"data\":{\"e\":\"depthUpdate\",\"E\":42,\"s\":\"BTCUSDT\",\"U\":1699999999999,\"u\":1700000000000,\"b\":[[\"100\",\"2\"]],\"a\":[[\"101\",\"1\"]]}}"
    );
    assert_eq!(m.get("btcusdt"), Some(1_700_000_000_000));
    // the next update continues from the stored bound
    let text2 = "{\"arg\":{\"channel\":\"books\",\"instId\":\"BTC-USDT\"},\"action\":\"update\",\"data\":[{\"bids\":[[\"99\",\"1\"]],\"ts\":\"1700000000100\"}]}";
    let o2 = okx_step(&mut m, 43, text2).unwrap();
    assert!(o2.records[0].payload.contains("\"U\":1700000000000,\"u\":1700000000100"));
    assert!(o2.records[0].payload.contains("\"b\":[[\"99\",\"1\"]],\"a\":[]"));
}

#[test]
fn transform_depth_update_uses_prev() {
    let text = "{\"data\":[{\"bids\":[[\"99\",\"1\"]],\"ts\":\"500\"}]}";
    let (p, ts) = transform_depth_update(text, 0, "btcusdt", 7, Some(400)).unwrap();
    assert!(p.contains("\"U\":400,\"u\":500"));
    assert_eq!(ts, 500);
}

// A snapshot-marked depth message asks for one REST fetch; the
// fetched snapshot normalizes with both bounds at its ts.
#[test]
fn okx_snapshot_action() {
    let mut m = ContinuityMap::new();
    let text = "{\"arg\":{\"channel\":\"books\",\"instId\":\"BTC-USDT\"},\"action\":\"snapshot\",\"data\":[{\"asks\":[[\"101\",\"1\",\"0\",\"1\"]],\"bids\":[[\"100\",\"2\",\"0\",\"1\"]],\"ts\":\"1\"}]}";
    let o = okx_step(&mut m, 5, text).unwrap();
    assert!(o.records.is_empty());
    assert_eq!(o.fetches.len(), 1);
    assert_eq!(o.fetches[0].inst_id, "BTC-USDT");
    assert_eq!(o.fetches[0].symbol, "btcusdt");
    assert_eq!(m.get("btcusdt"), None);
    // the REST body carries the book under data[0]
    let snap = "{\"code\":\"0\",\"data\":[{\"asks\":[[\"101\",\"1\",\"0\",\"1\"]],\"bids\":[[\"100\",\"2\",\"0\",\"1\"]],\"ts\":\"1700000000500\"}]}";
    let rec = apply_snapshot(&mut m, "btcusdt", snap, 6).unwrap();
    assert_eq!(rec.symbol, "BTCUSDT");
    assert_eq!(rec.recv_time_ms, 6);
    assert_eq!(
        rec.payload,
        "{\"stream\":\"btcusdt@depth\",\"data\":{\"e\":\"depthUpdate\",\"E\":6,\"s\":\"BTCUSDT\",\"U\":1700000000500,\"u\":1700000000500,\"b\":[[\"100\",\"2\"]],\"a\":[[\"101\",\"1\"]]}}"
    );
    assert_eq!(m.get("btcusdt"), Some(1_700_000_000_500));
    // a failed or empty fetch changes nothing
    assert!(apply_snapshot(&mut m, "btcusdt", "{\"data\":[]}", 7).is_none());
    assert!(apply_snapshot(&mut m, "btcusdt", "no body", 7).is_none());
    assert_eq!(m.get("btcusdt"), Some(1_700_000_000_500));
}

// Rate one: of two gap repairs within fifty milliseconds, one runs
// and one is skipped.
#[test]
fn throttler_skip_under_double_gap() {
    let mut th = Throttler::new(1);
    let granted_first = th.try_acquire(100_000);
    let granted_second = th.try_acquire(100_050);
    assert!(granted_first);
    assert!(!granted_second);
    let snap = "{\"ok\":true}".to_string();
    let r1 = repair_record("BTCUSDT".to_string(), Some(snap.clone()), 100_001);
    assert!(r1.is_some());
    let r2 = repair_record("BTCUSDT".to_string(), None, 100_051);
    assert!(r2.is_none());
}

#[test]
fn instrument_listing_extraction() {
    let body = "{\"code\":\"0\",\"data\":[{\"instId\":\"BTC-USDT\"},{\"other\":1},{\"instId\":\"ETH-USDT\"}]}";
    assert_eq!(
        collector::okx::instrument_ids(body),
        vec!["BTC-USDT".to_string(), "ETH-USDT".to_string()]
    );
    assert!(collector::okx::instrument_ids("{\"code\":\"0\"}").is_empty());
    assert!(collector::okx::instrument_ids("not json").is_empty());
}

#[test]
fn subscribe_frame_lists_every_pair() {
    let channels = vec!["trades".to_string(), "books".to_string()];
    let insts = vec!["BTC-USDT".to_string(), "ETH-USDT".to_string()];
    let p = subscribe_payload_x(&channels, &insts);
    assert_eq!(
        p,
        "{\"op\":\"subscribe\",\"args\":[{\"channel\":\"trades\",\"instId\":\"BTC-USDT\"},{\"channel\":\"books\",\"instId\":\"BTC-USDT\"},{\"channel\":\"trades\",\"instId\":\"ETH-USDT\"},{\"channel\":\"books\",\"instId\":\"ETH-USDT\"}]}"
    );
    let v: serde_json::Value = serde_json::from_str(&p).unwrap();
    assert_eq!(v.get("op").unwrap().as_str().unwrap(), "subscribe");
    assert_eq!(v.get("args").unwrap().as_array().unwrap().len(), 4);
}

// The writer loop stops on interrupt, closure, or a failed write,
// and otherwise appends what it received.
#[test]
fn writer_failure_is_fatal() {
    assert!(matches!(writer_step(WriterEvent::Interrupt), WriterAction::Stop));
    assert!(matches!(writer_step(WriterEvent::ChannelClosed), WriterAction::Stop));
    let rec = collector::Record {
        recv_time_ms: 1,
        symbol: "BTCUSDT".to_string(),
        payload: "{}".to_string(),
    };
    match writer_step(WriterEvent::Received(rec)) {
        WriterAction::Write(w) => {
            assert_eq!(w.recv_time_ms, 1);
            assert_eq!(w.symbol, "BTCUSDT");
        },
        WriterAction::Stop => panic!("a record must be written"),
    }
    assert!(after_write(true) == false);
    assert!(after_write(false) == true);
}
