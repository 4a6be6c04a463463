use litrpc::display::{addrs_for_cointype, grand_total, pair_addrs, sort_bals_by_cointype};
use litrpc::duplex::{recv_step, recv_text, Frame, RecvState, RecvStep, DEFAULT_RECV_BUDGET};
use litrpc::error::LitRpcError;
use litrpc::methods::CoinBalInfo;

fn bal(ct: u32, chan: i64, txo: i64) -> CoinBalInfo {
    CoinBalInfo {
        CoinType: ct,
        SyncHeight: 0,
        ChanTotal: chan,
        TxoTotal: txo,
        MatureWitty: 0,
        FeeRate: 1,
    }
}

#[test]
fn receive_skips_nontext_frames() {
    let frames = vec![
        Frame::Ping(vec![]),
        Frame::Binary(vec![1, 2, 3]),
        Frame::Text(String::from("hello")),
        Frame::Text(String::from("later")),
    ];
    let r = recv_text(&frames, DEFAULT_RECV_BUDGET);
    assert_eq!(r.unwrap(), "hello");
}

#[test]
fn receive_times_out_when_budget_spent_on_nontext() {
    // With budget 3, the text frame sitting at index 3 is never reached.
    let frames = vec![
        Frame::Ping(vec![]),
        Frame::Binary(vec![]),
        Frame::Pong(vec![]),
        Frame::Text(String::from("too late")),
    ];
    let r = recv_text(&frames, 3);
    assert!(matches!(r, Err(LitRpcError::Timeout)));
}

#[test]
fn receive_times_out_on_short_nontext_stream() {
    // Budget 4, but only the first three frames ever arrive, none text:
    // the loop gives up instead of blocking forever.
    let frames = vec![Frame::Ping(vec![]), Frame::Binary(vec![]), Frame::Pong(vec![])];
    let r = recv_text(&frames, 4);
    assert!(matches!(r, Err(LitRpcError::Timeout)));
}

#[test]
fn receive_with_zero_budget_always_times_out() {
    let frames = vec![Frame::Text(String::from("there"))];
    let r = recv_text(&frames, 0);
    assert!(matches!(r, Err(LitRpcError::Timeout)));
}

#[test]
fn stepwise_receive_counts_down_and_gives_up() {
    let st = RecvState { attempts_left: 2 };
    let st = match recv_step(st, &Frame::Ping(vec![])) {
        RecvStep::Retry(n) => n,
        _ => panic!("expected a retry"),
    };
    assert_eq!(st.attempts_left, 1);
    match recv_step(st, &Frame::Binary(vec![])) {
        RecvStep::GiveUp => {},
        _ => panic!("expected the budget to run out"),
    }
}

#[test]
fn stepwise_receive_delivers_text() {
    let st = RecvState { attempts_left: 1 };
    match recv_step(st, &Frame::Text(String::from("payload"))) {
        RecvStep::Deliver(s) => assert_eq!(s, "payload"),
        _ => panic!("expected delivery"),
    }
}

#[test]
fn grand_total_adds_both_funds() {
    let b = bal(0, 500, 200);
    assert_eq!(grand_total(&b), 700);
}

#[test]
fn balances_sort_by_coin_type() {
    let v = vec![bal(28, 1, 0), bal(1, 2, 0), bal(28, 3, 0), bal(0, 4, 0)];
    let s = sort_bals_by_cointype(v);
    let types: Vec<u32> = s.iter().map(|b| b.CoinType).collect();
    assert_eq!(types, vec![0, 1, 28, 28]);
    let total: i64 = s.iter().map(|b| b.ChanTotal).sum();
    assert_eq!(total, 10);
}

#[test]
fn addresses_pair_and_filter_by_coin_type() {
    let types = vec![1u32, 28, 1];
    let addrs = vec![
        String::from("addr-a"),
        String::from("addr-b"),
        String::from("addr-c"),
    ];
    let pairs = pair_addrs(&types, &addrs);
    assert_eq!(pairs.len(), 3);
    let ones = addrs_for_cointype(&pairs, 1);
    assert_eq!(ones, vec!["addr-a", "addr-c"]);
    let none = addrs_for_cointype(&pairs, 2);
    assert!(none.is_empty());
}

#[test]
fn pairing_stops_at_the_shorter_list() {
    let types = vec![1u32, 2];
    let addrs = vec![String::from("only")];
    let pairs = pair_addrs(&types, &addrs);
    assert_eq!(pairs.len(), 1);
    assert_eq!(pairs[0], (1, String::from("only")));
}

#[test]
fn duplex_receive_feeds_the_call_pipeline() {
    // One call over the persistent channel: the request half issues the
    // identifier, the receive loop skips a ping and a binary frame, and the
    // delivered text frame answers the call.
    let mut c = litrpc::client::LitRpcClient::new("localhost", 12345);
    let (id, _req) = c.call_bal_request();
    assert_eq!(id, 0);
    let frames = vec![
        Frame::Ping(vec![]),
        Frame::Binary(vec![9]),
        Frame::Text(String::from(
            "{\"jsonrpc\":\"2.0\",\"result\":{\"Balances\":[]},\"error\":null,\"id\":0}",
        )),
    ];
    let r: Result<litrpc::methods::BalanceReply, LitRpcError> =
        c.call_conclude(recv_text(&frames, DEFAULT_RECV_BUDGET));
    assert_eq!(r.unwrap().Balances.len(), 0);
}
