use litrpc::client::LitRpcClient;
use litrpc::error::LitRpcError;
use litrpc::methods::{
    BalanceReply, ChanListReply, FeeReply, ListeningPortsReply, PushReply, StatusReply,
    TxidsReply,
};

#[test]
fn balance_scenario() {
    let mut c = LitRpcClient::new("localhost", 12345);
    let (id, req) = c.call_bal_request();
    assert_eq!(id, 0);
    assert_eq!(
        req,
        "{\"method\":\"LitRPC.Balance\",\"params\":{},\"jsonrpc\":\"2.0\",\"id\":0}"
    );
    let stub = "{\"jsonrpc\":\"2.0\",\"result\":{\"Balances\":[{\"CoinType\":0,\"SyncHeight\":100,\"ChanTotal\":500,\"TxoTotal\":200,\"MatureWitty\":0,\"FeeRate\":1}]},\"error\":null,\"id\":0}";
    let r: Result<BalanceReply, LitRpcError> = c.call_response(stub);
    let b = r.unwrap();
    assert_eq!(b.Balances.len(), 1);
    assert_eq!(b.Balances[0].ChanTotal, 500);
    assert_eq!(b.Balances[0].TxoTotal, 200);
    assert_eq!(b.Balances[0].CoinType, 0);
    assert_eq!(b.Balances[0].SyncHeight, 100);
}

#[test]
fn chan_list_remote_error_scenario() {
    let mut c = LitRpcClient::new("localhost", 12345);
    let (id, req) = c.call_chan_list_request(0);
    assert_eq!(id, 0);
    assert_eq!(
        req,
        "{\"method\":\"LitRPC.ChannelList\",\"params\":{\"ChanIdx\":0},\"jsonrpc\":\"2.0\",\"id\":0}"
    );
    let stub = "{\"result\":null,\"error\":{\"code\":-32000,\"message\":\"no such channel\",\"data\":\"\"},\"id\":0,\"jsonrpc\":\"2.0\"}";
    let r: Result<ChanListReply, LitRpcError> = c.call_response(stub);
    match r {
        Err(LitRpcError::RemoteError(e)) => {
            assert_eq!(e.code, -32000);
            assert_eq!(e.message, "no such channel");
            assert_eq!(e.data, "");
        },
        other => panic!("expected a remote error, got {:?}", other.map(|x| x.Channels.len())),
    }
}

#[test]
fn mismatched_id_scenario() {
    let mut c = LitRpcClient::new("localhost", 12345);
    let (id, _req) = c.call_bal_request();
    assert_eq!(id, 0);
    let stub = "{\"jsonrpc\":\"2.0\",\"result\":{\"Balances\":[]},\"error\":null,\"id\":7}";
    let r: Result<BalanceReply, LitRpcError> = c.call_response(stub);
    assert!(matches!(r, Err(LitRpcError::InvalidResponse)));
    // The counter is unaffected by the mismatch: the next identifier is 1.
    assert_eq!(c.next_msg_id, 1);
    let (next_id, _) = c.call_bal_request();
    assert_eq!(next_id, 1);
}

#[test]
fn transport_failure_scenario() {
    let mut c = LitRpcClient::new("localhost", 12345);
    let (id, _req) = c.call_bal_request();
    assert_eq!(id, 0);
    let outcome: Result<String, LitRpcError> =
        Err(LitRpcError::TransportError(String::from("connection refused")));
    let r: Result<BalanceReply, LitRpcError> = c.call_conclude(outcome);
    match r {
        Err(LitRpcError::TransportError(msg)) => assert_eq!(msg, "connection refused"),
        other => panic!("expected a transport error, got {:?}", other.is_ok()),
    }
    // The identifier was consumed by the attempt all the same.
    assert_eq!(c.next_msg_id, 1);
}

#[test]
fn identifiers_count_up_across_failures() {
    let mut c = LitRpcClient::new("localhost", 12345);
    let (a, _) = c.call_bal_request();
    let bad: Result<BalanceReply, LitRpcError> = c.call_response("not json at all");
    assert!(matches!(bad, Err(LitRpcError::SerializationError)));
    let (b, _) = c.call_get_txo_list_request();
    let missing: Result<BalanceReply, LitRpcError> =
        c.call_response("{\"jsonrpc\":\"2.0\",\"result\":{},\"error\":null}");
    assert!(matches!(missing, Err(LitRpcError::MalformedResponse)));
    let (d, _) = c.call_stop_request();
    assert_eq!((a, b, d), (0, 1, 2));
    assert_eq!(c.next_msg_id, 3);
}

#[test]
fn both_result_and_error_is_invalid() {
    let mut c = LitRpcClient::new("localhost", 12345);
    let _ = c.call_bal_request();
    let stub = "{\"jsonrpc\":\"2.0\",\"result\":{\"Balances\":[]},\"error\":{\"code\":1,\"message\":\"m\",\"data\":\"\"},\"id\":0}";
    let r: Result<BalanceReply, LitRpcError> = c.call_response(stub);
    assert!(matches!(r, Err(LitRpcError::InvalidResponse)));
}

#[test]
fn neither_result_nor_error_is_invalid() {
    let mut c = LitRpcClient::new("localhost", 12345);
    let _ = c.call_bal_request();
    let stub = "{\"jsonrpc\":\"2.0\",\"result\":null,\"error\":null,\"id\":0}";
    let r: Result<BalanceReply, LitRpcError> = c.call_response(stub);
    assert!(matches!(r, Err(LitRpcError::InvalidResponse)));
}

#[test]
fn missing_id_is_malformed() {
    let mut c = LitRpcClient::new("localhost", 12345);
    let _ = c.call_bal_request();
    let stub = "{\"jsonrpc\":\"2.0\",\"result\":{\"Balances\":[]},\"error\":null}";
    let r: Result<BalanceReply, LitRpcError> = c.call_response(stub);
    assert!(matches!(r, Err(LitRpcError::MalformedResponse)));
}

#[test]
fn missing_jsonrpc_field_is_malformed() {
    let mut c = LitRpcClient::new("localhost", 12345);
    let _ = c.call_bal_request();
    let stub = "{\"result\":{\"Balances\":[]},\"error\":null,\"id\":0}";
    let r: Result<BalanceReply, LitRpcError> = c.call_response(stub);
    assert!(matches!(r, Err(LitRpcError::MalformedResponse)));
}

#[test]
fn result_of_wrong_shape_is_malformed() {
    let mut c = LitRpcClient::new("localhost", 12345);
    let _ = c.call_bal_request();
    // A well-formed envelope whose result lacks the Balances list.
    let stub = "{\"jsonrpc\":\"2.0\",\"result\":{\"Other\":1},\"error\":null,\"id\":0}";
    let r: Result<BalanceReply, LitRpcError> = c.call_response(stub);
    assert!(matches!(r, Err(LitRpcError::MalformedResponse)));
}

#[test]
fn unparseable_text_is_a_serialization_error() {
    let mut c = LitRpcClient::new("localhost", 12345);
    let _ = c.call_bal_request();
    for bad in ["", "{", "[1,2]", "{\"id\":0,}", "nope", "{\"id\":"] {
        let r: Result<BalanceReply, LitRpcError> = c.call_response(bad);
        assert!(matches!(r, Err(LitRpcError::SerializationError)), "text: {}", bad);
    }
}

#[test]
fn oversized_identifier_is_malformed() {
    let mut c = LitRpcClient::new("localhost", 12345);
    let _ = c.call_bal_request();
    // One past u64::MAX: a fine wire value, but no envelope identifier.
    let stub = "{\"jsonrpc\":\"2.0\",\"result\":null,\"error\":null,\"id\":18446744073709551616}";
    let r: Result<BalanceReply, LitRpcError> = c.call_response(stub);
    assert!(matches!(r, Err(LitRpcError::MalformedResponse)));
}

#[test]
fn fractional_identifier_is_malformed() {
    let mut c = LitRpcClient::new("localhost", 12345);
    let _ = c.call_bal_request();
    let stub = "{\"jsonrpc\":\"2.0\",\"result\":null,\"error\":null,\"id\":1e3}";
    let r: Result<BalanceReply, LitRpcError> = c.call_response(stub);
    assert!(matches!(r, Err(LitRpcError::MalformedResponse)));
}

#[test]
fn unknown_fields_of_any_shape_are_ignored() {
    let mut c = LitRpcClient::new("localhost", 12345);
    let _ = c.call_get_fee_request(0);
    // Extra fields everywhere: a nested object, an array of arrays, a float
    // and a huge number, in the envelope and inside the result object.
    let stub = "{\"jsonrpc\":\"2.0\",\"debug\":[[1,2],{\"x\":null}],\"result\":{\"Extra\":{\"deep\":{\"er\":[3.5e-2]}},\"CurrentFee\":42,\"Huge\":99999999999999999999999},\"error\":null,\"id\":0}";
    let r: Result<FeeReply, LitRpcError> = c.call_response(stub);
    assert_eq!(r.unwrap().CurrentFee, 42);
}

#[test]
fn known_field_of_foreign_shape_is_malformed() {
    let mut c = LitRpcClient::new("localhost", 12345);
    let _ = c.call_get_fee_request(0);
    // The field the shape needs is present but holds an object.
    let stub = "{\"jsonrpc\":\"2.0\",\"result\":{\"CurrentFee\":{\"v\":42}},\"error\":null,\"id\":0}";
    let r: Result<FeeReply, LitRpcError> = c.call_response(stub);
    assert!(matches!(r, Err(LitRpcError::MalformedResponse)));
}

#[test]
fn bmp_unicode_escapes_parse() {
    let mut c = LitRpcClient::new("localhost", 12345);
    let _ = c.call_connect_request(String::from("ln1"));
    // Full four-hex-digit escapes, both cases, as remote encoders emit them.
    let stub = "{\"jsonrpc\":\"2.0\",\"result\":{\"Status\":\"\\u0394x\\u20AC\\u003c\"},\"error\":null,\"id\":0}";
    let r: Result<StatusReply, LitRpcError> = c.call_response(stub);
    assert_eq!(r.unwrap().Status, "\u{394}x\u{20ac}<");
}

#[test]
fn unpaired_surrogate_escape_is_refused() {
    let mut c = LitRpcClient::new("localhost", 12345);
    let _ = c.call_connect_request(String::from("ln1"));
    let stub = "{\"jsonrpc\":\"2.0\",\"result\":{\"Status\":\"\\uD834\"},\"error\":null,\"id\":0}";
    let r: Result<StatusReply, LitRpcError> = c.call_response(stub);
    assert!(matches!(r, Err(LitRpcError::SerializationError)));
}

#[test]
fn whitespace_between_tokens_is_accepted() {
    let mut c = LitRpcClient::new("localhost", 12345);
    let _ = c.call_set_fee_request(80, 1);
    let stub = " {\n  \"jsonrpc\" : \"2.0\" ,\r\n  \"result\" : { \"CurrentFee\" : 80 } ,\n  \"error\" : null ,\n  \"id\" : 0\n}\n";
    let r: Result<FeeReply, LitRpcError> = c.call_response(stub);
    assert_eq!(r.unwrap().CurrentFee, 80);
}

#[test]
fn negative_fee_parses() {
    let mut c = LitRpcClient::new("localhost", 12345);
    let _ = c.call_get_fee_request(0);
    let stub = "{\"jsonrpc\":\"2.0\",\"result\":{\"CurrentFee\":-5},\"error\":null,\"id\":0}";
    let r: Result<FeeReply, LitRpcError> = c.call_response(stub);
    assert_eq!(r.unwrap().CurrentFee, -5);
}

#[test]
fn string_escapes_round_through_the_parser() {
    let mut c = LitRpcClient::new("localhost", 12345);
    let _ = c.call_connect_request(String::from("ln1"));
    let stub = "{\"jsonrpc\":\"2.0\",\"result\":{\"Status\":\"a\\nb\\\"c\\\\d\\te\\u0001f\\/g\"},\"error\":null,\"id\":0}";
    let r: Result<StatusReply, LitRpcError> = c.call_response(stub);
    assert_eq!(r.unwrap().Status, "a\nb\"c\\d\te\u{1}f/g");
}

#[test]
fn request_escapes_special_characters() {
    let mut c = LitRpcClient::new("localhost", 12345);
    let (_, req) = c.call_connect_request(String::from("a\"b\\c\nd"));
    assert_eq!(
        req,
        "{\"method\":\"LitRPC.Connect\",\"params\":{\"LNAddr\":\"a\\\"b\\\\c\\nd\"},\"jsonrpc\":\"2.0\",\"id\":0}"
    );
}

#[test]
fn empty_wire_list_reads_as_empty_record_list() {
    let mut c = LitRpcClient::new("localhost", 12345);
    let _ = c.call_chan_list_request(3);
    let stub = "{\"jsonrpc\":\"2.0\",\"result\":{\"Channels\":[]},\"error\":null,\"id\":0}";
    let r: Result<ChanListReply, LitRpcError> = c.call_response(stub);
    assert_eq!(r.unwrap().Channels.len(), 0);
}

#[test]
fn chan_list_reads_byte_fields() {
    let mut c = LitRpcClient::new("localhost", 12345);
    let _ = c.call_chan_list_request(0);
    let mut data = String::new();
    for i in 0..32 {
        if i > 0 {
            data.push(',');
        }
        data.push_str(&i.to_string());
    }
    let mut pkh = String::new();
    for i in 0..20 {
        if i > 0 {
            pkh.push(',');
        }
        pkh.push_str("7");
    }
    let stub = format!(
        "{{\"jsonrpc\":\"2.0\",\"result\":{{\"Channels\":[{{\"OutPoint\":\"aa:0\",\"CoinType\":1,\"Closed\":false,\"Capacity\":100000,\"MyBalance\":40000,\"Height\":512,\"StateNum\":9,\"PeerIdx\":2,\"CIdx\":1,\"Data\":[{}],\"Pkh\":[{}]}}]}},\"error\":null,\"id\":0}}",
        data, pkh
    );
    let r: Result<ChanListReply, LitRpcError> = c.call_response(&stub);
    let chans = r.unwrap().Channels;
    assert_eq!(chans.len(), 1);
    assert_eq!(chans[0].Data.len(), 32);
    assert_eq!(chans[0].Data[5], 5);
    assert_eq!(chans[0].Pkh, vec![7u8; 20]);
    assert_eq!(chans[0].MyBalance, 40000);
    assert!(!chans[0].Closed);
}

#[test]
fn push_reply_reads_state_index() {
    let mut c = LitRpcClient::new("localhost", 12345);
    let (_, req) = c.call_push_request(2, 1000, vec![0u8; 32]);
    assert!(req.contains("\"method\":\"LitRPC.Push\""));
    let stub = "{\"jsonrpc\":\"2.0\",\"result\":{\"StateIdx\":12},\"error\":null,\"id\":0}";
    let r: Result<PushReply, LitRpcError> = c.call_response(stub);
    assert_eq!(r.unwrap().StateIdx, 12);
}

#[test]
fn send_request_carries_both_lists() {
    let mut c = LitRpcClient::new("localhost", 12345);
    let (_, req) = c.call_send_request(
        vec![String::from("addr1"), String::from("addr2")],
        vec![5, -3],
    );
    assert_eq!(
        req,
        "{\"method\":\"LitRPC.Send\",\"params\":{\"DestAddrs\":[\"addr1\",\"addr2\"],\"Amts\":[5,-3]},\"jsonrpc\":\"2.0\",\"id\":0}"
    );
    let stub = "{\"jsonrpc\":\"2.0\",\"result\":{\"Txids\":[\"t1\",\"t2\"]},\"error\":null,\"id\":0}";
    let r: Result<TxidsReply, LitRpcError> = c.call_response(stub);
    assert_eq!(r.unwrap().Txids, vec!["t1", "t2"]);
}

#[test]
fn listening_ports_reply_reads_both_fields() {
    let mut c = LitRpcClient::new("localhost", 12345);
    let _ = c.call_get_listening_ports_request();
    let stub = "{\"jsonrpc\":\"2.0\",\"result\":{\"LisIpPorts\":[\"0.0.0.0:2448\"],\"Adr\":\"ln1xyz\"},\"error\":null,\"id\":0}";
    let r: Result<ListeningPortsReply, LitRpcError> = c.call_response(stub);
    let ports = r.unwrap();
    assert_eq!(ports.LisIpPorts, vec!["0.0.0.0:2448"]);
    assert_eq!(ports.Adr, "ln1xyz");
}

#[test]
fn error_object_of_wrong_shape_is_malformed() {
    let mut c = LitRpcClient::new("localhost", 12345);
    let _ = c.call_bal_request();
    let stub = "{\"jsonrpc\":\"2.0\",\"result\":null,\"error\":{\"code\":1,\"data\":\"\"},\"id\":0}";
    let r: Result<BalanceReply, LitRpcError> = c.call_response(stub);
    assert!(matches!(r, Err(LitRpcError::MalformedResponse)));
}

#[test]
fn client_url_is_the_oneoff_endpoint() {
    let c = LitRpcClient::new("example.org", 8001);
    assert_eq!(c.url(), "http://example.org:8001/oneoff");
}

#[test]
fn status_line_renders() {
    let s = StatusReply { Status: String::from("OK") };
    assert_eq!(s.status_line(), "status: OK");
}

#[test]
fn error_descriptions_name_each_kind() {
    assert_eq!(LitRpcError::Timeout.describe(), "receive budget exhausted");
    assert_eq!(
        LitRpcError::SerializationError.describe(),
        "response is not structured data"
    );
}

#[test]
fn encoded_request_is_valid_json_to_serde() {
    let mut c = LitRpcClient::new("localhost", 12345);
    let (_, req) = c.call_connect_request(String::from("peer\npeer\"x"));
    let v: serde_json::Value = serde_json::from_str(&req).unwrap();
    assert_eq!(v["method"].as_str(), Some("LitRPC.Connect"));
    assert_eq!(v["jsonrpc"].as_str(), Some("2.0"));
    assert_eq!(v["id"].as_u64(), Some(0));
    assert_eq!(v["params"]["LNAddr"].as_str(), Some("peer\npeer\"x"));
}

#[test]
fn sweep_request_carries_the_drop_flag() {
    let mut c = litrpc::client::LitRpcClient::new("localhost", 12345);
    let (_, req) = c.call_sweep_request(String::from("adr"), 2, true);
    assert_eq!(
        req,
        "{\"method\":\"LitRPC.Sweep\",\"params\":{\"DestAdr\":\"adr\",\"NumTx\":2,\"Drop\":true},\"jsonrpc\":\"2.0\",\"id\":0}"
    );
}

#[test]
fn address_reply_reads_both_lists() {
    let mut c = litrpc::client::LitRpcClient::new("localhost", 12345);
    let (_, req) = c.call_gen_address_request(1, 0);
    assert!(req.contains("\"method\":\"LitRPC.Address\""));
    let stub = "{\"jsonrpc\":\"2.0\",\"result\":{\"WitAddresses\":[\"w1\"],\"LegacyAddresses\":[\"l1\"]},\"error\":null,\"id\":0}";
    let r: Result<litrpc::methods::AddressReply, LitRpcError> = c.call_response(stub);
    let a = r.unwrap();
    assert_eq!(a.WitAddresses, vec!["w1"]);
    assert_eq!(a.LegacyAddresses, vec!["l1"]);
}

#[test]
fn pending_dual_fund_reply_reads_all_fields() {
    let mut c = litrpc::client::LitRpcClient::new("localhost", 12345);
    let _ = c.call_get_pending_dual_fund_request();
    let stub = "{\"jsonrpc\":\"2.0\",\"result\":{\"Pending\":true,\"PeerIdx\":3,\"CoinType\":1,\"TheirAmount\":100,\"RequestedAmount\":50},\"error\":null,\"id\":0}";
    let r: Result<litrpc::methods::PendingDualFundReply, LitRpcError> = c.call_response(stub);
    let pd = r.unwrap();
    assert!(pd.Pending);
    assert_eq!(pd.PeerIdx, 3);
    assert_eq!((pd.TheirAmount, pd.RequestedAmount), (100, 50));
}

#[test]
fn fund_request_carries_the_data_bytes() {
    let mut c = litrpc::client::LitRpcClient::new("localhost", 12345);
    let (_, req) = c.call_fund_request(1, 0, 1000, 0, 10, vec![0, 255]);
    assert_eq!(
        req,
        "{\"method\":\"LitRPC.FundChannel\",\"params\":{\"Peer\":1,\"CoinType\":0,\"Capacity\":1000,\"Roundup\":0,\"InitialSend\":10,\"Data\":[0,255]},\"jsonrpc\":\"2.0\",\"id\":0}"
    );
}

#[test]
fn dual_fund_request_accepts_negative_amounts() {
    let mut c = litrpc::client::LitRpcClient::new("localhost", 12345);
    let (_, req) = c.call_dual_fund_request(-1, -2, -3, -4);
    assert_eq!(
        req,
        "{\"method\":\"LitRPC.DualFundChannel\",\"params\":{\"Peer\":-1,\"CoinType\":-2,\"OurAmount\":-3,\"TheirAmount\":-4},\"jsonrpc\":\"2.0\",\"id\":0}"
    );
}
