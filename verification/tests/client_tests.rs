use bitcoin_rpc::client::{
    getblock_request, getblock_response, getblockchaininfo_request, getblockcount_request,
    getblockcount_response, getblockhash_request, getblockhash_response, getrawmempool_request,
    getrawmempool_response, gettxout_request, gettxout_response, ClientConfig,
};
use bitcoin_rpc::errors::ConfigError;
use bitcoin_rpc::json::{parse_payload, Json};
use bitcoin_rpc::model::{GetBlockReply, RawMemPool, Vin};

#[test]
fn password_without_username_is_refused_before_any_network_use() {
    let r = ClientConfig::new("http://localhost:8332".to_string(), None, Some("pw".to_string()));
    assert_eq!(r.unwrap_err(), ConfigError::PasswordWithoutUsername);
}

#[test]
fn coherent_credentials_are_accepted_unchanged() {
    let c = ClientConfig::new("u".to_string(), Some("user".to_string()), Some("pw".to_string()))
        .unwrap();
    assert_eq!(c.url, "u");
    assert_eq!(c.user, Some("user".to_string()));
    assert_eq!(c.pass, Some("pw".to_string()));
    assert!(ClientConfig::new("u".to_string(), Some("user".to_string()), None).is_ok());
    assert!(ClientConfig::new("u".to_string(), None, None).is_ok());
}

#[test]
fn requests_follow_the_protocol_calling_convention() {
    let r = getblock_request("00aa", 2);
    assert_eq!(r.method, "getblock");
    assert_eq!(r.params.len(), 2);
    assert!(matches!(&r.params[0], Json::Str(s) if s == "00aa"));
    assert!(matches!(&r.params[1], Json::Int(2)));

    let r = getblockchaininfo_request();
    assert_eq!(r.method, "getblockchaininfo");
    assert!(r.params.is_empty());

    let r = getblockcount_request();
    assert_eq!(r.method, "getblockcount");
    assert!(r.params.is_empty());

    let r = getblockhash_request(123456);
    assert_eq!(r.method, "getblockhash");
    assert!(matches!(&r.params[0], Json::Int(123456)));

    let r = getrawmempool_request(true);
    assert_eq!(r.method, "getrawmempool");
    assert!(matches!(&r.params[0], Json::Bool(true)));

    let r = gettxout_request("00tx", 1, false);
    assert_eq!(r.method, "gettxout");
    assert_eq!(r.params.len(), 3);
    assert!(matches!(&r.params[0], Json::Str(s) if s == "00tx"));
    assert!(matches!(&r.params[1], Json::Int(1)));
    assert!(matches!(&r.params[2], Json::Bool(false)));
}

#[test]
fn genesis_block_at_verbosity_two_end_to_end() {
    let ak = ["a", "sm"].concat();
    let body = format!(
        r#"{{"hash":"000000gen","confirmations":1,"strippedsize":285,"size":285,"weight":1140,"height":0,"version":1,"version_hex":"00000001","merkleroot":"4a5e1e","tx":[{{"txid":"4a5e1e","hash":"4a5e1e","version":1,"size":204,"vsize":204,"locktime":0,"vin":[{{"coinbase":"04ffff001d","sequence":4294967295}}],"vout":[{{"value":"50.00000000","n":0,"scriptPubKey":{{"{key}":"pk OP_CHECKSIG","hex":"4104","reqSigs":1,"type":"pubkey","addresses":["1A1zP1"]}}}},{{"value":"0.00010000","n":1,"scriptPubKey":{{"{key}":"OP_RETURN","hex":"6a","reqSigs":1,"type":"nulldata","addresses":[]}}}}],"hex":"01000000"}}],"time":1231006505,"mediantime":1231006505,"nonce":2083236893,"bits":"1d00ffff","chainwork":"00","previousblockhash":null}}"#,
        key = ak,
    );
    let r = getblock_response(2, &body).unwrap();
    match r {
        GetBlockReply::Two(b) => {
            assert_eq!(b.tx.len(), 1);
            assert_eq!(b.tx[0].vout.len(), 2);
            assert!(b.previousblockhash.is_none());
            assert_eq!(b.nextblockhash, None);
            assert!(matches!(b.tx[0].vin[0], Vin::Coinbase(_)));
            assert_eq!(b.tx[0].vout[1].value, "0.00010000");
        },
        _ => panic!("wrong variant"),
    }
    // The same payload contradicts the other two levels.
    assert!(getblock_response(1, &body).is_err());
    assert!(getblock_response(0, &body).is_err());
}

#[test]
fn raw_mempool_end_to_end_preserves_order() {
    let body = r#"{"result": ["abc123", "def456"]}"#;
    match getrawmempool_response(false, body).unwrap() {
        RawMemPool::False(t) => {
            assert_eq!(t.result, vec!["abc123".to_string(), "def456".to_string()]);
        },
        _ => panic!("wrong variant"),
    }
    assert!(getrawmempool_response(true, body).is_err());
}

#[test]
fn scalar_responses_decode_from_their_payload_text() {
    assert_eq!(getblockcount_response("123456").unwrap(), 123456);
    assert!(getblockcount_response(r#""123456""#).is_err());
    assert_eq!(getblockhash_response(r#""00aa""#).unwrap(), "00aa");
    assert!(getblockhash_response("7").is_err());
}

#[test]
fn malformed_payload_text_is_a_decode_error() {
    assert!(parse_payload("not json").is_err());
    assert!(getblockcount_response("{").is_err());
    assert!(getblock_response(0, "").is_err());
}

#[test]
fn parsing_builds_the_modelled_tree() {
    // Numbers in i64 range come back as integers; other numbers keep their
    // exact text; strings, booleans, arrays and objects keep their values.
    let j = parse_payload(r#"{"a": [1, true, "x", 0.00010000, null]}"#).unwrap();
    match j {
        Json::Obj(es) => {
            assert_eq!(es.len(), 1);
            assert_eq!(es[0].0, "a");
            match &es[0].1 {
                Json::Arr(items) => {
                    assert!(matches!(items[0], Json::Int(1)));
                    assert!(matches!(items[1], Json::Bool(true)));
                    assert!(matches!(&items[2], Json::Str(s) if s == "x"));
                    assert!(matches!(&items[3], Json::Num(s) if s == "0.00010000"));
                    assert!(matches!(items[4], Json::Null));
                },
                _ => panic!("wrong element"),
            }
        },
        _ => panic!("wrong shape"),
    }
}

#[test]
fn utxo_value_survives_the_parser_exactly() {
    let ak = ["a", "sm"].concat();
    let body = format!(
        r#"{{"bestblock":"000000best","confirmations":6,"value":0.00010000,"scriptpubkey":{{"{key}":"OP_DUP","hex":"76","reqSigs":1,"type":"pubkeyhash","addresses":["1A1zP1"]}},"coinbase":false}}"#,
        key = ak,
    );
    let v = gettxout_response(&body).unwrap();
    assert_eq!(v.value, "0.00010000");
    assert_eq!(v.confirmations, 6);
}
