use bitcoin_rpc::decode::{decode_block, decode_block_old};
use bitcoin_rpc::json::Json;
use bitcoin_rpc::model::{GetBlockReply, GetBlockReplyOld};

fn s(x: &str) -> Json {
    Json::Str(x.to_string())
}

fn k(key: &str, v: Json) -> (String, Json) {
    (key.to_string(), v)
}

fn header_obj(tx: Json) -> Json {
    Json::Obj(vec![
        k("hash", s("000000aa")),
        k("confirmations", Json::Int(10)),
        k("strippedsize", Json::Int(200)),
        k("size", Json::Int(250)),
        k("weight", Json::Int(800)),
        k("height", Json::Int(5)),
        k("version", Json::Int(2)),
        k("version_hex", s("20000000")),
        k("merkleroot", s("mroot")),
        k("tx", tx),
        k("time", Json::Int(1234567890)),
        k("mediantime", Json::Int(1234567880)),
        k("nonce", Json::Int(42)),
        k("bits", s("1d00ffff")),
        k("chainwork", s("cwork")),
        k("previousblockhash", s("000000pp")),
        k("nextblockhash", Json::Null),
    ])
}

fn tx_ids() -> Json {
    Json::Arr(vec![s("tx0"), s("tx1")])
}

fn full_tx_obj() -> Json {
    let ak = ["a", "sm"].concat();
    Json::Obj(vec![
        k("txid", s("tx0")),
        k("hash", s("tx0h")),
        k("version", Json::Int(1)),
        k("size", Json::Int(100)),
        k("vsize", Json::Int(100)),
        k("locktime", Json::Int(0)),
        k("vin", Json::Arr(vec![Json::Obj(vec![
            k("coinbase", s("04ffff001d")),
            k("sequence", Json::Int(4294967295)),
        ])])),
        k("vout", Json::Arr(vec![Json::Obj(vec![
            k("value", s("50.00000000")),
            k("n", Json::Int(0)),
            k("scriptPubKey", Json::Obj(vec![
                k(ak.as_str(), s("pk OP_CHECKSIG")),
                k("hex", s("4104")),
                k("reqSigs", Json::Int(1)),
                k("type", s("pubkey")),
                k("addresses", Json::Arr(vec![s("1A1zP1")])),
            ])),
        ])])),
        k("hex", s("01000000")),
    ])
}

#[test]
fn block_v0_accepts_bare_string() {
    let r = decode_block(0, &s("00ff00aa")).unwrap();
    match r {
        GetBlockReply::Zero(sb) => assert_eq!(sb.result, "00ff00aa"),
        _ => panic!("wrong variant"),
    }
}

#[test]
fn block_v0_rejects_structured_payload() {
    assert!(decode_block(0, &header_obj(tx_ids())).is_err());
    assert!(decode_block(0, &Json::Arr(vec![])).is_err());
    assert!(decode_block(0, &Json::Int(3)).is_err());
}

#[test]
fn block_v1_round_trips_every_field() {
    let r = decode_block(1, &header_obj(tx_ids())).unwrap();
    match r {
        GetBlockReply::One(b) => {
            assert_eq!(b.hash, "000000aa");
            assert_eq!(b.confirmations, 10);
            assert_eq!(b.strippedsize, 200);
            assert_eq!(b.size, 250);
            assert_eq!(b.weight, 800);
            assert_eq!(b.height, 5);
            assert_eq!(b.version, 2);
            assert_eq!(b.version_hex, "20000000");
            assert_eq!(b.merkleroot, "mroot");
            assert_eq!(b.tx, vec!["tx0".to_string(), "tx1".to_string()]);
            assert_eq!(b.time, 1234567890);
            assert_eq!(b.mediantime, 1234567880);
            assert_eq!(b.nonce, 42);
            assert_eq!(b.bits, "1d00ffff");
            assert_eq!(b.chainwork, "cwork");
            assert_eq!(b.previousblockhash, Some("000000pp".to_string()));
            assert_eq!(b.nextblockhash, None);
        },
        _ => panic!("wrong variant"),
    }
}

#[test]
fn block_v1_rejects_wrong_shapes() {
    assert!(decode_block(1, &s("00ff00aa")).is_err());
    assert!(decode_block(1, &header_obj(Json::Arr(vec![full_tx_obj()]))).is_err());
}

#[test]
fn block_v2_round_trips_full_transactions() {
    let r = decode_block(2, &header_obj(Json::Arr(vec![full_tx_obj()]))).unwrap();
    match r {
        GetBlockReply::Two(b) => {
            assert_eq!(b.hash, "000000aa");
            assert_eq!(b.tx.len(), 1);
            assert_eq!(b.tx[0].txid, "tx0");
            assert_eq!(b.tx[0].vout.len(), 1);
            assert_eq!(b.tx[0].vout[0].value, "50.00000000");
        },
        _ => panic!("wrong variant"),
    }
}

#[test]
fn block_v2_rejects_wrong_shapes() {
    assert!(decode_block(2, &s("00ff00aa")).is_err());
    assert!(decode_block(2, &header_obj(tx_ids())).is_err());
}

#[test]
fn empty_transaction_list_follows_the_requested_level() {
    // An empty list is syntactically valid under either structured shape;
    // only the verbosity the caller sent picks the variant.
    let r1 = decode_block(1, &header_obj(Json::Arr(vec![]))).unwrap();
    assert!(matches!(r1, GetBlockReply::One(_)));
    let r2 = decode_block(2, &header_obj(Json::Arr(vec![]))).unwrap();
    assert!(matches!(r2, GetBlockReply::Two(_)));
}

#[test]
fn block_missing_required_field_is_an_error() {
    let j = Json::Obj(vec![k("hash", s("000000aa"))]);
    assert!(decode_block(1, &j).is_err());
}

#[test]
fn block_wrong_field_type_is_an_error() {
    let j = match header_obj(tx_ids()) {
        Json::Obj(mut es) => {
            es[1] = k("confirmations", s("ten"));
            Json::Obj(es)
        },
        _ => unreachable!(),
    };
    assert!(decode_block(1, &j).is_err());
}

#[test]
fn block_unknown_extra_fields_are_ignored() {
    let j = match header_obj(tx_ids()) {
        Json::Obj(mut es) => {
            es.push(k("someday", Json::Int(7)));
            Json::Obj(es)
        },
        _ => unreachable!(),
    };
    assert!(decode_block(1, &j).is_ok());
}

#[test]
fn block_old_true_is_structured_false_is_serialized() {
    let r = decode_block_old(true, &header_obj(tx_ids())).unwrap();
    assert!(matches!(r, GetBlockReplyOld::True(_)));
    let r = decode_block_old(false, &s("00ff")).unwrap();
    match r {
        GetBlockReplyOld::False(sb) => assert_eq!(sb.result, "00ff"),
        _ => panic!("wrong variant"),
    }
    assert!(decode_block_old(true, &s("00ff")).is_err());
    assert!(decode_block_old(false, &header_obj(tx_ids())).is_err());
}
