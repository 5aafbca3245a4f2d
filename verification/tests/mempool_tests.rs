use bitcoin_rpc::decode::{decode_raw_mempool, decode_tx_description};
use bitcoin_rpc::json::Json;
use bitcoin_rpc::model::RawMemPool;

fn s(x: &str) -> Json {
    Json::Str(x.to_string())
}

fn k(key: &str, v: Json) -> (String, Json) {
    (key.to_string(), v)
}

fn desc_obj(txid: &str, fee: Json) -> Json {
    Json::Obj(vec![
        k("txid", s(txid)),
        k("size", Json::Int(226)),
        k("fee", fee),
        k("time", Json::Int(1500000000)),
        k("height", Json::Int(100)),
        k("startingpriority", Json::Int(0)),
        k("currentpriority", Json::Int(0)),
        k("depends", Json::Arr(vec![s("parent0")])),
    ])
}

#[test]
fn verbose_mempool_yields_one_descriptor_per_key() {
    let j = Json::Obj(vec![
        k("abc123", desc_obj("abc123", Json::Num("0.00010000".to_string()))),
        k("def456", desc_obj("def456", Json::Int(1))),
    ]);
    match decode_raw_mempool(true, &j).unwrap() {
        RawMemPool::True(entries) => {
            assert_eq!(entries.len(), 2);
            assert_eq!(entries[0].0, "abc123");
            assert_eq!(entries[0].1.txid, "abc123");
            assert_eq!(entries[0].1.fee, "0.00010000");
            assert_eq!(entries[0].1.depends, vec!["parent0".to_string()]);
            assert_eq!(entries[1].0, "def456");
            assert_eq!(entries[1].1.fee, "1");
        },
        _ => panic!("wrong variant"),
    }
}

#[test]
fn non_verbose_mempool_yields_the_list_unchanged() {
    let j = Json::Obj(vec![k("result", Json::Arr(vec![s("abc123"), s("def456")]))]);
    match decode_raw_mempool(false, &j).unwrap() {
        RawMemPool::False(t) => {
            assert_eq!(t.result, vec!["abc123".to_string(), "def456".to_string()]);
        },
        _ => panic!("wrong variant"),
    }
}

#[test]
fn each_mempool_shape_fails_against_the_other() {
    let mapping = Json::Obj(vec![
        k("abc123", desc_obj("abc123", Json::Int(1))),
    ]);
    let list = Json::Obj(vec![k("result", Json::Arr(vec![s("abc123")]))]);
    assert!(decode_raw_mempool(false, &mapping).is_err());
    assert!(decode_raw_mempool(true, &list).is_err());
}

#[test]
fn verbose_mempool_rejects_non_object_payloads() {
    assert!(decode_raw_mempool(true, &Json::Arr(vec![s("abc")])).is_err());
    assert!(decode_raw_mempool(true, &s("abc")).is_err());
}

#[test]
fn empty_mempool_decodes_under_both_flags() {
    let r = decode_raw_mempool(true, &Json::Obj(vec![])).unwrap();
    match r {
        RawMemPool::True(entries) => assert_eq!(entries.len(), 0),
        _ => panic!("wrong variant"),
    }
    let r = decode_raw_mempool(false, &Json::Obj(vec![k("result", Json::Arr(vec![]))])).unwrap();
    match r {
        RawMemPool::False(t) => assert_eq!(t.result.len(), 0),
        _ => panic!("wrong variant"),
    }
}

#[test]
fn descriptor_with_missing_fee_is_an_error() {
    let j = Json::Obj(vec![
        k("txid", s("abc")),
        k("size", Json::Int(226)),
        k("time", Json::Int(1500000000)),
        k("height", Json::Int(100)),
        k("startingpriority", Json::Int(0)),
        k("currentpriority", Json::Int(0)),
        k("depends", Json::Arr(vec![])),
    ]);
    assert!(decode_tx_description(&j).is_err());
    let mapping = Json::Obj(vec![k("abc", j)]);
    assert!(decode_raw_mempool(true, &mapping).is_err());
}

#[test]
fn descriptor_fee_accepts_text_and_integer_numbers_only() {
    assert!(decode_tx_description(&desc_obj("a", Json::Num("0.5".to_string()))).is_ok());
    assert!(decode_tx_description(&desc_obj("a", Json::Int(-3))).is_ok());
    assert!(decode_tx_description(&desc_obj("a", s("0.5"))).is_err());
    assert!(decode_tx_description(&desc_obj("a", Json::Bool(true))).is_err());
}
