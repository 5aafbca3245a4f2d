use vstd::prelude::*;
use vstd::string::StringExecFns;
use crate::errors::DecodeError;
use crate::json::{
    arr_of, field_of, get_spec, got_arr, got_i64, got_opt_str, got_str, got_str_arr, i64_of,
    json_get, obj_entries, opt_str_of, str_arr_of, str_of, want_arr, want_i64, want_opt_str,
    want_str, want_str_arr, Json,
};
use crate::json::{got_numtext, numtext_of, want_numtext};
use crate::model::{
    Block, FullBlock, GetBlockReply, GetBlockReplyOld, RawMemPool, ScriptPubKey, SerializedBlock,
    Transaction, TxDescription, Vin, VinCoinbase, VinTx, Vout, TXIDS,
};

verus! {

// ---------------------------------------------------------------------------
// Script descriptors
// ---------------------------------------------------------------------------

/// The wire name of the script disassembly field.
pub open spec fn disassembly_key() -> Seq<char> {
    seq!['a', 's', 'm']
}

/// Builds the disassembly field's wire key.
fn disassembly_key_string() -> (r: String)
    ensures
        r@ == disassembly_key(),
{
    proof {
        reveal_strlit("a");
        reveal_strlit("sm");
    }
    let mut s = String::from_str("a");
    s.append("sm");
    assert(s@ =~= disassembly_key());
    s
}

/// When a payload has the shape of a script descriptor.  The wire names
/// `reqSigs` and `type` use the daemon's own casing and are mapped to the
/// record's `req_sigs` and `script_type` fields.
pub open spec fn script_shape(j: Json) -> bool {
    &&& got_str(j, disassembly_key())
    &&& got_str(j, "hex"@)
    &&& got_i64(j, "reqSigs"@)
    &&& got_str(j, "type"@)
    &&& got_str_arr(j, "addresses"@)
}

/// The decoded script descriptor carries exactly the payload's fields.
pub open spec fn script_matches(v: ScriptPubKey, j: Json) -> bool {
    &&& v.disassembly@ == str_of(j, disassembly_key())
    &&& v.hex@ == str_of(j, "hex"@)
    &&& v.req_sigs as int == i64_of(j, "reqSigs"@)
    &&& v.script_type@ == str_of(j, "type"@)
    &&& v.addresses.deep_view() == str_arr_of(j, "addresses"@)
}

pub fn decode_script(j: &Json) -> (r: Result<ScriptPubKey, DecodeError>)
    ensures
        r is Ok <==> script_shape(*j),
        r matches Ok(v) ==> script_matches(v, *j),
{
    let dk = disassembly_key_string();
    let disassembly = match want_str(j, dk.as_str()) {
        Ok(v) => v,
        Err(e) => {
            return Err(e);
        },
    };
    let hex = match want_str(j, "hex") {
        Ok(v) => v,
        Err(e) => {
            return Err(e);
        },
    };
    let req_sigs = match want_i64(j, "reqSigs") {
        Ok(v) => v,
        Err(e) => {
            return Err(e);
        },
    };
    let script_type = match want_str(j, "type") {
        Ok(v) => v,
        Err(e) => {
            return Err(e);
        },
    };
    let addresses = match want_str_arr(j, "addresses") {
        Ok(v) => v,
        Err(e) => {
            return Err(e);
        },
    };
    Ok(ScriptPubKey { disassembly, hex, req_sigs, script_type, addresses })
}

// ---------------------------------------------------------------------------
// Transaction outputs
// ---------------------------------------------------------------------------

/// When a payload has the shape of a transaction output.  The value must be
/// a string, so its decimal text survives exactly.
pub open spec fn vout_shape(j: Json) -> bool {
    &&& got_str(j, "value"@)
    &&& got_i64(j, "n"@)
    &&& get_spec(j, "scriptPubKey"@) is Some
    &&& script_shape(field_of(j, "scriptPubKey"@))
}

pub open spec fn vout_matches(v: Vout, j: Json) -> bool {
    &&& v.value@ == str_of(j, "value"@)
    &&& v.n as int == i64_of(j, "n"@)
    &&& script_matches(v.script_pub_key, field_of(j, "scriptPubKey"@))
}

pub fn decode_vout(j: &Json) -> (r: Result<Vout, DecodeError>)
    ensures
        r is Ok <==> vout_shape(*j),
        r matches Ok(v) ==> vout_matches(v, *j),
{
    let value = match want_str(j, "value") {
        Ok(v) => v,
        Err(e) => {
            return Err(e);
        },
    };
    let n = match want_i64(j, "n") {
        Ok(v) => v,
        Err(e) => {
            return Err(e);
        },
    };
    let spk_j = match json_get(j, "scriptPubKey") {
        Some(v) => v,
        None => {
            return Err(DecodeError::new("scriptPubKey", "a script descriptor object"));
        },
    };
    let script_pub_key = match decode_script(spk_j) {
        Ok(v) => v,
        Err(e) => {
            return Err(e);
        },
    };
    Ok(Vout { value, n, script_pub_key })
}

// ---------------------------------------------------------------------------
// Transaction inputs
// ---------------------------------------------------------------------------

/// When a payload has the shape of a transaction input.  The coinbase and
/// spending variants have disjoint field sets, so the presence of the
/// `coinbase` field discriminates on its own: with it, the script and
/// sequence number must be well typed; without it, any object is the (empty)
/// spending variant.
pub open spec fn vin_shape(j: Json) -> bool {
    &&& j matches Json::Obj(_)
    &&& (get_spec(j, "coinbase"@) is Some ==> got_str(j, "coinbase"@) && got_i64(j, "sequence"@))
}

/// The decoded input follows the payload's own discrimination: a coinbase
/// payload keeps its script and sequence number exactly; a spending payload
/// becomes the empty spending record, with no fields invented.
pub open spec fn vin_matches(v: Vin, j: Json) -> bool {
    if get_spec(j, "coinbase"@) is Some {
        &&& v matches Vin::Coinbase(c)
        &&& c.coinbase@ == str_of(j, "coinbase"@)
        &&& c.sequence as int == i64_of(j, "sequence"@)
    } else {
        v matches Vin::Tx(_)
    }
}

pub fn decode_vin(j: &Json) -> (r: Result<Vin, DecodeError>)
    ensures
        r is Ok <==> vin_shape(*j),
        r matches Ok(v) ==> vin_matches(v, *j),
{
    match j {
        Json::Obj(_) => {
            match json_get(j, "coinbase") {
                Some(_) => {
                    let coinbase = match want_str(j, "coinbase") {
                        Ok(v) => v,
                        Err(e) => {
                            return Err(e);
                        },
                    };
                    let sequence = match want_i64(j, "sequence") {
                        Ok(v) => v,
                        Err(e) => {
                            return Err(e);
                        },
                    };
                    Ok(Vin::Coinbase(VinCoinbase { coinbase, sequence }))
                },
                None => Ok(Vin::Tx(VinTx {})),
            }
        },
        _ => Err(DecodeError::new("", "a transaction input object")),
    }
}

// ---------------------------------------------------------------------------
// Transactions
// ---------------------------------------------------------------------------

/// When a payload has the shape of a fully decoded transaction.
pub open spec fn tx_shape(j: Json) -> bool {
    &&& got_str(j, "txid"@)
    &&& got_str(j, "hash"@)
    &&& got_i64(j, "version"@)
    &&& got_i64(j, "size"@)
    &&& got_i64(j, "vsize"@)
    &&& got_i64(j, "locktime"@)
    &&& got_str(j, "hex"@)
    &&& got_arr(j, "vin"@)
    &&& forall|q: int| 0 <= q < arr_of(j, "vin"@).len() ==> vin_shape(#[trigger] arr_of(j, "vin"@)[q])
    &&& got_arr(j, "vout"@)
    &&& forall|q: int|
        0 <= q < arr_of(j, "vout"@).len() ==> vout_shape(#[trigger] arr_of(j, "vout"@)[q])
}

pub open spec fn tx_matches(v: Transaction, j: Json) -> bool {
    &&& v.txid@ == str_of(j, "txid"@)
    &&& v.hash@ == str_of(j, "hash"@)
    &&& v.version as int == i64_of(j, "version"@)
    &&& v.size as int == i64_of(j, "size"@)
    &&& v.vsize as int == i64_of(j, "vsize"@)
    &&& v.locktime as int == i64_of(j, "locktime"@)
    &&& v.hex@ == str_of(j, "hex"@)
    &&& v.vin@.len() == arr_of(j, "vin"@).len()
    &&& forall|q: int| 0 <= q < v.vin@.len() ==> vin_matches(#[trigger] v.vin@[q], arr_of(j, "vin"@)[q])
    &&& v.vout@.len() == arr_of(j, "vout"@).len()
    &&& forall|q: int|
        0 <= q < v.vout@.len() ==> vout_matches(#[trigger] v.vout@[q], arr_of(j, "vout"@)[q])
}

pub fn decode_transaction(j: &Json) -> (r: Result<Transaction, DecodeError>)
    ensures
        r is Ok <==> tx_shape(*j),
        r matches Ok(v) ==> tx_matches(v, *j),
{
    let txid = match want_str(j, "txid") {
        Ok(v) => v,
        Err(e) => {
            return Err(e);
        },
    };
    let hash = match want_str(j, "hash") {
        Ok(v) => v,
        Err(e) => {
            return Err(e);
        },
    };
    let version = match want_i64(j, "version") {
        Ok(v) => v,
        Err(e) => {
            return Err(e);
        },
    };
    let size = match want_i64(j, "size") {
        Ok(v) => v,
        Err(e) => {
            return Err(e);
        },
    };
    let vsize = match want_i64(j, "vsize") {
        Ok(v) => v,
        Err(e) => {
            return Err(e);
        },
    };
    let locktime = match want_i64(j, "locktime") {
        Ok(v) => v,
        Err(e) => {
            return Err(e);
        },
    };
    let hex = match want_str(j, "hex") {
        Ok(v) => v,
        Err(e) => {
            return Err(e);
        },
    };
    let vin_arr = match want_arr(j, "vin") {
        Ok(v) => v,
        Err(e) => {
            return Err(e);
        },
    };
    let mut vin: Vec<Vin> = Vec::new();
    let mut i: usize = 0;
    while i < vin_arr.len()
        invariant
            i <= vin_arr.len(),
            vin_arr@ == arr_of(*j, "vin"@),
            vin@.len() == i as int,
            forall|q: int|
                0 <= q < i ==> vin_shape(#[trigger] arr_of(*j, "vin"@)[q]) && vin_matches(
                    vin@[q],
                    arr_of(*j, "vin"@)[q],
                ),
        decreases vin_arr.len() - i,
    {
        match decode_vin(&vin_arr[i]) {
            Ok(v) => vin.push(v),
            Err(e) => {
                return Err(e);
            },
        }
        i += 1;
    }
    let vout_arr = match want_arr(j, "vout") {
        Ok(v) => v,
        Err(e) => {
            return Err(e);
        },
    };
    let mut vout: Vec<Vout> = Vec::new();
    let mut w: usize = 0;
    while w < vout_arr.len()
        invariant
            w <= vout_arr.len(),
            vout_arr@ == arr_of(*j, "vout"@),
            vout@.len() == w as int,
            forall|q: int|
                0 <= q < w ==> vout_shape(#[trigger] arr_of(*j, "vout"@)[q]) && vout_matches(
                    vout@[q],
                    arr_of(*j, "vout"@)[q],
                ),
        decreases vout_arr.len() - w,
    {
        match decode_vout(&vout_arr[w]) {
            Ok(v) => vout.push(v),
            Err(e) => {
                return Err(e);
            },
        }
        w += 1;
    }
    Ok(Transaction { txid, hash, version, size, vsize, locktime, vin, vout, hex })
}

// ---------------------------------------------------------------------------
// Blocks
// ---------------------------------------------------------------------------

/// When a payload has the header fields that block shapes 1 and 2 share.
pub open spec fn block_header_shape(j: Json) -> bool {
    &&& got_str(j, "hash"@)
    &&& got_i64(j, "confirmations"@)
    &&& got_i64(j, "strippedsize"@)
    &&& got_i64(j, "size"@)
    &&& got_i64(j, "weight"@)
    &&& got_i64(j, "height"@)
    &&& got_i64(j, "version"@)
    &&& got_str(j, "version_hex"@)
    &&& got_str(j, "merkleroot"@)
    &&& got_i64(j, "time"@)
    &&& got_i64(j, "mediantime"@)
    &&& got_i64(j, "nonce"@)
    &&& got_str(j, "bits"@)
    &&& got_str(j, "chainwork"@)
    &&& got_opt_str(j, "previousblockhash"@)
    &&& got_opt_str(j, "nextblockhash"@)
}

/// Shape 1: the header plus transaction identifiers only.
pub open spec fn block_shape(j: Json) -> bool {
    &&& block_header_shape(j)
    &&& got_str_arr(j, "tx"@)
}

/// Shape 2: the header plus fully decoded transaction records.
pub open spec fn full_block_shape(j: Json) -> bool {
    &&& block_header_shape(j)
    &&& got_arr(j, "tx"@)
    &&& forall|q: int| 0 <= q < arr_of(j, "tx"@).len() ==> tx_shape(#[trigger] arr_of(j, "tx"@)[q])
}

pub open spec fn block_matches(v: Block, j: Json) -> bool {
    &&& v.hash@ == str_of(j, "hash"@)
    &&& v.confirmations as int == i64_of(j, "confirmations"@)
    &&& v.strippedsize as int == i64_of(j, "strippedsize"@)
    &&& v.size as int == i64_of(j, "size"@)
    &&& v.weight as int == i64_of(j, "weight"@)
    &&& v.height as int == i64_of(j, "height"@)
    &&& v.version as int == i64_of(j, "version"@)
    &&& v.version_hex@ == str_of(j, "version_hex"@)
    &&& v.merkleroot@ == str_of(j, "merkleroot"@)
    &&& v.tx.deep_view() == str_arr_of(j, "tx"@)
    &&& v.time as int == i64_of(j, "time"@)
    &&& v.mediantime as int == i64_of(j, "mediantime"@)
    &&& v.nonce as int == i64_of(j, "nonce"@)
    &&& v.bits@ == str_of(j, "bits"@)
    &&& v.chainwork@ == str_of(j, "chainwork"@)
    &&& v.previousblockhash.deep_view() == opt_str_of(j, "previousblockhash"@)
    &&& v.nextblockhash.deep_view() == opt_str_of(j, "nextblockhash"@)
}

pub open spec fn full_block_matches(v: FullBlock, j: Json) -> bool {
    &&& v.hash@ == str_of(j, "hash"@)
    &&& v.confirmations as int == i64_of(j, "confirmations"@)
    &&& v.strippedsize as int == i64_of(j, "strippedsize"@)
    &&& v.size as int == i64_of(j, "size"@)
    &&& v.weight as int == i64_of(j, "weight"@)
    &&& v.height as int == i64_of(j, "height"@)
    &&& v.version as int == i64_of(j, "version"@)
    &&& v.version_hex@ == str_of(j, "version_hex"@)
    &&& v.merkleroot@ == str_of(j, "merkleroot"@)
    &&& v.tx@.len() == arr_of(j, "tx"@).len()
    &&& forall|q: int| 0 <= q < v.tx@.len() ==> tx_matches(#[trigger] v.tx@[q], arr_of(j, "tx"@)[q])
    &&& v.time as int == i64_of(j, "time"@)
    &&& v.mediantime as int == i64_of(j, "mediantime"@)
    &&& v.nonce as int == i64_of(j, "nonce"@)
    &&& v.bits@ == str_of(j, "bits"@)
    &&& v.chainwork@ == str_of(j, "chainwork"@)
    &&& v.previousblockhash.deep_view() == opt_str_of(j, "previousblockhash"@)
    &&& v.nextblockhash.deep_view() == opt_str_of(j, "nextblockhash"@)
}

/// Decodes a shape-1 block record.
pub fn decode_block_obj(j: &Json) -> (r: Result<Block, DecodeError>)
    ensures
        r is Ok <==> block_shape(*j),
        r matches Ok(v) ==> block_matches(v, *j),
{
    let hash = match want_str(j, "hash") {
        Ok(v) => v,
        Err(e) => {
            return Err(e);
        },
    };
    let confirmations = match want_i64(j, "confirmations") {
        Ok(v) => v,
        Err(e) => {
            return Err(e);
        },
    };
    let strippedsize = match want_i64(j, "strippedsize") {
        Ok(v) => v,
        Err(e) => {
            return Err(e);
        },
    };
    let size = match want_i64(j, "size") {
        Ok(v) => v,
        Err(e) => {
            return Err(e);
        },
    };
    let weight = match want_i64(j, "weight") {
        Ok(v) => v,
        Err(e) => {
            return Err(e);
        },
    };
    let height = match want_i64(j, "height") {
        Ok(v) => v,
        Err(e) => {
            return Err(e);
        },
    };
    let version = match want_i64(j, "version") {
        Ok(v) => v,
        Err(e) => {
            return Err(e);
        },
    };
    let version_hex = match want_str(j, "version_hex") {
        Ok(v) => v,
        Err(e) => {
            return Err(e);
        },
    };
    let merkleroot = match want_str(j, "merkleroot") {
        Ok(v) => v,
        Err(e) => {
            return Err(e);
        },
    };
    let tx = match want_str_arr(j, "tx") {
        Ok(v) => v,
        Err(e) => {
            return Err(e);
        },
    };
    let time = match want_i64(j, "time") {
        Ok(v) => v,
        Err(e) => {
            return Err(e);
        },
    };
    let mediantime = match want_i64(j, "mediantime") {
        Ok(v) => v,
        Err(e) => {
            return Err(e);
        },
    };
    let nonce = match want_i64(j, "nonce") {
        Ok(v) => v,
        Err(e) => {
            return Err(e);
        },
    };
    let bits = match want_str(j, "bits") {
        Ok(v) => v,
        Err(e) => {
            return Err(e);
        },
    };
    let chainwork = match want_str(j, "chainwork") {
        Ok(v) => v,
        Err(e) => {
            return Err(e);
        },
    };
    let previousblockhash = match want_opt_str(j, "previousblockhash") {
        Ok(v) => v,
        Err(e) => {
            return Err(e);
        },
    };
    let nextblockhash = match want_opt_str(j, "nextblockhash") {
        Ok(v) => v,
        Err(e) => {
            return Err(e);
        },
    };
    Ok(
        Block {
            hash,
            confirmations,
            strippedsize,
            size,
            weight,
            height,
            version,
            version_hex,
            merkleroot,
            tx,
            time,
            mediantime,
            nonce,
            bits,
            chainwork,
            previousblockhash,
            nextblockhash,
        },
    )
}

/// Decodes a shape-2 block record.
pub fn decode_full_block_obj(j: &Json) -> (r: Result<FullBlock, DecodeError>)
    ensures
        r is Ok <==> full_block_shape(*j),
        r matches Ok(v) ==> full_block_matches(v, *j),
{
    let hash = match want_str(j, "hash") {
        Ok(v) => v,
        Err(e) => {
            return Err(e);
        },
    };
    let confirmations = match want_i64(j, "confirmations") {
        Ok(v) => v,
        Err(e) => {
            return Err(e);
        },
    };
    let strippedsize = match want_i64(j, "strippedsize") {
        Ok(v) => v,
        Err(e) => {
            return Err(e);
        },
    };
    let size = match want_i64(j, "size") {
        Ok(v) => v,
        Err(e) => {
            return Err(e);
        },
    };
    let weight = match want_i64(j, "weight") {
        Ok(v) => v,
        Err(e) => {
            return Err(e);
        },
    };
    let height = match want_i64(j, "height") {
        Ok(v) => v,
        Err(e) => {
            return Err(e);
        },
    };
    let version = match want_i64(j, "version") {
        Ok(v) => v,
        Err(e) => {
            return Err(e);
        },
    };
    let version_hex = match want_str(j, "version_hex") {
        Ok(v) => v,
        Err(e) => {
            return Err(e);
        },
    };
    let merkleroot = match want_str(j, "merkleroot") {
        Ok(v) => v,
        Err(e) => {
            return Err(e);
        },
    };
    let tx_arr = match want_arr(j, "tx") {
        Ok(v) => v,
        Err(e) => {
            return Err(e);
        },
    };
    let mut tx: Vec<Transaction> = Vec::new();
    let mut i: usize = 0;
    while i < tx_arr.len()
        invariant
            i <= tx_arr.len(),
            tx_arr@ == arr_of(*j, "tx"@),
            tx@.len() == i as int,
            forall|q: int|
                0 <= q < i ==> tx_shape(#[trigger] arr_of(*j, "tx"@)[q]) && tx_matches(
                    tx@[q],
                    arr_of(*j, "tx"@)[q],
                ),
        decreases tx_arr.len() - i,
    {
        match decode_transaction(&tx_arr[i]) {
            Ok(v) => tx.push(v),
            Err(e) => {
                return Err(e);
            },
        }
        i += 1;
    }
    let time = match want_i64(j, "time") {
        Ok(v) => v,
        Err(e) => {
            return Err(e);
        },
    };
    let mediantime = match want_i64(j, "mediantime") {
        Ok(v) => v,
        Err(e) => {
            return Err(e);
        },
    };
    let nonce = match want_i64(j, "nonce") {
        Ok(v) => v,
        Err(e) => {
            return Err(e);
        },
    };
    let bits = match want_str(j, "bits") {
        Ok(v) => v,
        Err(e) => {
            return Err(e);
        },
    };
    let chainwork = match want_str(j, "chainwork") {
        Ok(v) => v,
        Err(e) => {
            return Err(e);
        },
    };
    let previousblockhash = match want_opt_str(j, "previousblockhash") {
        Ok(v) => v,
        Err(e) => {
            return Err(e);
        },
    };
    let nextblockhash = match want_opt_str(j, "nextblockhash") {
        Ok(v) => v,
        Err(e) => {
            return Err(e);
        },
    };
    Ok(
        FullBlock {
            hash,
            confirmations,
            strippedsize,
            size,
            weight,
            height,
            version,
            version_hex,
            merkleroot,
            tx,
            time,
            mediantime,
            nonce,
            bits,
            chainwork,
            previousblockhash,
            nextblockhash,
        },
    )
}

/// Why the requested verbosity is authoritative rather than inferred: a
/// structured block payload with an empty transaction list satisfies the
/// level-1 and the level-2 shape alike, so the payload alone cannot pick the
/// variant; only the level the caller sent on the same call can.
pub proof fn lemma_empty_tx_list_is_ambiguous(j: Json)
    requires
        block_header_shape(j),
        got_arr(j, "tx"@),
        arr_of(j, "tx"@).len() == 0,
    ensures
        block_shape(j),
        full_block_shape(j),
{
}

/// The payload text of a bare-string payload; meaningful only for `Json::Str`.
pub open spec fn bare_str_of(j: Json) -> Seq<char> {
    match j {
        Json::Str(s) => s@,
        _ => Seq::empty(),
    }
}

/// Which shape a block payload must have for a requested verbosity level:
/// the verbosity the caller sent is authoritative, and a payload that
/// contradicts it is an error, never a silent reinterpretation.
pub open spec fn block_reply_shape(v: int, j: Json) -> bool {
    if v == 0 {
        j matches Json::Str(_)
    } else if v == 1 {
        block_shape(j)
    } else {
        full_block_shape(j)
    }
}

/// The decoded reply's variant follows the requested verbosity level, and
/// every field of the matching shape is carried over.
pub open spec fn block_reply_matches(v: int, g: GetBlockReply, j: Json) -> bool {
    if v == 0 {
        g matches GetBlockReply::Zero(sb) && sb.result@ == bare_str_of(j)
    } else if v == 1 {
        g matches GetBlockReply::One(b) && block_matches(b, j)
    } else {
        g matches GetBlockReply::Two(b) && full_block_matches(b, j)
    }
}

/// Decodes a block payload at the verbosity level the caller sent on the
/// same call.  Level 0 demands a bare string, level 1 a record whose
/// transaction list holds identifiers, level 2 one whose list holds full
/// transaction records; any other payload shape for the requested level is
/// a decode error.
pub fn decode_block(verbosity: u8, j: &Json) -> (r: Result<GetBlockReply, DecodeError>)
    requires
        verbosity <= 2,
    ensures
        r is Ok <==> block_reply_shape(verbosity as int, *j),
        r matches Ok(g) ==> block_reply_matches(verbosity as int, g, *j),
{
    if verbosity == 0 {
        match j {
            Json::Str(s) => Ok(GetBlockReply::Zero(SerializedBlock { result: s.clone() })),
            _ => Err(DecodeError::new("", "a serialized block string (verbosity 0)")),
        }
    } else if verbosity == 1 {
        match decode_block_obj(j) {
            Ok(b) => Ok(GetBlockReply::One(b)),
            Err(e) => Err(e),
        }
    } else {
        match decode_full_block_obj(j) {
            Ok(b) => Ok(GetBlockReply::Two(b)),
            Err(e) => Err(e),
        }
    }
}

/// Which shape a block payload must have under the legacy boolean flag.
pub open spec fn block_reply_old_shape(verbose: bool, j: Json) -> bool {
    if verbose {
        block_shape(j)
    } else {
        j matches Json::Str(_)
    }
}

pub open spec fn block_reply_old_matches(verbose: bool, g: GetBlockReplyOld, j: Json) -> bool {
    if verbose {
        g matches GetBlockReplyOld::True(b) && block_matches(b, j)
    } else {
        g matches GetBlockReplyOld::False(sb) && sb.result@ == bare_str_of(j)
    }
}

/// Decodes a block payload under the legacy boolean verbosity flag.
pub fn decode_block_old(verbose: bool, j: &Json) -> (r: Result<GetBlockReplyOld, DecodeError>)
    ensures
        r is Ok <==> block_reply_old_shape(verbose, *j),
        r matches Ok(g) ==> block_reply_old_matches(verbose, g, *j),
{
    if verbose {
        match decode_block_obj(j) {
            Ok(b) => Ok(GetBlockReplyOld::True(b)),
            Err(e) => Err(e),
        }
    } else {
        match j {
            Json::Str(s) => Ok(GetBlockReplyOld::False(SerializedBlock { result: s.clone() })),
            _ => Err(DecodeError::new("", "a serialized block string")),
        }
    }
}

// ---------------------------------------------------------------------------
// Mempool entries
// ---------------------------------------------------------------------------

/// When a payload has the shape of one mempool entry's descriptor.
pub open spec fn txdesc_shape(j: Json) -> bool {
    &&& got_str(j, "txid"@)
    &&& got_i64(j, "size"@)
    &&& got_numtext(j, "fee"@)
    &&& got_i64(j, "time"@)
    &&& got_i64(j, "height"@)
    &&& got_i64(j, "startingpriority"@)
    &&& got_i64(j, "currentpriority"@)
    &&& got_str_arr(j, "depends"@)
}

pub open spec fn txdesc_matches(v: TxDescription, j: Json) -> bool {
    &&& v.txid@ == str_of(j, "txid"@)
    &&& v.size as int == i64_of(j, "size"@)
    &&& v.fee@ == numtext_of(j, "fee"@)
    &&& v.time as int == i64_of(j, "time"@)
    &&& v.height as int == i64_of(j, "height"@)
    &&& v.startingpriority as int == i64_of(j, "startingpriority"@)
    &&& v.currentpriority as int == i64_of(j, "currentpriority"@)
    &&& v.depends.deep_view() == str_arr_of(j, "depends"@)
}

pub fn decode_tx_description(j: &Json) -> (r: Result<TxDescription, DecodeError>)
    ensures
        r is Ok <==> txdesc_shape(*j),
        r matches Ok(v) ==> txdesc_matches(v, *j),
{
    let txid = match want_str(j, "txid") {
        Ok(v) => v,
        Err(e) => {
            return Err(e);
        },
    };
    let size = match want_i64(j, "size") {
        Ok(v) => v,
        Err(e) => {
            return Err(e);
        },
    };
    let fee = match want_numtext(j, "fee") {
        Ok(v) => v,
        Err(e) => {
            return Err(e);
        },
    };
    let time = match want_i64(j, "time") {
        Ok(v) => v,
        Err(e) => {
            return Err(e);
        },
    };
    let height = match want_i64(j, "height") {
        Ok(v) => v,
        Err(e) => {
            return Err(e);
        },
    };
    let startingpriority = match want_i64(j, "startingpriority") {
        Ok(v) => v,
        Err(e) => {
            return Err(e);
        },
    };
    let currentpriority = match want_i64(j, "currentpriority") {
        Ok(v) => v,
        Err(e) => {
            return Err(e);
        },
    };
    let depends = match want_str_arr(j, "depends") {
        Ok(v) => v,
        Err(e) => {
            return Err(e);
        },
    };
    Ok(
        TxDescription {
            txid,
            size,
            fee,
            time,
            height,
            startingpriority,
            currentpriority,
            depends,
        },
    )
}

/// Verbose mempool payload: a mapping whose every value is a descriptor.
pub open spec fn mempool_map_shape(j: Json) -> bool {
    &&& j matches Json::Obj(_)
    &&& forall|q: int| 0 <= q < obj_entries(j).len() ==> txdesc_shape((#[trigger] obj_entries(j)[q]).1)
}

/// One decoded descriptor per key, in the payload's own entry order.
pub open spec fn mempool_map_matches(m: Seq<(String, TxDescription)>, j: Json) -> bool {
    &&& m.len() == obj_entries(j).len()
    &&& forall|q: int|
        0 <= q < m.len() ==> (#[trigger] m[q]).0@ == obj_entries(j)[q].0@ && txdesc_matches(
            m[q].1,
            obj_entries(j)[q].1,
        )
}

/// Non-verbose mempool payload: a record holding the plain list of ids.
pub open spec fn txids_shape(j: Json) -> bool {
    got_str_arr(j, "result"@)
}

pub open spec fn txids_matches(t: TXIDS, j: Json) -> bool {
    t.result.deep_view() == str_arr_of(j, "result"@)
}

/// Which shape a mempool payload must have for the verbose flag the caller
/// sent: the flag is authoritative, exactly as for blocks.
pub open spec fn raw_mempool_shape(verbose: bool, j: Json) -> bool {
    if verbose {
        mempool_map_shape(j)
    } else {
        txids_shape(j)
    }
}

pub open spec fn raw_mempool_matches(verbose: bool, m: RawMemPool, j: Json) -> bool {
    if verbose {
        m matches RawMemPool::True(entries) && mempool_map_matches(entries@, j)
    } else {
        m matches RawMemPool::False(t) && txids_matches(t, j)
    }
}

/// Decodes a mempool payload under the verbose flag the caller sent on the
/// same call: `true` demands a mapping from id to descriptor and yields one
/// decoded descriptor per key; `false` demands the plain id list and yields
/// it unchanged, order kept.
pub fn decode_raw_mempool(verbose: bool, j: &Json) -> (r: Result<RawMemPool, DecodeError>)
    ensures
        r is Ok <==> raw_mempool_shape(verbose, *j),
        r matches Ok(m) ==> raw_mempool_matches(verbose, m, *j),
{
    if verbose {
        match j {
            Json::Obj(es) => {
                let mut out: Vec<(String, TxDescription)> = Vec::new();
                let mut i: usize = 0;
                while i < es.len()
                    invariant
                        verbose,
                        i <= es.len(),
                        obj_entries(*j) == es@,
                        out@.len() == i as int,
                        forall|q: int|
                            0 <= q < i ==> txdesc_shape((#[trigger] es@[q]).1) && out@[q].0@
                                == es@[q].0@ && txdesc_matches(out@[q].1, es@[q].1),
                    decreases es.len() - i,
                {
                    let key = es[i].0.clone();
                    match decode_tx_description(&es[i].1) {
                        Ok(d) => out.push((key, d)),
                        Err(e) => {
                            assert(!txdesc_shape(obj_entries(*j)[i as int].1));
                            return Err(e);
                        },
                    }
                    i += 1;
                }
                Ok(RawMemPool::True(out))
            },
            _ => Err(DecodeError::new("", "a mapping from txid to description")),
        }
    } else {
        match want_str_arr(j, "result") {
            Ok(v) => Ok(RawMemPool::False(TXIDS { result: v })),
            Err(e) => Err(e),
        }
    }
}

} // verus!
