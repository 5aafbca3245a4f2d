use vstd::prelude::*;
use crate::errors::DecodeError;
use crate::json::{
    arr_of, bool_of, field_of, get_spec, got_arr, got_bool, got_i64, got_numtext, got_str,
    got_u64, i64_of, json_get, numtext_of, str_of, want_arr, want_bool, want_i64, want_numtext,
    want_str, want_u64, Json,
};
use crate::model::{BlockChainInfo, Enforce, MemPoolInfo, Reject, Softfork, Tip, TxOut,
    TxOutSetInfo};
use crate::decode::{decode_script, script_matches, script_shape};

verus! {

// ---------------------------------------------------------------------------
// Soft forks and chain info
// ---------------------------------------------------------------------------

/// When a payload has the shape of an enforcement or rejection window.
pub open spec fn window_shape(j: Json) -> bool {
    &&& got_bool(j, "status"@)
    &&& got_i64(j, "found"@)
    &&& got_i64(j, "required"@)
    &&& got_i64(j, "window"@)
}

pub open spec fn enforce_matches(v: Enforce, j: Json) -> bool {
    &&& v.status == bool_of(j, "status"@)
    &&& v.found as int == i64_of(j, "found"@)
    &&& v.required as int == i64_of(j, "required"@)
    &&& v.window as int == i64_of(j, "window"@)
}

pub open spec fn reject_matches(v: Reject, j: Json) -> bool {
    &&& v.status == bool_of(j, "status"@)
    &&& v.found as int == i64_of(j, "found"@)
    &&& v.required as int == i64_of(j, "required"@)
    &&& v.window as int == i64_of(j, "window"@)
}

pub fn decode_enforce(j: &Json) -> (r: Result<Enforce, DecodeError>)
    ensures
        r is Ok <==> window_shape(*j),
        r matches Ok(v) ==> enforce_matches(v, *j),
{
    let status = match want_bool(j, "status") {
        Ok(v) => v,
        Err(e) => {
            return Err(e);
        },
    };
    let found = match want_i64(j, "found") {
        Ok(v) => v,
        Err(e) => {
            return Err(e);
        },
    };
    let required = match want_i64(j, "required") {
        Ok(v) => v,
        Err(e) => {
            return Err(e);
        },
    };
    let window = match want_i64(j, "window") {
        Ok(v) => v,
        Err(e) => {
            return Err(e);
        },
    };
    Ok(Enforce { status, found, required, window })
}

pub fn decode_reject(j: &Json) -> (r: Result<Reject, DecodeError>)
    ensures
        r is Ok <==> window_shape(*j),
        r matches Ok(v) ==> reject_matches(v, *j),
{
    let status = match want_bool(j, "status") {
        Ok(v) => v,
        Err(e) => {
            return Err(e);
        },
    };
    let found = match want_i64(j, "found") {
        Ok(v) => v,
        Err(e) => {
            return Err(e);
        },
    };
    let required = match want_i64(j, "required") {
        Ok(v) => v,
        Err(e) => {
            return Err(e);
        },
    };
    let window = match want_i64(j, "window") {
        Ok(v) => v,
        Err(e) => {
            return Err(e);
        },
    };
    Ok(Reject { status, found, required, window })
}

/// When a payload has the shape of a soft-fork descriptor.
pub open spec fn softfork_shape(j: Json) -> bool {
    &&& got_str(j, "id"@)
    &&& got_i64(j, "version"@)
    &&& get_spec(j, "enforce"@) is Some
    &&& window_shape(field_of(j, "enforce"@))
    &&& get_spec(j, "reject"@) is Some
    &&& window_shape(field_of(j, "reject"@))
}

pub open spec fn softfork_matches(v: Softfork, j: Json) -> bool {
    &&& v.id@ == str_of(j, "id"@)
    &&& v.version as int == i64_of(j, "version"@)
    &&& enforce_matches(v.enforce, field_of(j, "enforce"@))
    &&& reject_matches(v.reject, field_of(j, "reject"@))
}

pub fn decode_softfork(j: &Json) -> (r: Result<Softfork, DecodeError>)
    ensures
        r is Ok <==> softfork_shape(*j),
        r matches Ok(v) ==> softfork_matches(v, *j),
{
    let id = match want_str(j, "id") {
        Ok(v) => v,
        Err(e) => {
            return Err(e);
        },
    };
    let version = match want_i64(j, "version") {
        Ok(v) => v,
        Err(e) => {
            return Err(e);
        },
    };
    let enforce_j = match json_get(j, "enforce") {
        Some(v) => v,
        None => {
            return Err(DecodeError::new("enforce", "an enforcement window object"));
        },
    };
    let enforce = match decode_enforce(enforce_j) {
        Ok(v) => v,
        Err(e) => {
            return Err(e);
        },
    };
    let reject_j = match json_get(j, "reject") {
        Some(v) => v,
        None => {
            return Err(DecodeError::new("reject", "a rejection window object"));
        },
    };
    let reject = match decode_reject(reject_j) {
        Ok(v) => v,
        Err(e) => {
            return Err(e);
        },
    };
    Ok(Softfork { id, version, enforce, reject })
}

/// When a payload has the shape of the chain info record.  The difficulty
/// and verification progress are numbers, kept as exact decimal text.
pub open spec fn chain_info_shape(j: Json) -> bool {
    &&& got_str(j, "chain"@)
    &&& got_i64(j, "blocks"@)
    &&& got_i64(j, "headers"@)
    &&& got_str(j, "bestblockhash"@)
    &&& got_numtext(j, "difficulty"@)
    &&& got_i64(j, "mediantime"@)
    &&& got_numtext(j, "verificationprogress"@)
    &&& got_str(j, "chainwork"@)
    &&& got_bool(j, "pruned"@)
    &&& got_arr(j, "softforks"@)
    &&& forall|q: int|
        0 <= q < arr_of(j, "softforks"@).len() ==> softfork_shape(
            #[trigger] arr_of(j, "softforks"@)[q],
        )
}

pub open spec fn chain_info_matches(v: BlockChainInfo, j: Json) -> bool {
    &&& v.chain@ == str_of(j, "chain"@)
    &&& v.blocks as int == i64_of(j, "blocks"@)
    &&& v.headers as int == i64_of(j, "headers"@)
    &&& v.bestblockhash@ == str_of(j, "bestblockhash"@)
    &&& v.difficulty@ == numtext_of(j, "difficulty"@)
    &&& v.mediantime as int == i64_of(j, "mediantime"@)
    &&& v.verificationprogress@ == numtext_of(j, "verificationprogress"@)
    &&& v.chainwork@ == str_of(j, "chainwork"@)
    &&& v.pruned == bool_of(j, "pruned"@)
    &&& v.softforks@.len() == arr_of(j, "softforks"@).len()
    &&& forall|q: int|
        0 <= q < v.softforks@.len() ==> softfork_matches(
            #[trigger] v.softforks@[q],
            arr_of(j, "softforks"@)[q],
        )
}

pub fn decode_chain_info(j: &Json) -> (r: Result<BlockChainInfo, DecodeError>)
    ensures
        r is Ok <==> chain_info_shape(*j),
        r matches Ok(v) ==> chain_info_matches(v, *j),
{
    let chain = match want_str(j, "chain") {
        Ok(v) => v,
        Err(e) => {
            return Err(e);
        },
    };
    let blocks = match want_i64(j, "blocks") {
        Ok(v) => v,
        Err(e) => {
            return Err(e);
        },
    };
    let headers = match want_i64(j, "headers") {
        Ok(v) => v,
        Err(e) => {
            return Err(e);
        },
    };
    let bestblockhash = match want_str(j, "bestblockhash") {
        Ok(v) => v,
        Err(e) => {
            return Err(e);
        },
    };
    let difficulty = match want_numtext(j, "difficulty") {
        Ok(v) => v,
        Err(e) => {
            return Err(e);
        },
    };
    let mediantime = match want_i64(j, "mediantime") {
        Ok(v) => v,
        Err(e) => {
            return Err(e);
        },
    };
    let verificationprogress = match want_numtext(j, "verificationprogress") {
        Ok(v) => v,
        Err(e) => {
            return Err(e);
        },
    };
    let chainwork = match want_str(j, "chainwork") {
        Ok(v) => v,
        Err(e) => {
            return Err(e);
        },
    };
    let pruned = match want_bool(j, "pruned") {
        Ok(v) => v,
        Err(e) => {
            return Err(e);
        },
    };
    let sf_arr = match want_arr(j, "softforks") {
        Ok(v) => v,
        Err(e) => {
            return Err(e);
        },
    };
    let mut softforks: Vec<Softfork> = Vec::new();
    let mut i: usize = 0;
    while i < sf_arr.len()
        invariant
            i <= sf_arr.len(),
            sf_arr@ == arr_of(*j, "softforks"@),
            softforks@.len() == i as int,
            forall|q: int|
                0 <= q < i ==> softfork_shape(#[trigger] arr_of(*j, "softforks"@)[q])
                    && softfork_matches(softforks@[q], arr_of(*j, "softforks"@)[q]),
        decreases sf_arr.len() - i,
    {
        match decode_softfork(&sf_arr[i]) {
            Ok(v) => softforks.push(v),
            Err(e) => {
                return Err(e);
            },
        }
        i += 1;
    }
    Ok(
        BlockChainInfo {
            chain,
            blocks,
            headers,
            bestblockhash,
            difficulty,
            mediantime,
            verificationprogress,
            chainwork,
            pruned,
            softforks,
        },
    )
}

// ---------------------------------------------------------------------------
// Chain tips, mempool info, and the UTXO records
// ---------------------------------------------------------------------------

/// When a payload has the shape of a chain-tip descriptor.
pub open spec fn tip_shape(j: Json) -> bool {
    &&& got_u64(j, "height"@)
    &&& got_str(j, "hash"@)
    &&& got_u64(j, "branchlen"@)
    &&& got_str(j, "status"@)
}

pub open spec fn tip_matches(v: Tip, j: Json) -> bool {
    &&& v.height as int == i64_of(j, "height"@)
    &&& v.hash@ == str_of(j, "hash"@)
    &&& v.branchlen as int == i64_of(j, "branchlen"@)
    &&& v.status@ == str_of(j, "status"@)
}

pub fn decode_tip(j: &Json) -> (r: Result<Tip, DecodeError>)
    ensures
        r is Ok <==> tip_shape(*j),
        r matches Ok(v) ==> tip_matches(v, *j),
{
    let height = match want_u64(j, "height") {
        Ok(v) => v,
        Err(e) => {
            return Err(e);
        },
    };
    let hash = match want_str(j, "hash") {
        Ok(v) => v,
        Err(e) => {
            return Err(e);
        },
    };
    let branchlen = match want_u64(j, "branchlen") {
        Ok(v) => v,
        Err(e) => {
            return Err(e);
        },
    };
    let status = match want_str(j, "status") {
        Ok(v) => v,
        Err(e) => {
            return Err(e);
        },
    };
    Ok(Tip { height, hash, branchlen, status })
}

/// When a payload has the shape of the mempool aggregate info record.  The
/// minimum relay fee is a number, kept as exact decimal text.
pub open spec fn mempool_info_shape(j: Json) -> bool {
    &&& got_i64(j, "size"@)
    &&& got_i64(j, "bytes"@)
    &&& got_i64(j, "usage"@)
    &&& got_i64(j, "maxmempool"@)
    &&& got_numtext(j, "mempoolminfee"@)
}

pub open spec fn mempool_info_matches(v: MemPoolInfo, j: Json) -> bool {
    &&& v.size as int == i64_of(j, "size"@)
    &&& v.bytes as int == i64_of(j, "bytes"@)
    &&& v.usage as int == i64_of(j, "usage"@)
    &&& v.maxmempool as int == i64_of(j, "maxmempool"@)
    &&& v.mempoolminfee@ == numtext_of(j, "mempoolminfee"@)
}

pub fn decode_mempool_info(j: &Json) -> (r: Result<MemPoolInfo, DecodeError>)
    ensures
        r is Ok <==> mempool_info_shape(*j),
        r matches Ok(v) ==> mempool_info_matches(v, *j),
{
    let size = match want_i64(j, "size") {
        Ok(v) => v,
        Err(e) => {
            return Err(e);
        },
    };
    let bytes = match want_i64(j, "bytes") {
        Ok(v) => v,
        Err(e) => {
            return Err(e);
        },
    };
    let usage = match want_i64(j, "usage") {
        Ok(v) => v,
        Err(e) => {
            return Err(e);
        },
    };
    let maxmempool = match want_i64(j, "maxmempool") {
        Ok(v) => v,
        Err(e) => {
            return Err(e);
        },
    };
    let mempoolminfee = match want_numtext(j, "mempoolminfee") {
        Ok(v) => v,
        Err(e) => {
            return Err(e);
        },
    };
    Ok(MemPoolInfo { size, bytes, usage, maxmempool, mempoolminfee })
}

/// When a payload has the shape of a single unspent output.  The value is a
/// number, kept as exact decimal text.
pub open spec fn txout_shape(j: Json) -> bool {
    &&& got_str(j, "bestblock"@)
    &&& got_i64(j, "confirmations"@)
    &&& got_numtext(j, "value"@)
    &&& get_spec(j, "scriptpubkey"@) is Some
    &&& script_shape(field_of(j, "scriptpubkey"@))
    &&& got_bool(j, "coinbase"@)
}

pub open spec fn txout_matches(v: TxOut, j: Json) -> bool {
    &&& v.bestblock@ == str_of(j, "bestblock"@)
    &&& v.confirmations as int == i64_of(j, "confirmations"@)
    &&& v.value@ == numtext_of(j, "value"@)
    &&& script_matches(v.scriptpubkey, field_of(j, "scriptpubkey"@))
    &&& v.coinbase == bool_of(j, "coinbase"@)
}

pub fn decode_txout(j: &Json) -> (r: Result<TxOut, DecodeError>)
    ensures
        r is Ok <==> txout_shape(*j),
        r matches Ok(v) ==> txout_matches(v, *j),
{
    let bestblock = match want_str(j, "bestblock") {
        Ok(v) => v,
        Err(e) => {
            return Err(e);
        },
    };
    let confirmations = match want_i64(j, "confirmations") {
        Ok(v) => v,
        Err(e) => {
            return Err(e);
        },
    };
    let value = match want_numtext(j, "value") {
        Ok(v) => v,
        Err(e) => {
            return Err(e);
        },
    };
    let spk_j = match json_get(j, "scriptpubkey") {
        Some(v) => v,
        None => {
            return Err(DecodeError::new("scriptpubkey", "a script descriptor object"));
        },
    };
    let scriptpubkey = match decode_script(spk_j) {
        Ok(v) => v,
        Err(e) => {
            return Err(e);
        },
    };
    let coinbase = match want_bool(j, "coinbase") {
        Ok(v) => v,
        Err(e) => {
            return Err(e);
        },
    };
    Ok(TxOut { bestblock, confirmations, value, scriptpubkey, coinbase })
}

/// When a payload has the shape of the UTXO-set aggregate info record.  The
/// total value is a number, kept as exact decimal text.
pub open spec fn txout_set_info_shape(j: Json) -> bool {
    &&& got_i64(j, "height"@)
    &&& got_str(j, "bestblock"@)
    &&& got_i64(j, "transactions"@)
    &&& got_i64(j, "txouts"@)
    &&& got_i64(j, "bytes_serialized"@)
    &&& got_str(j, "hash_serialized"@)
    &&& got_numtext(j, "total_amount"@)
}

pub open spec fn txout_set_info_matches(v: TxOutSetInfo, j: Json) -> bool {
    &&& v.height as int == i64_of(j, "height"@)
    &&& v.bestblock@ == str_of(j, "bestblock"@)
    &&& v.transactions as int == i64_of(j, "transactions"@)
    &&& v.txouts as int == i64_of(j, "txouts"@)
    &&& v.bytes_serialized as int == i64_of(j, "bytes_serialized"@)
    &&& v.hash_serialized@ == str_of(j, "hash_serialized"@)
    &&& v.total_amount@ == numtext_of(j, "total_amount"@)
}

pub fn decode_txout_set_info(j: &Json) -> (r: Result<TxOutSetInfo, DecodeError>)
    ensures
        r is Ok <==> txout_set_info_shape(*j),
        r matches Ok(v) ==> txout_set_info_matches(v, *j),
{
    let height = match want_i64(j, "height") {
        Ok(v) => v,
        Err(e) => {
            return Err(e);
        },
    };
    let bestblock = match want_str(j, "bestblock") {
        Ok(v) => v,
        Err(e) => {
            return Err(e);
        },
    };
    let transactions = match want_i64(j, "transactions") {
        Ok(v) => v,
        Err(e) => {
            return Err(e);
        },
    };
    let txouts = match want_i64(j, "txouts") {
        Ok(v) => v,
        Err(e) => {
            return Err(e);
        },
    };
    let bytes_serialized = match want_i64(j, "bytes_serialized") {
        Ok(v) => v,
        Err(e) => {
            return Err(e);
        },
    };
    let hash_serialized = match want_str(j, "hash_serialized") {
        Ok(v) => v,
        Err(e) => {
            return Err(e);
        },
    };
    let total_amount = match want_numtext(j, "total_amount") {
        Ok(v) => v,
        Err(e) => {
            return Err(e);
        },
    };
    Ok(
        TxOutSetInfo {
            height,
            bestblock,
            transactions,
            txouts,
            bytes_serialized,
            hash_serialized,
            total_amount,
        },
    )
}

} // verus!
