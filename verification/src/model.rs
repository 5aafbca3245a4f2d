use vstd::prelude::*;

verus! {

/// A block fetched at verbosity level 0: one opaque hex-encoded string.
#[derive(Debug, Clone, PartialEq, Eq)]
pub struct SerializedBlock {
    pub result: String,
}

/// A block fetched at verbosity level 1: header fields plus the transaction
/// identifiers only.
#[derive(Debug, Clone, PartialEq, Eq)]
pub struct Block {
    pub hash: String,
    pub confirmations: i64,
    pub strippedsize: i64,
    pub size: i64,
    pub weight: i64,
    pub height: i64,
    pub version: i64,
    pub version_hex: String,
    pub merkleroot: String,
    pub tx: Vec<String>,
    pub time: i64,
    pub mediantime: i64,
    pub nonce: i64,
    pub bits: String,
    pub chainwork: String,
    pub previousblockhash: Option<String>,
    pub nextblockhash: Option<String>,
}

/// A block fetched at verbosity level 2: the same header fields, with fully
/// decoded transaction records embedded.
#[derive(Debug, Clone, PartialEq, Eq)]
pub struct FullBlock {
    pub hash: String,
    pub confirmations: i64,
    pub strippedsize: i64,
    pub size: i64,
    pub weight: i64,
    pub height: i64,
    pub version: i64,
    pub version_hex: String,
    pub merkleroot: String,
    pub tx: Vec<Transaction>,
    pub time: i64,
    pub mediantime: i64,
    pub nonce: i64,
    pub bits: String,
    pub chainwork: String,
    pub previousblockhash: Option<String>,
    pub nextblockhash: Option<String>,
}

/// One fully decoded transaction.
#[derive(Debug, Clone, PartialEq, Eq)]
pub struct Transaction {
    pub txid: String,
    pub hash: String,
    pub version: i64,
    pub size: i64,
    pub vsize: i64,
    pub locktime: i64,
    pub vin: Vec<Vin>,
    pub vout: Vec<Vout>,
    pub hex: String,
}

/// A transaction input: either a spending input referencing an earlier
/// output, or a coinbase input carrying miner-defined data.
#[derive(Debug, Clone, PartialEq, Eq)]
pub enum Vin {
    Tx(VinTx),
    Coinbase(VinCoinbase),
}

/// A spending input.  Deliberately empty: the wire fields of a spending
/// input are not yet modelled, and decoding must not invent any.
#[derive(Debug, Clone, PartialEq, Eq)]
pub struct VinTx {}

/// A coinbase input: the opaque coinbase script and its sequence number.
#[derive(Debug, Clone, PartialEq, Eq)]
pub struct VinCoinbase {
    pub coinbase: String,
    pub sequence: i64,
}

/// A transaction output.  The value is kept as its exact decimal text so
/// that no precision is lost to a binary float.
#[derive(Debug, Clone, PartialEq, Eq)]
pub struct Vout {
    pub value: String,
    pub n: i64,
    pub script_pub_key: ScriptPubKey,
}

/// The script descriptor embedded in an output: the disassembly text, the
/// hex form, the required-signature count, the script type tag, and the
/// addresses the script pays to.  The wire uses its own casing for the
/// signature-count and type fields (`reqSigs`, `type`).
#[derive(Debug, Clone, PartialEq, Eq)]
pub struct ScriptPubKey {
    pub disassembly: String,
    pub hex: String,
    pub req_sigs: i64,
    pub script_type: String,
    pub addresses: Vec<String>,
}

/// The legacy two-shape block reply, selected by a boolean flag.
#[derive(Debug, Clone, PartialEq, Eq)]
pub enum GetBlockReplyOld {
    True(Block),
    False(SerializedBlock),
}

/// The three-shape block reply, selected by the verbosity level.
#[derive(Debug, Clone, PartialEq, Eq)]
pub enum GetBlockReply {
    Zero(SerializedBlock),
    One(Block),
    Two(FullBlock),
}

/// A soft fork's enforcement window counters.
#[derive(Debug, Clone, PartialEq, Eq)]
pub struct Enforce {
    pub status: bool,
    pub found: i64,
    pub required: i64,
    pub window: i64,
}

/// A soft fork's rejection window counters.
#[derive(Debug, Clone, PartialEq, Eq)]
pub struct Reject {
    pub status: bool,
    pub found: i64,
    pub required: i64,
    pub window: i64,
}

/// One soft-fork descriptor from the chain info record.
#[derive(Debug, Clone, PartialEq, Eq)]
pub struct Softfork {
    pub id: String,
    pub version: i64,
    pub enforce: Enforce,
    pub reject: Reject,
}

/// The chain info record.  The difficulty and verification progress are kept
/// as exact decimal text.
#[derive(Debug, Clone, PartialEq, Eq)]
pub struct BlockChainInfo {
    pub chain: String,
    pub blocks: i64,
    pub headers: i64,
    pub bestblockhash: String,
    pub difficulty: String,
    pub mediantime: i64,
    pub verificationprogress: String,
    pub chainwork: String,
    pub pruned: bool,
    pub softforks: Vec<Softfork>,
}

/// One chain-tip descriptor.
#[derive(Debug, Clone, PartialEq, Eq)]
pub struct Tip {
    pub height: u64,
    pub hash: String,
    pub branchlen: u64,
    pub status: String,
}

/// The mempool aggregate info record.  The minimum relay fee is kept as
/// exact decimal text.
#[derive(Debug, Clone, PartialEq, Eq)]
pub struct MemPoolInfo {
    pub size: i64,
    pub bytes: i64,
    pub usage: i64,
    pub maxmempool: i64,
    pub mempoolminfee: String,
}

/// The detailed descriptor of one mempool entry.  The fee is kept as exact
/// decimal text.
#[derive(Debug, Clone, PartialEq, Eq)]
pub struct TxDescription {
    pub txid: String,
    pub size: i64,
    pub fee: String,
    pub time: i64,
    pub height: i64,
    pub startingpriority: i64,
    pub currentpriority: i64,
    pub depends: Vec<String>,
}

/// The non-verbose mempool reply: a plain list of transaction ids.
#[derive(Debug, Clone, PartialEq, Eq)]
pub struct TXIDS {
    pub result: Vec<String>,
}

/// The two-shape mempool reply, selected by the verbose flag: a mapping from
/// transaction id to descriptor, or a plain list of ids.
#[derive(Debug, Clone, PartialEq, Eq)]
pub enum RawMemPool {
    True(Vec<(String, TxDescription)>),
    False(TXIDS),
}

/// One unspent transaction output.  The value is kept as exact decimal text.
#[derive(Debug, Clone, PartialEq, Eq)]
pub struct TxOut {
    pub bestblock: String,
    pub confirmations: i64,
    pub value: String,
    pub scriptpubkey: ScriptPubKey,
    pub coinbase: bool,
}

/// The UTXO-set aggregate info record.  The total value is kept as exact
/// decimal text.
#[derive(Debug, Clone, PartialEq, Eq)]
pub struct TxOutSetInfo {
    pub height: i64,
    pub bestblock: String,
    pub transactions: i64,
    pub txouts: i64,
    pub bytes_serialized: i64,
    pub hash_serialized: String,
    pub total_amount: String,
}

} // verus!
