use vstd::prelude::*;
use vstd::string::StringExecFns;
use crate::chain::{
    chain_info_matches, chain_info_shape, decode_chain_info, decode_txout, txout_matches,
    txout_shape,
};
use crate::decode::{
    block_reply_matches, block_reply_shape, decode_block, decode_raw_mempool, raw_mempool_matches,
    raw_mempool_shape,
};
use crate::errors::{ConfigError, DecodeError};
use crate::json::{json_of, parse_payload, Json};
use crate::model::{BlockChainInfo, GetBlockReply, RawMemPool, TxOut};

verus! {

/// The immutable client configuration: the daemon's URL and the optional
/// HTTP Basic credentials.  A password implies a username; the constructor
/// enforces that before any network interaction can happen.
#[derive(Debug)]
pub struct ClientConfig {
    pub url: String,
    pub user: Option<String>,
    pub pass: Option<String>,
}

impl ClientConfig {
    /// Validates and builds a configuration.  Succeeds exactly when the
    /// credentials are coherent: a password without a username is refused,
    /// a username alone (or neither) is fine.  On success every value is
    /// passed through unchanged.
    pub fn new(url: String, user: Option<String>, pass: Option<String>) -> (r: Result<
        ClientConfig,
        ConfigError,
    >)
        ensures
            r is Ok <==> !(pass is Some && user is None),
            r matches Ok(c) ==> c.url == url && c.user == user && c.pass == pass,
            r matches Err(e) ==> e == ConfigError::PasswordWithoutUsername,
    {
        if pass.is_some() && user.is_none() {
            Err(ConfigError::PasswordWithoutUsername)
        } else {
            Ok(ClientConfig { url, user, pass })
        }
    }
}

/// One JSON-RPC request: the remote method's name and its positional
/// parameters, in the protocol's calling convention.
pub struct Request {
    pub method: String,
    pub params: Vec<Json>,
}

/// The request for a block by hash at a verbosity level.
pub fn getblock_request(header_hash: &str, verbosity: u8) -> (r: Request)
    ensures
        r.method@ == "getblock"@,
        r.params@.len() == 2,
        (r.params@[0] matches Json::Str(s) && s@ == header_hash@),
        (r.params@[1] matches Json::Int(v) && v == verbosity as i64),
{
    let mut params: Vec<Json> = Vec::new();
    params.push(Json::Str(String::from_str(header_hash)));
    params.push(Json::Int(verbosity as i64));
    Request { method: String::from_str("getblock"), params }
}

/// The request for the chain info record.
pub fn getblockchaininfo_request() -> (r: Request)
    ensures
        r.method@ == "getblockchaininfo"@,
        r.params@.len() == 0,
{
    Request { method: String::from_str("getblockchaininfo"), params: Vec::new() }
}

/// The request for the current block count.
pub fn getblockcount_request() -> (r: Request)
    ensures
        r.method@ == "getblockcount"@,
        r.params@.len() == 0,
{
    Request { method: String::from_str("getblockcount"), params: Vec::new() }
}

/// The request for the block hash at a height.
pub fn getblockhash_request(block_height: i64) -> (r: Request)
    ensures
        r.method@ == "getblockhash"@,
        r.params@.len() == 1,
        (r.params@[0] matches Json::Int(h) && h == block_height),
{
    let mut params: Vec<Json> = Vec::new();
    params.push(Json::Int(block_height));
    Request { method: String::from_str("getblockhash"), params }
}

/// The request for the mempool at a verbosity.
pub fn getrawmempool_request(format: bool) -> (r: Request)
    ensures
        r.method@ == "getrawmempool"@,
        r.params@.len() == 1,
        (r.params@[0] matches Json::Bool(b) && b == format),
{
    let mut params: Vec<Json> = Vec::new();
    params.push(Json::Bool(format));
    Request { method: String::from_str("getrawmempool"), params }
}

/// The request for one unspent output by transaction id and output index,
/// optionally counting unconfirmed spends.
pub fn gettxout_request(txid: &str, vout: i64, unconfirmed: bool) -> (r: Request)
    ensures
        r.method@ == "gettxout"@,
        r.params@.len() == 3,
        (r.params@[0] matches Json::Str(s) && s@ == txid@),
        (r.params@[1] matches Json::Int(n) && n == vout),
        (r.params@[2] matches Json::Bool(b) && b == unconfirmed),
{
    let mut params: Vec<Json> = Vec::new();
    params.push(Json::Str(String::from_str(txid)));
    params.push(Json::Int(vout));
    params.push(Json::Bool(unconfirmed));
    Request { method: String::from_str("gettxout"), params }
}

/// Routes a block response's payload text through the variant decoder, at
/// the verbosity the request carried.
pub fn getblock_response(verbosity: u8, body: &str) -> (r: Result<GetBlockReply, DecodeError>)
    requires
        verbosity <= 2,
    ensures
        match json_of(body@) {
            Some(j) => (r is Ok <==> block_reply_shape(verbosity as int, j)) && (r matches Ok(g)
                ==> block_reply_matches(verbosity as int, g, j)),
            None => r is Err,
        },
{
    let j = match parse_payload(body) {
        Ok(j) => j,
        Err(e) => {
            return Err(e);
        },
    };
    decode_block(verbosity, &j)
}

/// Decodes a chain info response's payload text.
pub fn getblockchaininfo_response(body: &str) -> (r: Result<BlockChainInfo, DecodeError>)
    ensures
        match json_of(body@) {
            Some(j) => (r is Ok <==> chain_info_shape(j)) && (r matches Ok(v)
                ==> chain_info_matches(v, j)),
            None => r is Err,
        },
{
    let j = match parse_payload(body) {
        Ok(j) => j,
        Err(e) => {
            return Err(e);
        },
    };
    decode_chain_info(&j)
}

/// Decodes a block count response's payload text: a bare integer.
pub fn getblockcount_response(body: &str) -> (r: Result<i64, DecodeError>)
    ensures
        match json_of(body@) {
            Some(j) => (r is Ok <==> j matches Json::Int(_)) && (r matches Ok(n) ==> j
                == Json::Int(n)),
            None => r is Err,
        },
{
    let j = match parse_payload(body) {
        Ok(j) => j,
        Err(e) => {
            return Err(e);
        },
    };
    match j {
        Json::Int(n) => Ok(n),
        _ => Err(DecodeError::new("", "an integer block count")),
    }
}

/// Decodes a block hash response's payload text: a bare string.
pub fn getblockhash_response(body: &str) -> (r: Result<String, DecodeError>)
    ensures
        match json_of(body@) {
            Some(j) => (r is Ok <==> j matches Json::Str(_)) && (r matches Ok(s) ==> (j
                matches Json::Str(p) && s@ == p@)),
            None => r is Err,
        },
{
    let j = match parse_payload(body) {
        Ok(j) => j,
        Err(e) => {
            return Err(e);
        },
    };
    match j {
        Json::Str(s) => Ok(s),
        _ => Err(DecodeError::new("", "a block hash string")),
    }
}

/// Routes a mempool response's payload text through the variant decoder,
/// under the verbose flag the request carried.
pub fn getrawmempool_response(format: bool, body: &str) -> (r: Result<RawMemPool, DecodeError>)
    ensures
        match json_of(body@) {
            Some(j) => (r is Ok <==> raw_mempool_shape(format, j)) && (r matches Ok(m)
                ==> raw_mempool_matches(format, m, j)),
            None => r is Err,
        },
{
    let j = match parse_payload(body) {
        Ok(j) => j,
        Err(e) => {
            return Err(e);
        },
    };
    decode_raw_mempool(format, &j)
}

/// Decodes an unspent-output response's payload text.
pub fn gettxout_response(body: &str) -> (r: Result<TxOut, DecodeError>)
    ensures
        match json_of(body@) {
            Some(j) => (r is Ok <==> txout_shape(j)) && (r matches Ok(v) ==> txout_matches(v, j)),
            None => r is Err,
        },
{
    let j = match parse_payload(body) {
        Ok(j) => j,
        Err(e) => {
            return Err(e);
        },
    };
    decode_txout(&j)
}

} // verus!
