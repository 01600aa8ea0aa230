//! What the endpoints answer with, as plain values.
//!
//! Hashes and token ids are kept as the raw bytes the node delivered;
//! whoever serialises an answer writes them as text.

use vstd::prelude::*;

verus! {

/// The satoshi figures of a transaction.
#[derive(Clone, Copy, Debug, PartialEq, Eq, Structural)]
pub struct JsonTxStats {
    pub sats_input: i64,
    pub sats_output: i64,
    pub delta_sats: i64,
}

/// The figures of one token section of a transaction.
#[derive(Clone, Copy, Debug, PartialEq, Eq, Structural)]
pub struct JsonSlpv2SectionStats {
    pub delta_tokens: i64,
    pub token_input: i64,
    pub token_output: i64,
    pub does_burn_tokens: bool,
}

/// What is known of a token.
#[derive(Debug)]
pub struct JsonSlpv2TokenInfo {
    pub token_id: Vec<u8>,
    pub token_type: u32,
    pub token_ticker: String,
    pub token_name: String,
    pub token_url: String,
    pub decimals: u32,
}

/// One token section of a transaction, with its token and its figures.
#[derive(Debug)]
pub struct JsonSlpv2Section {
    pub token_info: JsonSlpv2TokenInfo,
    pub stats: JsonSlpv2SectionStats,
}

/// A transaction in a list.
#[derive(Debug)]
pub struct JsonTx {
    pub tx_hash: Vec<u8>,
    pub block_height: Option<i32>,
    pub timestamp: i64,
    pub is_coinbase: bool,
    pub size: i32,
    pub num_inputs: u32,
    pub num_outputs: u32,
    pub stats: JsonTxStats,
    pub slpv2_sections: Vec<JsonSlpv2Section>,
}

/// An unspent output of an address.
#[derive(Debug)]
pub struct JsonUtxo {
    pub tx_hash: Vec<u8>,
    pub out_idx: u32,
    pub sats_amount: i64,
    pub token_amount: u64,
    pub is_coinbase: bool,
    pub block_height: i32,
    pub is_mint_baton: bool,
}

/// What an address holds of one token, or of no token.
#[derive(Debug)]
pub struct JsonBalance {
    pub token_id: Option<Vec<u8>>,
    pub sats_amount: i64,
    pub token_amount: i64,
    pub utxos: Vec<JsonUtxo>,
}

/// A block in a list. The difficulty is derived from `n_bits` by whoever
/// presents the block.
#[derive(Debug)]
pub struct JsonBlock {
    pub hash: Vec<u8>,
    pub height: i32,
    pub timestamp: i64,
    pub n_bits: u32,
    pub size: u64,
    pub num_txs: u64,
}

/// The answer to a request for a range of blocks.
#[derive(Debug)]
pub struct JsonBlocksResponse {
    pub data: Vec<JsonBlock>,
}

/// The answer to a request for transactions.
#[derive(Debug)]
pub struct JsonTxsResponse {
    pub data: Vec<JsonTx>,
}

} // verus!
