//! The node's data as far as the library reads it.
//!
//! These are plain copies of what the chain source delivers. Hashes, scripts
//! and token ids stay raw bytes; turning them into text is left to whoever
//! presents them.

use vstd::prelude::*;

verus! {

/// An amount of one token attached to a coin.
#[derive(Debug)]
pub struct TokenAmount {
    pub token_id: Vec<u8>,
    pub amount: i64,
    pub is_mint_baton: bool,
}

/// A coin as an input spends it or an output creates it.
#[derive(Debug)]
pub struct Coin {
    /// The script that locks the coin.
    pub output_script: Vec<u8>,
    /// The coin's value in satoshis.
    pub value: i64,
    /// The token amount the coin carries, if any.
    pub slpv2: Option<TokenAmount>,
}

/// The kind of token a section moves.
#[derive(Clone, Copy, Debug, PartialEq, Eq, Structural)]
pub enum TokenType {
    Standard,
    Other,
}

/// What a token section does.
#[derive(Clone, Copy, Debug, PartialEq, Eq, Structural)]
pub enum SectionType {
    Genesis,
    Mint,
    Send,
    Other,
}

/// One token section of a transaction.
#[derive(Debug)]
pub struct TokenSection {
    pub token_id: Vec<u8>,
    pub token_type: TokenType,
    /// The token type as the node numbers it.
    pub token_type_number: i32,
    pub section_type: SectionType,
    pub intentional_burn_amount: i64,
}

/// What a token's genesis declared.
#[derive(Debug)]
pub struct GenesisData {
    pub token_ticker: Vec<u8>,
    pub token_name: Vec<u8>,
    pub url: Vec<u8>,
    pub decimals: u32,
}

/// A token as the node knows it.
#[derive(Debug)]
pub struct TokenInfo {
    pub token_id: Vec<u8>,
    /// The token type as the node numbers it.
    pub token_type: i32,
    pub genesis_data: Option<GenesisData>,
}

/// The block a transaction was mined in.
#[derive(Clone, Copy, Debug, PartialEq, Eq, Structural)]
pub struct BlockRef {
    pub height: i32,
    pub timestamp: i64,
}

/// A transaction as the node reports it.
#[derive(Debug)]
pub struct ChainTx {
    pub txid: Vec<u8>,
    pub inputs: Vec<Coin>,
    pub outputs: Vec<Coin>,
    pub slpv2_sections: Vec<TokenSection>,
    /// The tokens the transaction burns without declaring it.
    pub slpv2_burn_token_ids: Vec<Vec<u8>>,
    /// How many token errors the node found in the transaction.
    pub slpv2_errors: usize,
    pub block: Option<BlockRef>,
    pub time_first_seen: i64,
    pub is_coinbase: bool,
    pub size: u32,
}

/// A block's header data as the node lists it.
#[derive(Debug)]
pub struct BlockInfo {
    pub hash: Vec<u8>,
    pub height: i32,
    pub timestamp: i64,
    pub n_bits: u32,
    pub block_size: u64,
    pub num_txs: u64,
}

/// An unspent output of a script.
#[derive(Debug)]
pub struct ScriptUtxo {
    pub txid: Vec<u8>,
    pub out_idx: u32,
    pub block_height: i32,
    pub is_coinbase: bool,
    pub value: i64,
    pub slpv2: Option<TokenAmount>,
}

/// The length of a hash and of a token id, in bytes.
pub const HASH_LEN: usize = 32;

/// The bytes of an optional byte string.
pub open spec fn bytes_view(bytes: Option<&[u8]>) -> Option<Seq<u8>> {
    match bytes {
        Some(given) => Some(given@),
        None => None,
    }
}

/// Whether two byte strings are the same.
pub fn same_bytes(a: &[u8], b: &[u8]) -> (same: bool)
    ensures
        same == (a@ == b@),
{
    if a.len() != b.len() {
        return false;
    }
    let mut i: usize = 0;
    while i < a.len()
        invariant
            i <= a.len(),
            a.len() == b.len(),
            forall|k: int| 0 <= k < i ==> a@[k] == b@[k],
        decreases a.len() - i,
    {
        if a[i] != b[i] {
            return false;
        }
        i += 1;
    }
    assert(a@ =~= b@);
    true
}

/// Whether `list` holds the byte string `wanted`.
pub open spec fn holds_bytes(list: Seq<Vec<u8>>, wanted: Seq<u8>) -> bool {
    exists|k: int| 0 <= k < list.len() && (#[trigger] list[k])@ == wanted
}

/// Whether `list` holds the byte string `wanted`.
pub fn holds(list: &Vec<Vec<u8>>, wanted: &[u8]) -> (held: bool)
    ensures
        held == holds_bytes(list@, wanted@),
{
    let mut k: usize = 0;
    while k < list.len()
        invariant
            k <= list.len(),
            forall|j: int| 0 <= j < k ==> (#[trigger] list@[j])@ != wanted@,
        decreases list.len() - k,
    {
        if same_bytes(list[k].as_slice(), wanted) {
            return true;
        }
        k += 1;
    }
    false
}

/// A copy of a byte string.
pub fn copy_bytes(bytes: &[u8]) -> (copy: Vec<u8>)
    ensures
        copy@ == bytes@,
{
    let mut copy: Vec<u8> = Vec::new();
    let mut i: usize = 0;
    while i < bytes.len()
        invariant
            i <= bytes.len(),
            copy@ == bytes@.subrange(0, i as int),
        decreases bytes.len() - i,
    {
        copy.push(bytes[i]);
        i += 1;
    }
    copy
}

} // verus!
