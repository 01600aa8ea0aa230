//! What the pages show, as plain values. Rendering is left to the caller.

use crate::server_primitives::{JsonBalance, JsonSlpv2Section};
use vstd::prelude::*;

verus! {

/// The home page shows nothing that depends on the chain.
#[derive(Debug)]
pub struct HomepageTemplate {}

/// The page that lists the blocks.
#[derive(Clone, Copy, Debug, PartialEq, Eq, Structural)]
pub struct BlocksTemplate {
    pub last_block_height: u32,
}

impl BlocksTemplate {
    /// The page for a chain whose tip is at `tip_height`. The node reports
    /// heights as signed 32-bit numbers; the page shows the same 32 bits
    /// unsigned.
    pub fn for_tip(tip_height: i32) -> (page: Self)
        ensures
            page.last_block_height == tip_height as u32,
    {
        BlocksTemplate {
            last_block_height: #[verifier::truncate]
            (tip_height as u32),
        }
    }
}

/// The page that reports a failure.
#[derive(Debug)]
pub struct ErrorTemplate {
    pub message: String,
}

/// A token section as the transaction page shows it.
#[derive(Debug)]
pub struct TemplateSlpv2TokenSection {
    pub section_type: String,
    pub data: JsonSlpv2Section,
}

/// The page of a block, as far as it is computed: the header, its raw
/// form and the difficulty are added by whoever presents the page.
#[derive(Clone, Copy, Debug, PartialEq, Eq, Structural)]
pub struct BlockTemplate {
    pub height: i32,
    pub confirmations: i32,
    pub timestamp: i64,
}

/// The page of a transaction, as far as it is computed.
#[derive(Debug)]
pub struct TransactionTemplate {
    pub title: String,
    pub is_token: bool,
    pub slpv2_sections: Vec<TemplateSlpv2TokenSection>,
    pub confirmations: i32,
    pub timestamp: i64,
    pub sats_input: i64,
    pub sats_output: i64,
}

/// The page of an address, as far as it is computed.
#[derive(Debug)]
pub struct AddressTemplate {
    pub token_dust: i64,
    pub total_xec: i64,
    /// The positions, among the address's outputs, of those that carry tokens.
    pub token_utxos: Vec<usize>,
    pub address_num_txs: u32,
    /// The balance of the outputs without a token.
    pub main_balance: JsonBalance,
    /// The balances of the tokens, in the order in which they first occur.
    pub token_balances: Vec<JsonBalance>,
}

} // verus!
