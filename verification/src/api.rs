//! What a transaction moves: satoshis and tokens, in total and for one address.

use crate::chain::{
    bytes_view, copy_bytes, same_bytes, BlockRef, ChainTx, Coin, GenesisData, TokenInfo,
    TokenSection, HASH_LEN,
};
use crate::server_primitives::{
    JsonSlpv2Section, JsonSlpv2SectionStats, JsonSlpv2TokenInfo, JsonTx, JsonTxStats,
};
use vstd::prelude::*;

verus! {

/// Whether a coin counts for `address`: every coin counts when no address
/// is given, otherwise those locked by exactly that script.
pub open spec fn counts_for(coin: Coin, address: Option<Seq<u8>>) -> bool {
    match address {
        Some(script) => coin.output_script@ == script,
        None => true,
    }
}

/// The satoshis of the coins that count for `address`.
pub open spec fn sats_of(coins: Seq<Coin>, address: Option<Seq<u8>>) -> int
    decreases coins.len(),
{
    if coins.len() == 0 {
        0
    } else {
        sats_of(coins.drop_last(), address) + (if counts_for(coins.last(), address) {
            coins.last().value as int
        } else {
            0
        })
    }
}

/// The amount of token `token_id` that a coin carries.
pub open spec fn tokens_in(coin: Coin, token_id: Seq<u8>) -> int {
    match coin.slpv2 {
        Some(token) if token.token_id@ == token_id => token.amount as int,
        _ => 0,
    }
}

/// The amount of token `token_id` on the coins that count for `address`.
pub open spec fn tokens_of(coins: Seq<Coin>, token_id: Seq<u8>, address: Option<Seq<u8>>) -> int
    decreases coins.len(),
{
    if coins.len() == 0 {
        0
    } else {
        tokens_of(coins.drop_last(), token_id, address) + (if counts_for(
            coins.last(),
            address,
        ) {
            tokens_in(coins.last(), token_id)
        } else {
            0
        })
    }
}

/// The largest magnitude a sum of `count` 64-bit values can have.
spec fn sum_bound(count: int) -> int {
    count * 0x8000_0000_0000_0000
}

fn counts(coin: &Coin, address: Option<&[u8]>) -> (counted: bool)
    ensures
        counted == counts_for(*coin, bytes_view(address)),
{
    match address {
        Some(script) => same_bytes(script, coin.output_script.as_slice()),
        None => true,
    }
}

fn sum_sats(coins: &Vec<Coin>, address: Option<&[u8]>) -> (sum: i128)
    ensures
        sum == sats_of(coins@, bytes_view(address)),
{
    let mut sum: i128 = 0;
    let mut i: usize = 0;
    while i < coins.len()
        invariant
            i <= coins.len(),
            sum == sats_of(coins@.subrange(0, i as int), bytes_view(address)),
            -sum_bound(i as int) <= sum <= sum_bound(i as int),
        decreases coins.len() - i,
    {
        assert(coins@.subrange(0, i + 1).drop_last() =~= coins@.subrange(0, i as int));
        if counts(&coins[i], address) {
            sum = sum + coins[i].value as i128;
        }
        i += 1;
    }
    assert(coins@.subrange(0, i as int) =~= coins@);
    sum
}

fn sum_tokens(coins: &Vec<Coin>, token_id: &[u8], address: Option<&[u8]>) -> (sum: i128)
    ensures
        sum == tokens_of(coins@, token_id@, bytes_view(address)),
{
    let mut sum: i128 = 0;
    let mut i: usize = 0;
    while i < coins.len()
        invariant
            i <= coins.len(),
            sum == tokens_of(coins@.subrange(0, i as int), token_id@, bytes_view(address)),
            -sum_bound(i as int) <= sum <= sum_bound(i as int),
        decreases coins.len() - i,
    {
        assert(coins@.subrange(0, i + 1).drop_last() =~= coins@.subrange(0, i as int));
        if counts(&coins[i], address) {
            match &coins[i].slpv2 {
                Some(token) => {
                    if same_bytes(token.token_id.as_slice(), token_id) {
                        sum = sum + token.amount as i128;
                    }
                },
                None => {},
            }
        }
        i += 1;
    }
    assert(coins@.subrange(0, i as int) =~= coins@);
    sum
}

/// A sum cut down to 64 bits, as 64-bit arithmetic that wraps would leave it.
fn wrapped(sum: i128) -> (cut: i64)
    ensures
        cut == sum as i64,
{
    #[verifier::truncate]
    (sum as i64)
}

/// The satoshi figures of `tx` as seen from `address`.
pub open spec fn tx_stats(tx: ChainTx, address: Option<Seq<u8>>) -> JsonTxStats {
    JsonTxStats {
        sats_input: sats_of(tx.inputs@, None) as i64,
        sats_output: sats_of(tx.outputs@, None) as i64,
        delta_sats: (sats_of(tx.outputs@, address) as i64).wrapping_sub(
            sats_of(tx.inputs@, address) as i64,
        ),
    }
}

/// The satoshi figures of `tx`: what all inputs hold, what all outputs hold,
/// and by how much `address_bytes` gains (outputs locked by it minus inputs
/// locked by it; with no address, all outputs minus all inputs).
///
/// The figures are 64-bit and wrap where a sum does not fit.
pub fn calc_tx_stats(tx: &ChainTx, address_bytes: Option<&[u8]>) -> (stats: JsonTxStats)
    ensures
        stats == tx_stats(*tx, bytes_view(address_bytes)),
{
    let sats_input = wrapped(sum_sats(&tx.inputs, None));
    let sats_output = wrapped(sum_sats(&tx.outputs, None));
    let spent = wrapped(sum_sats(&tx.inputs, address_bytes));
    let received = wrapped(sum_sats(&tx.outputs, address_bytes));
    JsonTxStats { sats_input, sats_output, delta_sats: received.wrapping_sub(spent) }
}

/// Whether a transaction burns tokens as far as `section` is concerned:
/// the section declares a burn, or the transaction burns some token
/// without declaring it.
pub open spec fn burns_tokens(tx: ChainTx, section: TokenSection) -> bool {
    section.intentional_burn_amount > 0 || tx.slpv2_burn_token_ids@.len() > 0
}

/// The figures of `section` within `tx` as seen from `address`.
pub open spec fn section_stats(
    tx: ChainTx,
    section: TokenSection,
    address: Option<Seq<u8>>,
) -> JsonSlpv2SectionStats {
    JsonSlpv2SectionStats {
        delta_tokens: (tokens_of(tx.outputs@, section.token_id@, address) as i64).wrapping_sub(
            tokens_of(tx.inputs@, section.token_id@, address) as i64,
        ),
        token_input: tokens_of(tx.inputs@, section.token_id@, None) as i64,
        token_output: tokens_of(tx.outputs@, section.token_id@, None) as i64,
        does_burn_tokens: burns_tokens(tx, section),
    }
}

/// The figures of `section` within `tx`: the section's token on all inputs,
/// on all outputs, by how much `address_bytes` gains of it, and whether
/// tokens are burned.
///
/// The figures are 64-bit and wrap where a sum does not fit.
pub fn calc_section_stats(
    tx: &ChainTx,
    section: &TokenSection,
    address_bytes: Option<&[u8]>,
) -> (stats: JsonSlpv2SectionStats)
    ensures
        stats == section_stats(*tx, *section, bytes_view(address_bytes)),
{
    let token_id = section.token_id.as_slice();
    let token_input = wrapped(sum_tokens(&tx.inputs, token_id, None));
    let token_output = wrapped(sum_tokens(&tx.outputs, token_id, None));
    let spent = wrapped(sum_tokens(&tx.inputs, token_id, address_bytes));
    let received = wrapped(sum_tokens(&tx.outputs, token_id, address_bytes));
    let does_burn_tokens = section.intentional_burn_amount > 0
        || tx.slpv2_burn_token_ids.len() > 0;
    JsonSlpv2SectionStats {
        delta_tokens: received.wrapping_sub(spent),
        token_input,
        token_output,
        does_burn_tokens,
    }
}

/// Where nothing overflows, the wrapped difference of two sums is their
/// difference.
pub proof fn delta_is_exact_in_range(gained: int, spent: int)
    requires
        i64::MIN <= gained <= i64::MAX,
        i64::MIN <= spent <= i64::MAX,
        i64::MIN <= gained - spent <= i64::MAX,
    ensures
        (gained as i64).wrapping_sub(spent as i64) == gained - spent,
        gained as i64 == gained,
{
}

/// The text that `String::from_utf8_lossy` makes of `bytes`.
pub uninterp spec fn utf8_lossy(bytes: Seq<u8>) -> Seq<char>;

/// Calls `String::from_utf8_lossy` and takes the text as an owned string.
///
/// The text depends on the bytes alone and is named by [`utf8_lossy`].
/// Bytes that are valid UTF-8 give the text they encode; how invalid bytes
/// are replaced is not stated here.
#[verifier::external_body]
fn lossy_text(bytes: &[u8]) -> (text: String)
    ensures
        text@ == utf8_lossy(bytes@),
        vstd::utf8::valid_utf8(bytes@) ==> text@ == vstd::utf8::decode_utf8(bytes@),
{
    String::from_utf8_lossy(bytes).into_owned()
}

/// Why a list of transactions could not be put together.
#[derive(Clone, Copy, Debug, PartialEq, Eq, Structural)]
pub enum ApiError {
    /// A token section names a token whose id is not [`HASH_LEN`] bytes long.
    InvalidTokenId,
}

/// The text that bytes are shown as: the text they encode where they are
/// valid UTF-8, and otherwise what `String::from_utf8_lossy` makes of them.
/// No bytes give the empty text.
pub open spec fn text_of(bytes: Seq<u8>) -> Seq<char> {
    if vstd::utf8::valid_utf8(bytes) {
        vstd::utf8::decode_utf8(bytes)
    } else {
        utf8_lossy(bytes)
    }
}

/// No bytes are shown as the empty text.
pub proof fn no_bytes_give_no_text()
    ensures
        text_of(Seq::<u8>::empty()) == Seq::<char>::empty(),
{
    assert(vstd::utf8::valid_utf8(Seq::<u8>::empty()));
    assert(vstd::utf8::decode_utf8(Seq::<u8>::empty()) =~= Seq::<char>::empty());
}

/// Whether `json` describes the token `token_id` of type `token_type` whose
/// genesis declared `ticker`, `name`, `url` and `decimals`.
pub open spec fn describes(
    json: JsonSlpv2TokenInfo,
    token_id: Seq<u8>,
    token_type: i32,
    ticker: Seq<u8>,
    name: Seq<u8>,
    url: Seq<u8>,
    decimals: u32,
) -> bool {
    &&& json.token_id@ == token_id
    &&& json.token_type == token_type as u32
    &&& json.token_ticker@ == text_of(ticker)
    &&& json.token_name@ == text_of(name)
    &&& json.token_url@ == text_of(url)
    &&& json.decimals == decimals
}

/// Whether `json` describes the token `token_id` of type `token_type` of
/// which nothing else is known: its texts are empty and it has no decimals.
pub open spec fn describes_unknown(
    json: JsonSlpv2TokenInfo,
    token_id: Seq<u8>,
    token_type: i32,
) -> bool {
    &&& json.token_id@ == token_id
    &&& json.token_type == token_type as u32
    &&& json.token_ticker@ == Seq::<char>::empty()
    &&& json.token_name@ == Seq::<char>::empty()
    &&& json.token_url@ == Seq::<char>::empty()
    &&& json.decimals == 0
}

/// Whether `json` describes `token`, which has genesis data.
pub open spec fn describes_token(json: JsonSlpv2TokenInfo, token: TokenInfo) -> bool {
    token.genesis_data matches Some(genesis) && describes(
        json,
        token.token_id@,
        token.token_type,
        genesis.token_ticker@,
        genesis.token_name@,
        genesis.url@,
        genesis.decimals,
    )
}

/// Whether two descriptions of a token say the same.
pub open spec fn same_info(a: JsonSlpv2TokenInfo, b: JsonSlpv2TokenInfo) -> bool {
    &&& a.token_id@ == b.token_id@
    &&& a.token_type == b.token_type
    &&& a.token_ticker@ == b.token_ticker@
    &&& a.token_name@ == b.token_name@
    &&& a.token_url@ == b.token_url@
    &&& a.decimals == b.decimals
}

/// The tokens among `tokens` that have genesis data, in their order.
pub open spec fn with_genesis(tokens: Seq<TokenInfo>) -> Seq<TokenInfo>
    decreases tokens.len(),
{
    if tokens.len() == 0 {
        Seq::empty()
    } else if tokens.last().genesis_data is Some {
        with_genesis(tokens.drop_last()).push(tokens.last())
    } else {
        with_genesis(tokens.drop_last())
    }
}

/// Describes a token: its id and type as given, and what its genesis
/// declared as text. Bytes that are valid UTF-8 are shown as the text they
/// encode, so no bytes are shown as the empty text.
pub fn describe_token(
    token_id: &[u8],
    token_type: i32,
    ticker: &[u8],
    name: &[u8],
    url: &[u8],
    decimals: u32,
) -> (json: JsonSlpv2TokenInfo)
    ensures
        describes(json, token_id@, token_type, ticker@, name@, url@, decimals),
        vstd::utf8::valid_utf8(ticker@) ==> json.token_ticker@ == vstd::utf8::decode_utf8(
            ticker@,
        ),
        vstd::utf8::valid_utf8(name@) ==> json.token_name@ == vstd::utf8::decode_utf8(name@),
        vstd::utf8::valid_utf8(url@) ==> json.token_url@ == vstd::utf8::decode_utf8(url@),
        ticker@.len() == 0 ==> json.token_ticker@ == Seq::<char>::empty(),
        name@.len() == 0 ==> json.token_name@ == Seq::<char>::empty(),
        url@.len() == 0 ==> json.token_url@ == Seq::<char>::empty(),
{
    proof {
        no_bytes_give_no_text();
        assert(ticker@.len() == 0 ==> ticker@ =~= Seq::<u8>::empty());
        assert(name@.len() == 0 ==> name@ =~= Seq::<u8>::empty());
        assert(url@.len() == 0 ==> url@ =~= Seq::<u8>::empty());
    }
    JsonSlpv2TokenInfo {
        token_id: copy_bytes(token_id),
        token_type: #[verifier::truncate]
        (token_type as u32),
        token_ticker: lossy_text(ticker),
        token_name: lossy_text(name),
        token_url: lossy_text(url),
        decimals,
    }
}

/// Describes the tokens that have genesis data: id, type, and ticker, name
/// and address as text. Tokens without genesis data are left out; the
/// others keep their order.
pub fn tokens_to_json(tokens: &Vec<TokenInfo>) -> (json_tokens: Vec<JsonSlpv2TokenInfo>)
    ensures
        json_tokens@.len() == with_genesis(tokens@).len(),
        forall|k: int|
            0 <= k < json_tokens@.len() ==> describes_token(
                #[trigger] json_tokens@[k],
                with_genesis(tokens@)[k],
            ),
{
    let mut json_tokens: Vec<JsonSlpv2TokenInfo> = Vec::new();
    let mut i: usize = 0;
    while i < tokens.len()
        invariant
            i <= tokens.len(),
            json_tokens@.len() == with_genesis(tokens@.subrange(0, i as int)).len(),
            forall|k: int|
                0 <= k < json_tokens@.len() ==> describes_token(
                    #[trigger] json_tokens@[k],
                    with_genesis(tokens@.subrange(0, i as int))[k],
                ),
        decreases tokens.len() - i,
    {
        assert(tokens@.subrange(0, i + 1).drop_last() =~= tokens@.subrange(0, i as int));
        match &tokens[i].genesis_data {
            Some(genesis) => {
                json_tokens.push(
                    describe_token(
                        tokens[i].token_id.as_slice(),
                        tokens[i].token_type,
                        genesis.token_ticker.as_slice(),
                        genesis.token_name.as_slice(),
                        genesis.url.as_slice(),
                        genesis.decimals,
                    ),
                );
            },
            None => {},
        }
        i += 1;
    }
    assert(tokens@.subrange(0, i as int) =~= tokens@);
    json_tokens
}

/// Whether the token `id` is described in `json_tokens`.
pub open spec fn is_described(json_tokens: Seq<JsonSlpv2TokenInfo>, id: Seq<u8>) -> bool {
    exists|k: int| 0 <= k < json_tokens.len() && (#[trigger] json_tokens[k]).token_id@ == id
}

/// Whether `k` is the first place in `json_tokens` that describes the token `id`.
pub open spec fn first_described_at(
    json_tokens: Seq<JsonSlpv2TokenInfo>,
    id: Seq<u8>,
    k: int,
) -> bool {
    &&& 0 <= k < json_tokens.len()
    &&& json_tokens[k].token_id@ == id
    &&& forall|j: int| 0 <= j < k ==> (#[trigger] json_tokens[j]).token_id@ != id
}

/// Whether `k` is the first place in `tokens` that holds the token `id`.
pub open spec fn first_known_at(tokens: Seq<TokenInfo>, id: Seq<u8>, k: int) -> bool {
    &&& 0 <= k < tokens.len()
    &&& tokens[k].token_id@ == id
    &&& forall|j: int| 0 <= j < k ==> (#[trigger] tokens[j]).token_id@ != id
}

/// Whether the node knows the token `id`.
pub open spec fn is_known(tokens: Seq<TokenInfo>, id: Seq<u8>) -> bool {
    exists|k: int| 0 <= k < tokens.len() && (#[trigger] tokens[k]).token_id@ == id
}

/// Whether every section names a token whose id has the length of a hash.
pub open spec fn sections_valid(sections: Seq<TokenSection>) -> bool {
    forall|i: int| 0 <= i < sections.len() ==> (#[trigger] sections[i]).token_id@.len() == HASH_LEN
}

/// Whether every section of every transaction names a token whose id has
/// the length of a hash.
pub open spec fn all_sections_valid(txs: Seq<ChainTx>) -> bool {
    forall|i: int| 0 <= i < txs.len() ==> sections_valid((#[trigger] txs[i]).slpv2_sections@)
}

/// The sections among `sections` whose token is described in
/// `json_tokens`, in their order.
pub open spec fn described_sections(
    sections: Seq<TokenSection>,
    json_tokens: Seq<JsonSlpv2TokenInfo>,
) -> Seq<TokenSection>
    decreases sections.len(),
{
    if sections.len() == 0 {
        Seq::empty()
    } else if is_described(json_tokens, sections.last().token_id@) {
        described_sections(sections.drop_last(), json_tokens).push(sections.last())
    } else {
        described_sections(sections.drop_last(), json_tokens)
    }
}

/// Whether `json` shows `section` of `tx` in an address's history: the
/// token as `json_tokens` first describes it, and the section's figures
/// as seen from the address.
pub open spec fn shows_history_section(
    json: JsonSlpv2Section,
    tx: ChainTx,
    section: TokenSection,
    json_tokens: Seq<JsonSlpv2TokenInfo>,
    address: Seq<u8>,
) -> bool {
    &&& json.stats == section_stats(tx, section, Some(address))
    &&& exists|k: int| #[trigger]
        first_described_at(json_tokens, section.token_id@, k) && same_info(
            json.token_info,
            json_tokens[k],
        )
}

/// Whether `json` shows `section` of `tx` in a block's list: the token
/// with what its genesis declared, or with empty texts and no decimals
/// where the node does not know the token or its genesis, and the
/// section's figures over the whole transaction.
pub open spec fn shows_block_section(
    json: JsonSlpv2Section,
    tx: ChainTx,
    section: TokenSection,
    tokens: Seq<TokenInfo>,
) -> bool {
    &&& json.stats == section_stats(tx, section, None)
    &&& if is_known(tokens, section.token_id@) {
        exists|k: int| #[trigger]
            first_known_at(tokens, section.token_id@, k) && (match tokens[k].genesis_data {
                Some(genesis) => describes(
                    json.token_info,
                    section.token_id@,
                    section.token_type_number,
                    genesis.token_ticker@,
                    genesis.token_name@,
                    genesis.url@,
                    genesis.decimals,
                ),
                None => describes_unknown(
                    json.token_info,
                    section.token_id@,
                    section.token_type_number,
                ),
            })
    } else {
        describes_unknown(json.token_info, section.token_id@, section.token_type_number)
    }
}

/// Whether `json` shows `tx` apart from its sections, with the given
/// block height, time and figures.
pub open spec fn shows_tx(
    json: JsonTx,
    tx: ChainTx,
    block_height: Option<i32>,
    timestamp: i64,
    stats: JsonTxStats,
) -> bool {
    &&& json.tx_hash@ == tx.txid@
    &&& json.block_height == block_height
    &&& json.timestamp == timestamp
    &&& json.is_coinbase == tx.is_coinbase
    &&& json.size == tx.size as i32
    &&& json.num_inputs == tx.inputs@.len() as u32
    &&& json.num_outputs == tx.outputs@.len() as u32
    &&& json.stats == stats
}

/// Whether `json` shows `tx` in the history of `address`.
pub open spec fn shows_in_history(
    json: JsonTx,
    tx: ChainTx,
    json_tokens: Seq<JsonSlpv2TokenInfo>,
    address: Seq<u8>,
) -> bool {
    let sections = described_sections(tx.slpv2_sections@, json_tokens);
    &&& shows_tx(
        json,
        tx,
        match tx.block {
            Some(block) => Some(block.height),
            None => None,
        },
        match tx.block {
            Some(block) => block.timestamp,
            None => tx.time_first_seen,
        },
        tx_stats(tx, Some(address)),
    )
    &&& json.slpv2_sections@.len() == sections.len()
    &&& forall|j: int|
        0 <= j < sections.len() ==> shows_history_section(
            #[trigger] json.slpv2_sections@[j],
            tx,
            sections[j],
            json_tokens,
            address,
        )
}

/// Whether `json` shows `tx` in the list of a block.
pub open spec fn shows_in_block(
    json: JsonTx,
    tx: ChainTx,
    block: Option<BlockRef>,
    tokens: Seq<TokenInfo>,
) -> bool {
    &&& shows_tx(
        json,
        tx,
        match block {
            Some(block) => Some(block.height),
            None => None,
        },
        match block {
            Some(block) => block.timestamp,
            None => 0i64,
        },
        tx_stats(tx, None),
    )
    &&& json.slpv2_sections@.len() == tx.slpv2_sections@.len()
    &&& forall|j: int|
        0 <= j < tx.slpv2_sections@.len() ==> shows_block_section(
            #[trigger] json.slpv2_sections@[j],
            tx,
            tx.slpv2_sections@[j],
            tokens,
        )
}

fn duplicate(info: &JsonSlpv2TokenInfo) -> (copy: JsonSlpv2TokenInfo)
    ensures
        same_info(copy, *info),
{
    JsonSlpv2TokenInfo {
        token_id: copy_bytes(info.token_id.as_slice()),
        token_type: info.token_type,
        token_ticker: info.token_ticker.clone(),
        token_name: info.token_name.clone(),
        token_url: info.token_url.clone(),
        decimals: info.decimals,
    }
}

fn find_described(json_tokens: &Vec<JsonSlpv2TokenInfo>, id: &[u8]) -> (found: Option<usize>)
    ensures
        match found {
            Some(k) => first_described_at(json_tokens@, id@, k as int),
            None => !is_described(json_tokens@, id@),
        },
{
    let mut k: usize = 0;
    while k < json_tokens.len()
        invariant
            k <= json_tokens.len(),
            forall|j: int| 0 <= j < k ==> (#[trigger] json_tokens@[j]).token_id@ != id@,
        decreases json_tokens.len() - k,
    {
        if same_bytes(json_tokens[k].token_id.as_slice(), id) {
            return Some(k);
        }
        k += 1;
    }
    None
}

fn find_known(tokens: &Vec<TokenInfo>, id: &[u8]) -> (found: Option<usize>)
    ensures
        match found {
            Some(k) => first_known_at(tokens@, id@, k as int),
            None => !is_known(tokens@, id@),
        },
{
    let mut k: usize = 0;
    while k < tokens.len()
        invariant
            k <= tokens.len(),
            forall|j: int| 0 <= j < k ==> (#[trigger] tokens@[j]).token_id@ != id@,
        decreases tokens.len() - k,
    {
        if same_bytes(tokens[k].token_id.as_slice(), id) {
            return Some(k);
        }
        k += 1;
    }
    None
}

fn show_tx(
    tx: &ChainTx,
    block_height: Option<i32>,
    timestamp: i64,
    stats: JsonTxStats,
    slpv2_sections: Vec<JsonSlpv2Section>,
) -> (json: JsonTx)
    ensures
        shows_tx(json, *tx, block_height, timestamp, stats),
        json.slpv2_sections == slpv2_sections,
{
    JsonTx {
        tx_hash: copy_bytes(tx.txid.as_slice()),
        block_height,
        timestamp,
        is_coinbase: tx.is_coinbase,
        size: #[verifier::truncate]
        (tx.size as i32),
        num_inputs: #[verifier::truncate]
        (tx.inputs.len() as u32),
        num_outputs: #[verifier::truncate]
        (tx.outputs.len() as u32),
        stats,
        slpv2_sections,
    }
}

fn history_sections(
    tx: &ChainTx,
    json_tokens: &Vec<JsonSlpv2TokenInfo>,
    address: &[u8],
) -> (result: Result<Vec<JsonSlpv2Section>, ApiError>)
    ensures
        match result {
            Ok(shown) => {
                let sections = described_sections(tx.slpv2_sections@, json_tokens@);
                &&& sections_valid(tx.slpv2_sections@)
                &&& shown@.len() == sections.len()
                &&& forall|j: int|
                    0 <= j < sections.len() ==> shows_history_section(
                        #[trigger] shown@[j],
                        *tx,
                        sections[j],
                        json_tokens@,
                        address@,
                    )
            },
            Err(_) => !sections_valid(tx.slpv2_sections@),
        },
{
    let mut shown: Vec<JsonSlpv2Section> = Vec::new();
    let mut i: usize = 0;
    while i < tx.slpv2_sections.len()
        invariant
            i <= tx.slpv2_sections.len(),
            sections_valid(tx.slpv2_sections@.subrange(0, i as int)),
            shown@.len() == described_sections(
                tx.slpv2_sections@.subrange(0, i as int),
                json_tokens@,
            ).len(),
            forall|j: int|
                0 <= j < shown@.len() ==> shows_history_section(
                    #[trigger] shown@[j],
                    *tx,
                    described_sections(tx.slpv2_sections@.subrange(0, i as int), json_tokens@)[j],
                    json_tokens@,
                    address@,
                ),
        decreases tx.slpv2_sections.len() - i,
    {
        let section = &tx.slpv2_sections[i];
        assert(tx.slpv2_sections@.subrange(0, i + 1).drop_last() =~= tx.slpv2_sections@.subrange(
            0,
            i as int,
        ));
        if section.token_id.len() != HASH_LEN {
            return Err(ApiError::InvalidTokenId);
        }
        assert forall|j: int| 0 <= j < i + 1 implies (#[trigger] tx.slpv2_sections@.subrange(
            0,
            i + 1,
        )[j]).token_id@.len() == HASH_LEN by {
            if j < i {
                assert(tx.slpv2_sections@.subrange(0, i as int)[j] == tx.slpv2_sections@.subrange(
                    0,
                    i + 1,
                )[j]);
            }
        }
        match find_described(json_tokens, section.token_id.as_slice()) {
            Some(k) => {
                let token_info = duplicate(&json_tokens[k]);
                let stats = calc_section_stats(tx, section, Some(address));
                shown.push(JsonSlpv2Section { token_info, stats });
            },
            None => {},
        }
        i += 1;
    }
    assert(tx.slpv2_sections@.subrange(0, i as int) =~= tx.slpv2_sections@);
    Ok(shown)
}

fn block_sections(tx: &ChainTx, tokens: &Vec<TokenInfo>) -> (result: Result<
    Vec<JsonSlpv2Section>,
    ApiError,
>)
    ensures
        match result {
            Ok(shown) => {
                &&& sections_valid(tx.slpv2_sections@)
                &&& shown@.len() == tx.slpv2_sections@.len()
                &&& forall|j: int|
                    0 <= j < shown@.len() ==> shows_block_section(
                        #[trigger] shown@[j],
                        *tx,
                        tx.slpv2_sections@[j],
                        tokens@,
                    )
            },
            Err(_) => !sections_valid(tx.slpv2_sections@),
        },
{
    let mut shown: Vec<JsonSlpv2Section> = Vec::new();
    let mut i: usize = 0;
    while i < tx.slpv2_sections.len()
        invariant
            i <= tx.slpv2_sections.len(),
            shown@.len() == i,
            forall|j: int| 0 <= j < i ==> (#[trigger] tx.slpv2_sections@[j]).token_id@.len()
                == HASH_LEN,
            forall|j: int|
                0 <= j < i ==> shows_block_section(
                    #[trigger] shown@[j],
                    *tx,
                    tx.slpv2_sections@[j],
                    tokens@,
                ),
        decreases tx.slpv2_sections.len() - i,
    {
        let section = &tx.slpv2_sections[i];
        if section.token_id.len() != HASH_LEN {
            return Err(ApiError::InvalidTokenId);
        }
        let id = section.token_id.as_slice();
        let nothing: Vec<u8> = Vec::new();
        let genesis: Option<&GenesisData> = match find_known(tokens, id) {
            Some(k) => {
                tokens[k].genesis_data.as_ref()
            },
            None => None,
        };
        let token_info = match genesis {
            Some(genesis) => describe_token(
                id,
                section.token_type_number,
                genesis.token_ticker.as_slice(),
                genesis.token_name.as_slice(),
                genesis.url.as_slice(),
                genesis.decimals,
            ),
            None => describe_token(
                id,
                section.token_type_number,
                nothing.as_slice(),
                nothing.as_slice(),
                nothing.as_slice(),
                0,
            ),
        };
        let stats = calc_section_stats(tx, section, None);
        shown.push(JsonSlpv2Section { token_info, stats });
        i += 1;
    }
    Ok(shown)
}

/// The history of an address as a list: each transaction with its block,
/// or the time it was first seen, its figures as seen from the address, and
/// those of its token sections whose token `json_tokens` describes.
///
/// Fails, whatever else `txs` holds, when a section of some transaction
/// names a token whose id has not the length of a hash.
pub fn tx_history_to_json(
    address_bytes: &[u8],
    txs: &Vec<ChainTx>,
    json_tokens: &Vec<JsonSlpv2TokenInfo>,
) -> (result: Result<Vec<JsonTx>, ApiError>)
    ensures
        match result {
            Ok(json_txs) => {
                &&& all_sections_valid(txs@)
                &&& json_txs@.len() == txs@.len()
                &&& forall|i: int|
                    0 <= i < txs@.len() ==> shows_in_history(
                        #[trigger] json_txs@[i],
                        txs@[i],
                        json_tokens@,
                        address_bytes@,
                    )
            },
            Err(error) => error == ApiError::InvalidTokenId && !all_sections_valid(txs@),
        },
{
    let mut json_txs: Vec<JsonTx> = Vec::new();
    let mut i: usize = 0;
    while i < txs.len()
        invariant
            i <= txs.len(),
            json_txs@.len() == i,
            forall|j: int| 0 <= j < i ==> sections_valid((#[trigger] txs@[j]).slpv2_sections@),
            forall|j: int|
                0 <= j < i ==> shows_in_history(
                    #[trigger] json_txs@[j],
                    txs@[j],
                    json_tokens@,
                    address_bytes@,
                ),
        decreases txs.len() - i,
    {
        let tx = &txs[i];
        let (block_height, timestamp) = match tx.block {
            Some(block) => (Some(block.height), block.timestamp),
            None => (None, tx.time_first_seen),
        };
        let sections = match history_sections(tx, json_tokens, address_bytes) {
            Ok(sections) => sections,
            Err(error) => {
                return Err(error);
            },
        };
        let stats = calc_tx_stats(tx, Some(address_bytes));
        json_txs.push(show_tx(tx, block_height, timestamp, stats, sections));
        i += 1;
    }
    Ok(json_txs)
}

/// The transactions of a block as a list: each with the block's height and
/// time, its figures over all inputs and outputs, and all its token
/// sections, each with what the node knows of its token.
///
/// Fails, whatever else `block_txs` holds, when a section of some
/// transaction names a token whose id has not the length of a hash.
pub fn block_txs_to_json(
    block: Option<BlockRef>,
    block_txs: &Vec<ChainTx>,
    tokens: &Vec<TokenInfo>,
) -> (result: Result<Vec<JsonTx>, ApiError>)
    ensures
        match result {
            Ok(json_txs) => {
                &&& all_sections_valid(block_txs@)
                &&& json_txs@.len() == block_txs@.len()
                &&& forall|i: int|
                    0 <= i < block_txs@.len() ==> shows_in_block(
                        #[trigger] json_txs@[i],
                        block_txs@[i],
                        block,
                        tokens@,
                    )
            },
            Err(error) => error == ApiError::InvalidTokenId && !all_sections_valid(block_txs@),
        },
{
    let mut json_txs: Vec<JsonTx> = Vec::new();
    let mut i: usize = 0;
    while i < block_txs.len()
        invariant
            i <= block_txs.len(),
            json_txs@.len() == i,
            forall|j: int|
                0 <= j < i ==> sections_valid((#[trigger] block_txs@[j]).slpv2_sections@),
            forall|j: int|
                0 <= j < i ==> shows_in_block(
                    #[trigger] json_txs@[j],
                    block_txs@[j],
                    block,
                    tokens@,
                ),
        decreases block_txs.len() - i,
    {
        let tx = &block_txs[i];
        let (block_height, timestamp) = match block {
            Some(block) => (Some(block.height), block.timestamp),
            None => (None, 0),
        };
        let sections = match block_sections(tx, tokens) {
            Ok(sections) => sections,
            Err(error) => {
                return Err(error);
            },
        };
        let stats = calc_tx_stats(tx, None);
        json_txs.push(show_tx(tx, block_height, timestamp, stats, sections));
        i += 1;
    }
    Ok(json_txs)
}

} // verus!
