//! What the explorer's pages and endpoints compute from the node's answers.
//!
//! Every function here works on values already fetched: asking the node and
//! rendering the result are the caller's part.

use crate::api::{
    calc_section_stats, calc_tx_stats, describes, section_stats, tx_stats, ApiError,
};
use crate::balances::{
    address_balances, balance_of, dust_sats, holding, token_ids, token_ids_valid,
    token_positions, total_sats, BalanceError,
};
use crate::chain::{
    copy_bytes, holds, holds_bytes, BlockInfo, BlockRef, ChainTx, ScriptUtxo, SectionType,
    TokenInfo, TokenSection, TokenType, HASH_LEN,
};
use crate::server_primitives::{JsonBlock, JsonBlocksResponse, JsonSlpv2Section};
use crate::templating::{
    AddressTemplate, BlockTemplate, BlocksTemplate, HomepageTemplate, TemplateSlpv2TokenSection,
    TransactionTemplate,
};
use qrcode_generator::{QRCodeError, QrCodeEcc};
use vstd::prelude::*;
use vstd::string::StringExecFns;

verus! {

/// The error of the QR encoder. Nothing is known of its inside.
#[verifier::external_type_specification]
#[verifier::external_body]
pub struct ExQRCodeError(qrcode_generator::QRCodeError);

/// The PNG image, `size` pixels wide and high, of the QR code that holds
/// `text` at the error correction level "quartile"; `None` where no such
/// image can be made.
pub uninterp spec fn qr_png_quartile(text: Seq<char>, size: usize) -> Option<Seq<u8>>;

/// Calls `qrcode_generator::to_png_to_vec` with the level `Quartile`.
///
/// The encoder computes its result from the text and the size alone, so
/// the result is named by [`qr_png_quartile`]: an image where it returns
/// `Ok`, none where it returns an error. Nothing is claimed about what
/// the image holds. Sizes are limited so that the raw image, one byte
/// per pixel, stays small.
#[verifier::external_body]
fn encode_qr_png(text: &str, size: usize) -> (encoded: Result<Vec<u8>, QRCodeError>)
    requires
        size <= QR_SIZE_LIMIT,
    ensures
        match encoded {
            Ok(png) => qr_png_quartile(text@, size) == Some(png@),
            Err(_) => qr_png_quartile(text@, size) is None,
        },
{
    qrcode_generator::to_png_to_vec(text, QrCodeEcc::Quartile, size)
}

/// The largest image side the library asks the QR encoder for.
pub const QR_SIZE_LIMIT: usize = 4096;

/// The side of the QR image of an address, in pixels.
pub const ADDRESS_QR_SIZE: usize = 160;

/// The longest address, in bytes, that gets a QR image.
pub const ADDRESS_QR_MAX_LEN: usize = 60;

/// Why no QR image was made.
#[derive(Clone, Copy, Debug, PartialEq, Eq, Structural)]
pub enum QrError {
    /// The address is longer than [`ADDRESS_QR_MAX_LEN`] bytes.
    InvalidAddressLength,
    /// The encoder failed.
    Encoding,
}

/// Turns the encoder's answer into the endpoint's: the image as it is, and
/// any failure of the encoder as [`QrError::Encoding`].
pub fn qr_response(encoded: Result<Vec<u8>, QRCodeError>) -> (response: Result<Vec<u8>, QrError>)
    ensures
        match encoded {
            Ok(png) => response == Ok::<Vec<u8>, QrError>(png),
            Err(_) => response == Err::<Vec<u8>, QrError>(QrError::Encoding),
        },
{
    match encoded {
        Ok(png) => Ok(png),
        Err(_) => Err(QrError::Encoding),
    }
}

/// What a search for a text found.
#[derive(Clone, Copy, Debug, PartialEq, Eq, Structural)]
pub enum SearchHit {
    /// The text is a transaction's hash.
    Transaction,
    /// The text is a block's hash.
    Block,
    /// The node knows neither a transaction nor a block of that hash.
    Nothing,
}

/// The explorer's settings.
#[derive(Debug)]
pub struct Server {
    satoshi_addr_prefix: &'static str,
    tokens_addr_prefix: &'static str,
}

impl Server {
    /// The prefix of addresses that hold satoshis.
    pub closed spec fn satoshi_prefix(&self) -> Seq<char> {
        self.satoshi_addr_prefix@
    }

    /// The prefix of addresses that hold tokens.
    pub closed spec fn tokens_prefix(&self) -> Seq<char> {
        self.tokens_addr_prefix@
    }

    /// The explorer for the eCash network.
    pub fn setup() -> (server: Self)
        ensures
            server.satoshi_prefix() == "ecash"@,
            server.tokens_prefix() == "etoken"@,
    {
        Server { satoshi_addr_prefix: "ecash", tokens_addr_prefix: "etoken" }
    }

    pub fn satoshi_addr_prefix(&self) -> (prefix: &'static str)
        ensures
            prefix@ == self.satoshi_prefix(),
    {
        self.satoshi_addr_prefix
    }

    pub fn tokens_addr_prefix(&self) -> (prefix: &'static str)
        ensures
            prefix@ == self.tokens_prefix(),
    {
        self.tokens_addr_prefix
    }

    pub fn homepage(&self) -> HomepageTemplate {
        HomepageTemplate {  }
    }

    /// The blocks page for a chain whose tip is at `tip_height`.
    pub fn blocks(&self, tip_height: i32) -> (page: BlocksTemplate)
        ensures
            page.last_block_height == tip_height as u32,
    {
        BlocksTemplate::for_tip(tip_height)
    }

    /// The QR image of an address: a PNG of [`ADDRESS_QR_SIZE`] pixels
    /// at the level "quartile". Addresses of more than
    /// [`ADDRESS_QR_MAX_LEN`] bytes are refused before the encoder is asked.
    pub fn address_qr(&self, address: &str) -> (result: Result<Vec<u8>, QrError>)
        ensures
            address.len() > ADDRESS_QR_MAX_LEN ==> result == Err::<Vec<u8>, QrError>(
                QrError::InvalidAddressLength,
            ),
            address.len() <= ADDRESS_QR_MAX_LEN ==> match qr_png_quartile(
                address@,
                ADDRESS_QR_SIZE,
            ) {
                Some(png) => result matches Ok(image) && image@ == png,
                None => result == Err::<Vec<u8>, QrError>(QrError::Encoding),
            },
    {
        if address.len() > ADDRESS_QR_MAX_LEN {
            return Err(QrError::InvalidAddressLength);
        }
        qr_response(encode_qr_png(address, ADDRESS_QR_SIZE))
    }

    /// The page of a block at the time the chain's tip is at `tip_height`.
    pub fn block(&self, block_info: &BlockInfo, tip_height: i32) -> (page: BlockTemplate)
        ensures
            page == (BlockTemplate {
                height: block_info.height,
                confirmations: confirmations_of(tip_height, block_info.height),
                timestamp: block_info.timestamp,
            }),
    {
        BlockTemplate {
            height: block_info.height,
            confirmations: confirmations(
                tip_height,
                Some(BlockRef { height: block_info.height, timestamp: block_info.timestamp }),
            ),
            timestamp: block_info.timestamp,
        }
    }

    /// The page of a transaction with its token sections `sections`, at
    /// the time the chain's tip is at `tip_height`.
    pub fn tx(
        &self,
        tx: &ChainTx,
        sections: Vec<TemplateSlpv2TokenSection>,
        tip_height: i32,
    ) -> (page: TransactionTemplate)
        ensures
            page.title@ == title_of(sections@, tx.slpv2_errors > 0),
            page.is_token == (sections@.len() > 0 || tx.slpv2_errors > 0),
            page.slpv2_sections == sections,
            page.confirmations == (match tx.block {
                Some(block) => confirmations_of(tip_height, block.height),
                None => 0i32,
            }),
            page.timestamp == (match tx.block {
                Some(block) => block.timestamp,
                None => tx.time_first_seen,
            }),
            page.sats_input == tx_stats(*tx, None).sats_input,
            page.sats_output == tx_stats(*tx, None).sats_output,
    {
        let (title, is_token) = transaction_title(&sections, tx.slpv2_errors > 0);
        let stats = calc_tx_stats(tx, None);
        TransactionTemplate {
            title,
            is_token,
            slpv2_sections: sections,
            confirmations: confirmations(tip_height, tx.block),
            timestamp: shown_timestamp(tx),
            sats_input: stats.sats_input,
            sats_output: stats.sats_output,
        }
    }

    /// The page of an address that has `utxos` unspent and
    /// `address_num_txs` transactions in its history.
    ///
    /// The page holds the balance of the outputs without a token, one
    /// balance per token in the order in which the tokens first occur, the
    /// satoshis on either kind of output and the positions of the outputs
    /// with tokens. It fails when some output carries a token whose id has
    /// not the length of a hash.
    pub fn address(&self, utxos: &Vec<ScriptUtxo>, address_num_txs: u32) -> (result: Result<
        AddressTemplate,
        BalanceError,
    >)
        ensures
            match result {
                Ok(page) => {
                    &&& token_ids_valid(utxos@)
                    &&& page.address_num_txs == address_num_txs
                    &&& page.total_xec == total_sats(holding(utxos@, None)) as i64
                    &&& page.token_dust == dust_sats(utxos@) as i64
                    &&& page.token_utxos@ == token_positions(utxos@)
                    &&& balance_of(page.main_balance, None, holding(utxos@, None))
                    &&& page.token_balances@.len() == token_ids(utxos@).len()
                    &&& forall|k: int|
                        0 <= k < page.token_balances@.len() ==> balance_of(
                            #[trigger] page.token_balances@[k],
                            Some(token_ids(utxos@)[k]),
                            holding(utxos@, Some(token_ids(utxos@)[k])),
                        )
                },
                Err(error) => error == BalanceError::InvalidTokenId && !token_ids_valid(utxos@),
            },
    {
        match address_balances(utxos) {
            Ok(balances) => Ok(
                AddressTemplate {
                    token_dust: balances.token_dust,
                    total_xec: balances.total_xec,
                    token_utxos: balances.token_utxos,
                    address_num_txs,
                    main_balance: balances.main,
                    token_balances: balances.tokens,
                },
            ),
            Err(error) => Err(error),
        }
    }

    /// The blocks of a range as a list, the highest first: `blocks` come
    /// in ascending order and leave in descending order.
    pub fn data_blocks(&self, blocks: &Vec<BlockInfo>) -> (response: JsonBlocksResponse)
        ensures
            response.data@.len() == blocks@.len(),
            forall|i: int|
                0 <= i < blocks@.len() ==> lists_block(
                    #[trigger] response.data@[i],
                    blocks@[blocks@.len() - 1 - i],
                ),
    {
        let mut data: Vec<JsonBlock> = Vec::new();
        let mut left: usize = blocks.len();
        while left > 0
            invariant
                left <= blocks.len(),
                data@.len() == blocks.len() - left,
                forall|i: int|
                    0 <= i < data@.len() ==> lists_block(
                        #[trigger] data@[i],
                        blocks@[blocks@.len() - 1 - i],
                    ),
            decreases left,
        {
            left -= 1;
            let block = &blocks[left];
            data.push(
                JsonBlock {
                    hash: copy_bytes(block.hash.as_slice()),
                    height: block.height,
                    timestamp: block.timestamp,
                    n_bits: block.n_bits,
                    size: block.block_size,
                    num_txs: block.num_txs,
                },
            );
        }
        JsonBlocksResponse { data }
    }

    /// Where a request is sent on to: the address as it is.
    pub fn redirect(&self, url: String) -> (location: String)
        ensures
            location@ == url@,
    {
        url
    }

    /// Where the request for the block at some height is sent on to:
    /// the page of the block with hash `block_hash`, or the page for
    /// what is not there when the node has no block at that height.
    pub fn block_height(&self, block_hash: Option<&str>) -> (location: String)
        ensures
            location@ == (match block_hash {
                Some(hash) => "/block/"@ + hash@,
                None => "/404"@,
            }),
    {
        match block_hash {
            Some(hash) => {
                let mut location = "/block/".to_owned();
                location.append(hash);
                location
            },
            None => "/404".to_owned(),
        }
    }

    /// Where a search is sent on to when the text is an address: the
    /// address's page.
    pub fn search_address(&self, address: &str) -> (location: String)
        ensures
            location@ == "/address/"@ + address@,
    {
        let mut location = "/address/".to_owned();
        location.append(address);
        location
    }

    /// Where a search is sent on to when the text is a hash: the page of
    /// the transaction or block that the node knows by it, a transaction
    /// before a block, or the page for what is not there.
    pub fn search(&self, query: &str, hit: SearchHit) -> (location: String)
        ensures
            location@ == (match hit {
                SearchHit::Transaction => "/tx/"@ + query@,
                SearchHit::Block => "/block/"@ + query@,
                SearchHit::Nothing => "/404"@,
            }),
    {
        match hit {
            SearchHit::Transaction => {
                let mut location = "/tx/".to_owned();
                location.append(query);
                location
            },
            SearchHit::Block => {
                let mut location = "/block/".to_owned();
                location.append(query);
                location
            },
            SearchHit::Nothing => "/404".to_owned(),
        }
    }
}

/// Whether `json` lists `block`.
pub open spec fn lists_block(json: JsonBlock, block: BlockInfo) -> bool {
    &&& json.hash@ == block.hash@
    &&& json.height == block.height
    &&& json.timestamp == block.timestamp
    &&& json.n_bits == block.n_bits
    &&& json.size == block.block_size
    &&& json.num_txs == block.num_txs
}

/// How many blocks confirm a block at `block_height` when the tip is at
/// `tip_height`: the tip itself counts. The number is 32-bit and wraps.
pub open spec fn confirmations_of(tip_height: i32, block_height: i32) -> i32 {
    (tip_height - block_height + 1) as i32
}

/// The confirmations of a transaction: those of its block, or none while
/// it is unconfirmed.
pub fn confirmations(tip_height: i32, block: Option<BlockRef>) -> (count: i32)
    ensures
        count == (match block {
            Some(block) => confirmations_of(tip_height, block.height),
            None => 0i32,
        }),
{
    match block {
        Some(block) => {
            let exact: i64 = tip_height as i64 - block.height as i64 + 1;
            #[verifier::truncate]
            (exact as i32)
        },
        None => 0,
    }
}

/// The time a transaction is shown with: its block's, or the time it was
/// first seen while it is unconfirmed.
pub fn shown_timestamp(tx: &ChainTx) -> (timestamp: i64)
    ensures
        timestamp == (match tx.block {
            Some(block) => block.timestamp,
            None => tx.time_first_seen,
        }),
{
    match tx.block {
        Some(block) => block.timestamp,
        None => tx.time_first_seen,
    }
}

/// The name a token section is shown under.
pub open spec fn section_name(token_type: TokenType, section_type: SectionType) -> Seq<char> {
    match (token_type, section_type) {
        (TokenType::Standard, SectionType::Genesis) => "GENESIS"@,
        (TokenType::Standard, SectionType::Send) => "SEND"@,
        (TokenType::Standard, SectionType::Mint) => "MINT"@,
        _ => "Unknown"@,
    }
}

/// The name a token section is shown under: what a standard token's
/// section does, and "Unknown" for everything else.
pub fn section_type_name(token_type: TokenType, section_type: SectionType) -> (name: &'static str)
    ensures
        name@ == section_name(token_type, section_type),
{
    match (token_type, section_type) {
        (TokenType::Standard, SectionType::Genesis) => "GENESIS",
        (TokenType::Standard, SectionType::Send) => "SEND",
        (TokenType::Standard, SectionType::Mint) => "MINT",
        _ => "Unknown",
    }
}

/// What stands before the ticker at position `index` of `count`: nothing
/// before the first, " & " before the last, ", " before the others.
pub open spec fn separator(index: int, count: int) -> Seq<char> {
    if index <= 0 {
        Seq::empty()
    } else if index == count - 1 {
        " & "@
    } else {
        ", "@
    }
}

/// The ticker a section is shown with.
pub open spec fn ticker_of(section: TemplateSlpv2TokenSection) -> Seq<char> {
    section.data.token_info.token_ticker@
}

/// The tickers of the first `upto` sections with their separators.
pub open spec fn joined_tickers(sections: Seq<TemplateSlpv2TokenSection>, upto: int) -> Seq<char>
    decreases upto,
{
    if upto <= 0 {
        Seq::empty()
    } else {
        joined_tickers(sections, upto - 1) + separator(upto - 1, sections.len() as int)
            + ticker_of(sections[upto - 1])
    }
}

/// The title of a transaction's page.
pub open spec fn title_of(
    sections: Seq<TemplateSlpv2TokenSection>,
    has_token_errors: bool,
) -> Seq<char> {
    if sections.len() == 0 {
        if has_token_errors {
            "Invalid eToken Transaction"@
        } else {
            "eCash Transaction"@
        }
    } else {
        joined_tickers(sections, sections.len() as int) + " Transaction"@
    }
}

/// The title of a transaction's page and whether the page is a token's:
/// the tickers of its token sections, joined by commas and a final
/// ampersand; without sections "eCash Transaction", or "Invalid eToken
/// Transaction" where the node found token errors.
pub fn transaction_title(
    sections: &Vec<TemplateSlpv2TokenSection>,
    has_token_errors: bool,
) -> (titled: (String, bool))
    ensures
        titled.0@ == title_of(sections@, has_token_errors),
        titled.1 == (sections@.len() > 0 || has_token_errors),
{
    if sections.len() == 0 {
        if has_token_errors {
            ("Invalid eToken Transaction".to_owned(), true)
        } else {
            ("eCash Transaction".to_owned(), false)
        }
    } else {
        let mut title = String::new();
        let mut idx: usize = 0;
        while idx < sections.len()
            invariant
                idx <= sections.len(),
                title@ == joined_tickers(sections@, idx as int),
            decreases sections.len() - idx,
        {
            if idx > 0 {
                if idx == sections.len() - 1 {
                    title.append(" & ");
                } else {
                    title.append(", ");
                }
            }
            title.append(sections[idx].data.token_info.token_ticker.as_str());
            idx += 1;
        }
        title.append(" Transaction");
        (title, true)
    }
}

/// Why a transaction's page could not be put together.
#[derive(Clone, Copy, Debug, PartialEq, Eq, Structural)]
pub enum TxPageError {
    /// The node knows the token of a section but not its genesis.
    MissingGenesisData,
}

/// Whether `shown` shows `section` of `tx` on the transaction's page,
/// with `token` as the node knows the section's token.
pub open spec fn shows_section(
    shown: TemplateSlpv2TokenSection,
    tx: ChainTx,
    section: TokenSection,
    token: TokenInfo,
) -> bool {
    &&& token.genesis_data matches Some(genesis)
    &&& shown.section_type@ == section_name(section.token_type, section.section_type)
    &&& shown.data.stats == section_stats(tx, section, None)
    &&& describes(
        shown.data.token_info,
        section.token_id@,
        section.token_type_number,
        genesis.token_ticker@,
        genesis.token_name@,
        genesis.url@,
        genesis.decimals,
    )
}

/// One token section of a transaction's page: its name, the section's
/// token with what its genesis declared, and the section's figures over
/// the whole transaction. Fails when the node does not know the genesis
/// of the token.
pub fn transaction_section(tx: &ChainTx, section: &TokenSection, token: &TokenInfo) -> (result:
    Result<TemplateSlpv2TokenSection, TxPageError>)
    ensures
        match result {
            Ok(shown) => shows_section(shown, *tx, *section, *token),
            Err(error) => error == TxPageError::MissingGenesisData && token.genesis_data is None,
        },
{
    match &token.genesis_data {
        None => Err(TxPageError::MissingGenesisData),
        Some(genesis) => {
            let token_info = crate::api::describe_token(
                section.token_id.as_slice(),
                section.token_type_number,
                genesis.token_ticker.as_slice(),
                genesis.token_name.as_slice(),
                genesis.url.as_slice(),
                genesis.decimals,
            );
            let stats = calc_section_stats(tx, section, None);
            Ok(
                TemplateSlpv2TokenSection {
                    section_type: section_type_name(
                        section.token_type,
                        section.section_type,
                    ).to_owned(),
                    data: JsonSlpv2Section { token_info, stats },
                },
            )
        },
    }
}

/// Whether a further page of a block's transactions must be fetched after
/// `fetched` pages when the node reports `num_pages` in all.
pub fn more_pages(fetched: usize, num_pages: u32) -> (more: bool)
    ensures
        more == (fetched != num_pages),
{
    fetched as u64 != num_pages as u64
}

/// Whether no byte string occurs twice in `ids`.
pub open spec fn ids_distinct(ids: Seq<Vec<u8>>) -> bool {
    forall|a: int, b: int|
        0 <= a < ids.len() && 0 <= b < ids.len() && a != b ==> (#[trigger] ids[a])@ != (
        #[trigger] ids[b])@
}

/// Whether a token section of `tx` names the token `id`.
pub open spec fn section_names(tx: ChainTx, id: Seq<u8>) -> bool {
    exists|j: int|
        0 <= j < tx.slpv2_sections@.len() && (#[trigger] tx.slpv2_sections@[j]).token_id@ == id
}

/// Whether `tx` burns the token `id` without declaring it.
pub open spec fn burn_names(tx: ChainTx, id: Seq<u8>) -> bool {
    exists|j: int|
        0 <= j < tx.slpv2_burn_token_ids@.len() && (#[trigger] tx.slpv2_burn_token_ids@[j])@
            == id
}

/// Whether `tx` mentions the token `id`: in a section, or, where burns
/// count, among its undeclared burns.
pub open spec fn tx_mentions(tx: ChainTx, with_burns: bool, id: Seq<u8>) -> bool {
    section_names(tx, id) || (with_burns && burn_names(tx, id))
}

/// Whether one of the first `upto` transactions mentions the token `id`.
pub open spec fn mentioned_upto(
    txs: Seq<ChainTx>,
    upto: int,
    with_burns: bool,
    id: Seq<u8>,
) -> bool {
    exists|i: int| 0 <= i < upto && i < txs.len() && tx_mentions(#[trigger] txs[i], with_burns, id)
}

/// Whether one of `txs` mentions the token `id`.
pub open spec fn mentioned(txs: Seq<ChainTx>, with_burns: bool, id: Seq<u8>) -> bool {
    mentioned_upto(txs, txs.len() as int, with_burns, id)
}

/// Whether every token that `txs` mention has an id of the length of a hash.
pub open spec fn mentions_valid(txs: Seq<ChainTx>, with_burns: bool) -> bool {
    forall|id: Seq<u8>| #[trigger] mentioned(txs, with_burns, id) ==> id.len() == HASH_LEN
}

/// Adds `id` to `ids` unless it is there; refuses an id that has not the
/// length of a hash.
fn note_id(ids: &mut Vec<Vec<u8>>, id: &[u8]) -> (valid: bool)
    requires
        ids_distinct(old(ids)@),
    ensures
        valid == (id@.len() == HASH_LEN),
        !valid ==> final(ids)@ == old(ids)@,
        ids_distinct(final(ids)@),
        valid ==> forall|x: Seq<u8>|
            #[trigger] holds_bytes(final(ids)@, x) <==> holds_bytes(old(ids)@, x) || x == id@,
{
    if id.len() != HASH_LEN {
        return false;
    }
    if !holds(ids, id) {
        let ghost before = ids@;
        ids.push(copy_bytes(id));
        assert forall|x: Seq<u8>| #[trigger]
            holds_bytes(ids@, x) <==> holds_bytes(before, x) || x == id@ by {
            if holds_bytes(before, x) {
                let k = choose|k: int| 0 <= k < before.len() && (#[trigger] before[k])@ == x;
                assert(ids@[k]@ == x);
            }
            if x == id@ {
                assert(ids@[before.len() as int]@ == x);
            }
            if holds_bytes(ids@, x) {
                let k = choose|k: int| 0 <= k < ids@.len() && (#[trigger] ids@[k])@ == x;
                if k < before.len() {
                    assert(before[k]@ == x);
                }
            }
        }
        assert forall|a: int, b: int|
            0 <= a < ids@.len() && 0 <= b < ids@.len() && a != b implies (#[trigger] ids@[a])@ != (
        #[trigger] ids@[b])@ by {
            if a < before.len() && b < before.len() {
                assert(before[a]@ != before[b]@);
            } else if a < before.len() {
                assert(before[a]@ != id@);
            } else {
                assert(before[b]@ != id@);
            }
        }
    }
    true
}

/// Whether `ids` holds exactly what `before` held and what `tx` mentions
/// in its first `sections` sections and `burns` undeclared burns.
spec fn noted(
    ids: Seq<Vec<u8>>,
    before: Seq<Vec<u8>>,
    tx: ChainTx,
    sections: int,
    burns: int,
    x: Seq<u8>,
) -> bool {
    holds_bytes(ids, x) <==> holds_bytes(before, x) || (exists|j: int|
        0 <= j < sections && j < tx.slpv2_sections@.len() && (
        #[trigger] tx.slpv2_sections@[j]).token_id@ == x) || (exists|j: int|
        0 <= j < burns && j < tx.slpv2_burn_token_ids@.len() && (
        #[trigger] tx.slpv2_burn_token_ids@[j])@ == x)
}

/// Adds the tokens that `tx` mentions to `ids`.
fn note_tx(ids: &mut Vec<Vec<u8>>, tx: &ChainTx, with_burns: bool) -> (valid: bool)
    requires
        ids_distinct(old(ids)@),
    ensures
        ids_distinct(final(ids)@),
        valid == (forall|x: Seq<u8>| #[trigger]
            tx_mentions(*tx, with_burns, x) ==> x.len() == HASH_LEN),
        valid ==> forall|x: Seq<u8>|
            #[trigger] holds_bytes(final(ids)@, x) <==> holds_bytes(old(ids)@, x) || tx_mentions(
                *tx,
                with_burns,
                x,
            ),
{
    let ghost before = ids@;
    let mut j: usize = 0;
    while j < tx.slpv2_sections.len()
        invariant
            j <= tx.slpv2_sections.len(),
            ids_distinct(ids@),
            forall|x: Seq<u8>| #[trigger] noted(ids@, before, *tx, j as int, 0, x),
            forall|i: int| 0 <= i < j ==> (#[trigger] tx.slpv2_sections@[i]).token_id@.len()
                == HASH_LEN,
        decreases tx.slpv2_sections.len() - j,
    {
        let ghost earlier = ids@;
        if !note_id(ids, tx.slpv2_sections[j].token_id.as_slice()) {
            assert(tx_mentions(*tx, with_burns, tx.slpv2_sections@[j as int].token_id@));
            return false;
        }
        assert forall|x: Seq<u8>| #[trigger] noted(ids@, before, *tx, j + 1, 0, x) by {
            assert(noted(earlier, before, *tx, j as int, 0, x));
            assert(holds_bytes(ids@, x) <==> holds_bytes(earlier, x) || x
                == tx.slpv2_sections@[j as int].token_id@);
        }
        j += 1;
    }
    let sections = tx.slpv2_sections.len();
    let mut b: usize = 0;
    while with_burns && b < tx.slpv2_burn_token_ids.len()
        invariant
            b <= tx.slpv2_burn_token_ids.len(),
            !with_burns ==> b == 0,
            sections == tx.slpv2_sections@.len(),
            ids_distinct(ids@),
            forall|x: Seq<u8>| #[trigger] noted(ids@, before, *tx, sections as int, b as int, x),
            forall|i: int| 0 <= i < sections ==> (#[trigger] tx.slpv2_sections@[i]).token_id@.len()
                == HASH_LEN,
            forall|i: int| 0 <= i < b ==> (#[trigger] tx.slpv2_burn_token_ids@[i])@.len()
                == HASH_LEN,
        decreases tx.slpv2_burn_token_ids.len() - b,
    {
        let ghost earlier = ids@;
        if !note_id(ids, tx.slpv2_burn_token_ids[b].as_slice()) {
            assert(tx_mentions(*tx, with_burns, tx.slpv2_burn_token_ids@[b as int]@));
            return false;
        }
        assert forall|x: Seq<u8>| #[trigger]
            noted(ids@, before, *tx, sections as int, b + 1, x) by {
            assert(noted(earlier, before, *tx, sections as int, b as int, x));
            assert(holds_bytes(ids@, x) <==> holds_bytes(earlier, x) || x
                == tx.slpv2_burn_token_ids@[b as int]@);
        }
        b += 1;
    }
    assert forall|x: Seq<u8>| #[trigger]
        holds_bytes(ids@, x) <==> holds_bytes(before, x) || tx_mentions(*tx, with_burns, x) by {
        assert(noted(ids@, before, *tx, sections as int, b as int, x));
        if section_names(*tx, x) {
            let j = choose|j: int|
                0 <= j < tx.slpv2_sections@.len() && (#[trigger] tx.slpv2_sections@[j]).token_id@
                    == x;
            assert(0 <= j < sections && tx.slpv2_sections@[j].token_id@ == x);
        }
        if with_burns && burn_names(*tx, x) {
            let j = choose|j: int|
                0 <= j < tx.slpv2_burn_token_ids@.len() && (
                #[trigger] tx.slpv2_burn_token_ids@[j])@ == x;
            assert(0 <= j < b && tx.slpv2_burn_token_ids@[j]@ == x);
        }
    }
    assert forall|x: Seq<u8>| #[trigger] tx_mentions(*tx, with_burns, x) implies x.len()
        == HASH_LEN by {
        if section_names(*tx, x) {
            let i = choose|i: int|
                0 <= i < tx.slpv2_sections@.len() && (#[trigger] tx.slpv2_sections@[i]).token_id@
                    == x;
            assert(tx.slpv2_sections@[i].token_id@.len() == HASH_LEN);
        } else {
            let i = choose|i: int|
                0 <= i < tx.slpv2_burn_token_ids@.len() && (
                #[trigger] tx.slpv2_burn_token_ids@[i])@ == x;
            assert(tx.slpv2_burn_token_ids@[i]@.len() == HASH_LEN);
        }
    }
    true
}

/// The tokens to ask the node about before `txs` can be listed: every
/// token that a section names and, where `with_burns` is set, every token
/// burned without declaration, each once.
///
/// Fails, whatever else `txs` hold, when one of those ids has not the
/// length of a hash.
pub fn tokens_to_fetch(txs: &Vec<ChainTx>, with_burns: bool) -> (result: Result<
    Vec<Vec<u8>>,
    ApiError,
>)
    ensures
        match result {
            Ok(ids) => {
                &&& mentions_valid(txs@, with_burns)
                &&& ids_distinct(ids@)
                &&& forall|id: Seq<u8>| #[trigger]
                    holds_bytes(ids@, id) <==> mentioned(txs@, with_burns, id)
            },
            Err(error) => error == ApiError::InvalidTokenId && !mentions_valid(txs@, with_burns),
        },
{
    let mut ids: Vec<Vec<u8>> = Vec::new();
    let mut i: usize = 0;
    while i < txs.len()
        invariant
            i <= txs.len(),
            ids_distinct(ids@),
            forall|id: Seq<u8>| #[trigger]
                holds_bytes(ids@, id) <==> mentioned_upto(txs@, i as int, with_burns, id),
            forall|id: Seq<u8>| #[trigger]
                mentioned_upto(txs@, i as int, with_burns, id) ==> id.len() == HASH_LEN,
        decreases txs.len() - i,
    {
        let ghost earlier = ids@;
        if !note_tx(&mut ids, &txs[i], with_burns) {
            let ghost bad = choose|x: Seq<u8>| #[trigger]
                tx_mentions(txs@[i as int], with_burns, x) && x.len() != HASH_LEN;
            assert(mentioned(txs@, with_burns, bad));
            return Err(ApiError::InvalidTokenId);
        }
        assert forall|id: Seq<u8>| #[trigger]
            mentioned_upto(txs@, i + 1, with_burns, id) <==> mentioned_upto(
                txs@,
                i as int,
                with_burns,
                id,
            ) || tx_mentions(txs@[i as int], with_burns, id) by {
            if mentioned_upto(txs@, i + 1, with_burns, id) {
                let w = choose|w: int|
                    0 <= w < i + 1 && w < txs@.len() && tx_mentions(
                        #[trigger] txs@[w],
                        with_burns,
                        id,
                    );
                if w < i {
                    assert(tx_mentions(txs@[w], with_burns, id));
                }
            }
            if mentioned_upto(txs@, i as int, with_burns, id) {
                let w = choose|w: int|
                    0 <= w < i && w < txs@.len() && tx_mentions(
                        #[trigger] txs@[w],
                        with_burns,
                        id,
                    );
            }
        }
        assert forall|id: Seq<u8>| #[trigger]
            holds_bytes(ids@, id) <==> mentioned_upto(txs@, i + 1, with_burns, id) by {
            assert(holds_bytes(ids@, id) <==> holds_bytes(earlier, id) || tx_mentions(
                txs@[i as int],
                with_burns,
                id,
            ));
        }
        i += 1;
    }
    Ok(ids)
}

/// Whether `c` is a decimal digit.
pub open spec fn is_decimal_digit(c: char) -> bool {
    '0' <= c <= '9'
}

/// Whether `digits` holds decimal digits only.
pub open spec fn all_decimal_digits(digits: Seq<char>) -> bool {
    forall|i: int| 0 <= i < digits.len() ==> is_decimal_digit(#[trigger] digits[i])
}

/// The number that decimal digits write, the first digit counting most.
pub open spec fn decimal_value(digits: Seq<char>) -> int
    decreases digits.len(),
{
    if digits.len() == 0 {
        0
    } else {
        decimal_value(digits.drop_last()) * 10 + (digits.last() as int - '0' as int)
    }
}

/// A text without the plus sign it may start with.
pub open spec fn without_plus_sign(text: Seq<char>) -> Seq<char> {
    if text.len() > 0 && text[0] == '+' {
        text.subrange(1, text.len() as int)
    } else {
        text
    }
}

/// The number a text stands for: after an optional plus sign, one or more
/// decimal digits and nothing else, whose value fits a `usize`. Every other
/// text, the empty one and a lone sign among them, stands for no number.
pub open spec fn number_of(text: Seq<char>) -> Option<usize> {
    let digits = without_plus_sign(text);
    if digits.len() > 0 && all_decimal_digits(digits) && decimal_value(digits) <= usize::MAX {
        Some(decimal_value(digits) as usize)
    } else {
        None
    }
}

/// Digits never write a negative number, and a number is no smaller than
/// what its first digits write.
proof fn first_digits_write_no_more(digits: Seq<char>, upto: int)
    requires
        all_decimal_digits(digits),
        0 <= upto <= digits.len(),
    ensures
        0 <= decimal_value(digits.subrange(0, upto)) <= decimal_value(digits),
    decreases digits.len(),
{
    if digits.len() == 0 {
        assert(digits.subrange(0, upto) =~= digits);
    } else if upto == digits.len() {
        assert(digits.subrange(0, upto) =~= digits);
        assert(is_decimal_digit(digits[digits.len() - 1]));
        first_digits_write_no_more(digits.drop_last(), upto - 1);
    } else {
        assert(is_decimal_digit(digits[digits.len() - 1]));
        assert(digits.drop_last().subrange(0, upto) =~= digits.subrange(0, upto));
        first_digits_write_no_more(digits.drop_last(), upto);
    }
}

/// Reads a number as [`number_of`] defines it.
pub fn parse_number(text: &str) -> (number: Option<usize>)
    ensures
        number == number_of(text@),
{
    broadcast use vstd::string::is_ascii_spec_bytes;

    let ghost digits = without_plus_sign(text@);
    if !text.is_ascii() {
        proof {
            let at = choose|at: int|
                0 <= at < text@.len() && !('\0' <= #[trigger] text@[at] <= '\u{7f}');
            if digits.len() == text@.len() {
                assert(!is_decimal_digit(digits[at]));
            } else {
                assert(!is_decimal_digit(digits[at - 1]));
            }
        }
        return None;
    }
    let bytes = text.as_bytes();
    let len: usize = bytes.len();
    assert(forall|k: int| 0 <= k < len ==> bytes@[k] == #[trigger] text@[k] as u8);
    let start: usize = if len > 0 && bytes[0] == 43 {
        1
    } else {
        0
    };
    assert(digits =~= text@.subrange(start as int, len as int));
    if start == len {
        return None;
    }
    let mut value: usize = 0;
    let mut i: usize = start;
    while i < len
        invariant
            start <= i <= len,
            len == text@.len(),
            len == bytes@.len(),
            digits == without_plus_sign(text@),
            digits == text@.subrange(start as int, len as int),
            forall|k: int| 0 <= k < len ==> bytes@[k] == #[trigger] text@[k] as u8,
            forall|k: int| 0 <= k < len ==> '\0' <= #[trigger] text@[k] <= '\u{7f}',
            all_decimal_digits(digits.subrange(0, i - start)),
            value == decimal_value(digits.subrange(0, i - start)),
        decreases len - i,
    {
        let byte: u8 = bytes[i];
        let ghost read = digits.subrange(0, i - start);
        let ghost more = digits.subrange(0, i + 1 - start);
        assert(more.drop_last() =~= read);
        assert(more.last() == text@[i as int]);
        assert(digits[i - start] == text@[i as int]);
        assert(byte == text@[i as int] as u8);
        assert('0' as u8 == 48 && '9' as u8 == 57);
        if byte < 48 || byte > 57 {
            assert(!is_decimal_digit(digits[i - start]));
            return None;
        }
        proof {
            assert(is_decimal_digit(text@[i as int]));
            assert(decimal_value(more) == value * 10 + (byte - 48));
            assert forall|k: int| 0 <= k < more.len() implies is_decimal_digit(
                #[trigger] more[k],
            ) by {
                if k < read.len() {
                    assert(more[k] == read[k]);
                }
            }
            if all_decimal_digits(digits) {
                first_digits_write_no_more(digits, i + 1 - start);
            }
        }
        let digit: usize = (byte - 48) as usize;
        let tens = match value.checked_mul(10) {
            Some(tens) => tens,
            None => {
                return None;
            },
        };
        value = match tens.checked_add(digit) {
            Some(sum) => sum,
            None => {
                return None;
            },
        };
        i += 1;
    }
    assert(digits.subrange(0, len - start) =~= digits);
    Some(value)
}

/// The page of a history to show when none is asked for.
pub const DEFAULT_PAGE: usize = 0;

/// The number of transactions on a page when none is asked for.
pub const DEFAULT_TAKE: usize = 200;

/// Why a request for a page of a history was refused.
#[derive(Clone, Copy, Debug, PartialEq, Eq, Structural)]
pub enum PageError {
    /// The page is not a number.
    InvalidPage,
    /// The page size is not a number.
    InvalidTake,
}

/// What a parameter of a request amounts to: the default where it is
/// absent, the number it stands for where it stands for one.
pub open spec fn parameter(given: Option<&str>, default: usize) -> Option<usize> {
    match given {
        Some(text) => number_of(text@),
        None => Some(default),
    }
}

/// Decides which page of a history to fetch from the parameters of a
/// request, given the numbers that the parameters were parsed to.
pub fn page_of(page: Option<usize>, take: Option<usize>) -> (result: Result<
    (usize, usize),
    PageError,
>)
    ensures
        result == (match (page, take) {
            (None, _) => Err::<(usize, usize), PageError>(PageError::InvalidPage),
            (Some(_), None) => Err::<(usize, usize), PageError>(PageError::InvalidTake),
            (Some(page), Some(take)) => Ok::<(usize, usize), PageError>((page, take)),
        }),
{
    match page {
        None => Err(PageError::InvalidPage),
        Some(page) => match take {
            None => Err(PageError::InvalidTake),
            Some(take) => Ok((page, take)),
        },
    }
}

/// Which page of a history a request asks for: page [`DEFAULT_PAGE`] of
/// [`DEFAULT_TAKE`] transactions unless the request says otherwise. A
/// parameter that is not a number refuses the request, the page before the
/// page size.
pub fn page_request(page: Option<&str>, take: Option<&str>) -> (result: Result<
    (usize, usize),
    PageError,
>)
    ensures
        result == (match (parameter(page, DEFAULT_PAGE), parameter(take, DEFAULT_TAKE)) {
            (None, _) => Err::<(usize, usize), PageError>(PageError::InvalidPage),
            (Some(_), None) => Err::<(usize, usize), PageError>(PageError::InvalidTake),
            (Some(page), Some(take)) => Ok::<(usize, usize), PageError>((page, take)),
        }),
{
    let page = match page {
        Some(text) => parse_number(text),
        None => Some(DEFAULT_PAGE),
    };
    if page.is_none() {
        return Err(PageError::InvalidPage);
    }
    let take = match take {
        Some(text) => parse_number(text),
        None => Some(DEFAULT_TAKE),
    };
    page_of(page, take)
}

} // verus!
