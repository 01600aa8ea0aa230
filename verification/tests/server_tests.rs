use explorer_server::api::ApiError;
use explorer_server::chain::{
    BlockInfo, BlockRef, ChainTx, GenesisData, SectionType, TokenInfo, TokenSection, TokenType,
};
use explorer_server::server::{
    confirmations, more_pages, page_of, page_request, parse_number, qr_response, section_type_name,
    shown_timestamp, tokens_to_fetch, transaction_section, transaction_title, PageError, QrError,
    SearchHit, Server, TxPageError,
};
use explorer_server::templating::{BlockTemplate, BlocksTemplate, TemplateSlpv2TokenSection};

fn section_of(token: u8, token_type: TokenType, section_type: SectionType) -> TokenSection {
    TokenSection {
        token_id: vec![token; 32],
        token_type,
        token_type_number: 0,
        section_type,
        intentional_burn_amount: 0,
    }
}

fn tx_with(sections: Vec<TokenSection>, burns: Vec<Vec<u8>>) -> ChainTx {
    ChainTx {
        txid: vec![1; 32],
        inputs: vec![],
        outputs: vec![],
        slpv2_sections: sections,
        slpv2_burn_token_ids: burns,
        slpv2_errors: 0,
        block: None,
        time_first_seen: 99,
        is_coinbase: false,
        size: 0,
    }
}

fn known_token(id: u8, ticker: &str) -> TokenInfo {
    TokenInfo {
        token_id: vec![id; 32],
        token_type: 0,
        genesis_data: Some(GenesisData {
            token_ticker: ticker.as_bytes().to_vec(),
            token_name: ticker.as_bytes().to_vec(),
            url: vec![],
            decimals: 0,
        }),
    }
}

fn shown(ticker: &str) -> TemplateSlpv2TokenSection {
    let tx = tx_with(vec![section_of(1, TokenType::Standard, SectionType::Send)], vec![]);
    transaction_section(&tx, &tx.slpv2_sections[0], &known_token(1, ticker)).expect("genesis known")
}

#[test]
fn server_is_set_up_for_ecash() {
    let server = Server::setup();
    assert_eq!(server.satoshi_addr_prefix(), "ecash");
    assert_eq!(server.tokens_addr_prefix(), "etoken");
    let _ = server.homepage();
}

#[test]
fn blocks_page_shows_the_tip() {
    let server = Server::setup();
    assert_eq!(server.blocks(812_345), BlocksTemplate { last_block_height: 812_345 });
    assert_eq!(server.blocks(0).last_block_height, 0);
    assert_eq!(server.blocks(-1).last_block_height, u32::MAX);
    assert_eq!(BlocksTemplate::for_tip(7).last_block_height, 7);
}

#[test]
fn address_qr_is_a_png_image() {
    let address = "ecash:qp3wjpa3tjlj042z2wv7hahsldgwhwy0rquas9fmzn";
    let png = Server::setup().address_qr(address).expect("short enough");
    assert_eq!(&png[..8], &[0x89, b'P', b'N', b'G', 0x0d, 0x0a, 0x1a, 0x0a]);
    assert_ne!(png, address.as_bytes().to_vec());
    // width and height of the image, from the header chunk
    assert_eq!(&png[16..20], &160u32.to_be_bytes());
    assert_eq!(&png[20..24], &160u32.to_be_bytes());
    let again = Server::setup().address_qr(address).expect("short enough");
    assert_eq!(png, again);
}

#[test]
fn address_qr_refuses_more_than_sixty_bytes() {
    let server = Server::setup();
    let sixty = "a".repeat(60);
    let sixty_one = "a".repeat(61);
    assert!(server.address_qr(&sixty).is_ok());
    assert_eq!(server.address_qr(&sixty_one), Err(QrError::InvalidAddressLength));
    // the limit counts bytes, not characters
    let umlauts = "ä".repeat(31);
    assert_eq!(server.address_qr(&umlauts), Err(QrError::InvalidAddressLength));
}

#[test]
fn encoder_failure_becomes_an_encoding_error() {
    assert_eq!(qr_response(Ok(vec![1, 2, 3])), Ok(vec![1, 2, 3]));
    assert_eq!(
        qr_response(Err(qrcode_generator::QRCodeError::DataTooLong)),
        Err(QrError::Encoding)
    );
}

#[test]
fn redirects_point_to_the_pages() {
    let server = Server::setup();
    assert_eq!(server.redirect("/404".to_string()), "/404");
    assert_eq!(server.block_height(Some("00ab")), "/block/00ab");
    assert_eq!(server.block_height(None), "/404");
    assert_eq!(server.search_address("ecash:qq"), "/address/ecash:qq");
    assert_eq!(server.search("ff00", SearchHit::Transaction), "/tx/ff00");
    assert_eq!(server.search("ff00", SearchHit::Block), "/block/ff00");
    assert_eq!(server.search("ff00", SearchHit::Nothing), "/404");
}

#[test]
fn confirmations_count_the_tip_itself() {
    assert_eq!(confirmations(100, Some(BlockRef { height: 100, timestamp: 0 })), 1);
    assert_eq!(confirmations(100, Some(BlockRef { height: 91, timestamp: 0 })), 10);
    assert_eq!(confirmations(100, None), 0);
    assert_eq!(confirmations(i32::MAX, Some(BlockRef { height: 0, timestamp: 0 })), i32::MIN);
}

#[test]
fn block_page_counts_confirmations() {
    let info = BlockInfo {
        hash: vec![0; 32],
        height: 500,
        timestamp: 1_600_000_000,
        n_bits: 0x1d00ffff,
        block_size: 1000,
        num_txs: 3,
    };
    assert_eq!(
        Server::setup().block(&info, 509),
        BlockTemplate { height: 500, confirmations: 10, timestamp: 1_600_000_000 }
    );
}

#[test]
fn unconfirmed_transaction_shows_when_it_was_first_seen() {
    let mut tx = tx_with(vec![], vec![]);
    assert_eq!(shown_timestamp(&tx), 99);
    tx.block = Some(BlockRef { height: 5, timestamp: 1234 });
    assert_eq!(shown_timestamp(&tx), 1234);
}

#[test]
fn section_names_follow_type_and_kind() {
    assert_eq!(section_type_name(TokenType::Standard, SectionType::Genesis), "GENESIS");
    assert_eq!(section_type_name(TokenType::Standard, SectionType::Send), "SEND");
    assert_eq!(section_type_name(TokenType::Standard, SectionType::Mint), "MINT");
    assert_eq!(section_type_name(TokenType::Standard, SectionType::Other), "Unknown");
    assert_eq!(section_type_name(TokenType::Other, SectionType::Send), "Unknown");
}

#[test]
fn title_joins_tickers_with_commas_and_an_ampersand() {
    assert_eq!(transaction_title(&vec![], false), ("eCash Transaction".to_string(), false));
    assert_eq!(transaction_title(&vec![], true), ("Invalid eToken Transaction".to_string(), true));
    assert_eq!(transaction_title(&vec![shown("AAA")], false), ("AAA Transaction".to_string(), true));
    assert_eq!(
        transaction_title(&vec![shown("AAA"), shown("BBB")], false),
        ("AAA & BBB Transaction".to_string(), true)
    );
    assert_eq!(
        transaction_title(&vec![shown("AAA"), shown("BBB"), shown("CCC")], true),
        ("AAA, BBB & CCC Transaction".to_string(), true)
    );
    assert_eq!(
        transaction_title(&vec![shown("A"), shown("B"), shown("C"), shown("D")], false),
        ("A, B, C & D Transaction".to_string(), true)
    );
}

#[test]
fn transaction_section_needs_the_genesis() {
    let tx = tx_with(vec![section_of(1, TokenType::Standard, SectionType::Genesis)], vec![]);
    let shown = transaction_section(&tx, &tx.slpv2_sections[0], &known_token(1, "TKN")).expect("known");
    assert_eq!(shown.section_type, "GENESIS");
    assert_eq!(shown.data.token_info.token_ticker, "TKN");
    assert_eq!(shown.data.token_info.token_id, vec![1; 32]);
    assert_eq!(shown.data.stats.token_input, 0);
    let unknown = TokenInfo { token_id: vec![1; 32], token_type: 0, genesis_data: None };
    assert_eq!(
        transaction_section(&tx, &tx.slpv2_sections[0], &unknown).err(),
        Some(TxPageError::MissingGenesisData)
    );
}

#[test]
fn transaction_page_is_put_together() {
    let mut tx = tx_with(vec![], vec![]);
    tx.block = Some(BlockRef { height: 10, timestamp: 777 });
    let page = Server::setup().tx(&tx, vec![shown("AAA"), shown("BBB")], 12);
    assert_eq!(page.title, "AAA & BBB Transaction");
    assert!(page.is_token);
    assert_eq!(page.slpv2_sections.len(), 2);
    assert_eq!(page.confirmations, 3);
    assert_eq!(page.timestamp, 777);
    assert_eq!(page.sats_input, 0);
    assert_eq!(page.sats_output, 0);

    let mut broken = tx_with(vec![], vec![]);
    broken.slpv2_errors = 2;
    let page = Server::setup().tx(&broken, vec![], 12);
    assert_eq!(page.title, "Invalid eToken Transaction");
    assert!(page.is_token);
    assert_eq!(page.confirmations, 0);
    assert_eq!(page.timestamp, 99);
}

#[test]
fn blocks_are_listed_highest_first() {
    let blocks: Vec<BlockInfo> = (5..8)
        .map(|height| BlockInfo {
            hash: vec![height as u8; 32],
            height,
            timestamp: 1000 + height as i64,
            n_bits: 1,
            block_size: 10 * height as u64,
            num_txs: height as u64,
        })
        .collect();
    let response = Server::setup().data_blocks(&blocks);
    let heights: Vec<i32> = response.data.iter().map(|block| block.height).collect();
    assert_eq!(heights, vec![7, 6, 5]);
    assert_eq!(response.data[0].hash, vec![7; 32]);
    assert_eq!(response.data[0].timestamp, 1007);
    assert_eq!(response.data[0].size, 70);
    assert_eq!(response.data[0].num_txs, 7);
    assert_eq!(response.data[0].n_bits, 1);
    assert!(Server::setup().data_blocks(&vec![]).data.is_empty());
}

#[test]
fn pages_are_fetched_until_the_count_is_reached() {
    assert!(more_pages(1, 3));
    assert!(more_pages(2, 3));
    assert!(!more_pages(3, 3));
    assert!(!more_pages(1, 1));
    assert!(more_pages(1, 0));
}

#[test]
fn each_mentioned_token_is_fetched_once() {
    let txs = vec![
        tx_with(
            vec![
                section_of(1, TokenType::Standard, SectionType::Send),
                section_of(2, TokenType::Standard, SectionType::Send),
            ],
            vec![vec![9; 32]],
        ),
        tx_with(vec![section_of(2, TokenType::Standard, SectionType::Mint)], vec![vec![1; 32]]),
        tx_with(vec![], vec![]),
    ];
    let mut with_burns = tokens_to_fetch(&txs, true).expect("valid");
    with_burns.sort();
    assert_eq!(with_burns, vec![vec![1; 32], vec![2; 32], vec![9; 32]]);
    let mut sections_only = tokens_to_fetch(&txs, false).expect("valid");
    sections_only.sort();
    assert_eq!(sections_only, vec![vec![1; 32], vec![2; 32]]);
    assert!(tokens_to_fetch(&vec![], true).expect("valid").is_empty());
}

#[test]
fn token_to_fetch_must_have_the_length_of_a_hash() {
    let bad_burn = vec![tx_with(vec![], vec![vec![9; 5]])];
    assert_eq!(tokens_to_fetch(&bad_burn, true).err(), Some(ApiError::InvalidTokenId));
    assert!(tokens_to_fetch(&bad_burn, false).expect("burns do not count").is_empty());
    let mut short = section_of(1, TokenType::Standard, SectionType::Send);
    short.token_id = vec![1; 33];
    let bad_section = vec![tx_with(vec![short], vec![])];
    assert_eq!(tokens_to_fetch(&bad_section, false).err(), Some(ApiError::InvalidTokenId));
}

#[test]
fn page_request_defaults_to_the_first_two_hundred() {
    assert_eq!(page_request(None, None), Ok((0, 200)));
    assert_eq!(page_request(Some("3"), None), Ok((3, 200)));
    assert_eq!(page_request(None, Some("25")), Ok((0, 25)));
    assert_eq!(page_request(Some("12"), Some("50")), Ok((12, 50)));
}

#[test]
fn numbers_are_read_as_the_standard_library_reads_them() {
    let largest = usize::MAX.to_string();
    let too_large = format!("{}0", usize::MAX);
    let one_more = "18446744073709551616";
    let samples = [
        "0", "7", "42", "+42", "007", "+0", "200", "4294967296", "", "+", "-", "-0", "-1", "++1",
        "+-1", "1+", "12a", "a12", " 12", "12 ", "1 2", "1_000", "1.5", "0x10", "１２", "१२",
        "12\u{0}", "\u{7f}", "é", largest.as_str(), too_large.as_str(), one_more,
        "00000000000000000000000000000000000000000000012",
        "99999999999999999999999999999999999999999999999",
    ];
    for text in samples {
        assert_eq!(parse_number(text), text.parse::<usize>().ok(), "{:?}", text);
    }
    assert_eq!(parse_number("+42"), Some(42));
    assert_eq!(parse_number("0012"), Some(12));
    assert_eq!(parse_number(&largest), Some(usize::MAX));
    assert_eq!(parse_number(&too_large), None);
}

#[test]
fn page_request_refuses_what_is_not_a_number() {
    assert_eq!(page_request(Some("x"), Some("50")), Err(PageError::InvalidPage));
    assert_eq!(page_request(Some("-1"), None), Err(PageError::InvalidPage));
    assert_eq!(page_request(Some(""), None), Err(PageError::InvalidPage));
    assert_eq!(page_request(Some("1"), Some("many")), Err(PageError::InvalidTake));
    assert_eq!(page_request(Some("x"), Some("y")), Err(PageError::InvalidPage));
    assert_eq!(page_of(None, Some(1)), Err(PageError::InvalidPage));
    assert_eq!(page_of(Some(1), None), Err(PageError::InvalidTake));
    assert_eq!(page_of(Some(1), Some(2)), Ok((1, 2)));
}
