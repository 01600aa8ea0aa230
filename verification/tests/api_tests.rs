use explorer_server::api::{
    block_txs_to_json, calc_section_stats, calc_tx_stats, describe_token, tokens_to_json,
    tx_history_to_json, ApiError,
};
use explorer_server::chain::{
    copy_bytes, same_bytes, BlockRef, ChainTx, Coin, GenesisData, SectionType, TokenAmount,
    TokenInfo, TokenSection, TokenType,
};
use explorer_server::server_primitives::{JsonSlpv2SectionStats, JsonTxStats};

fn coin(script: &[u8], value: i64) -> Coin {
    Coin { output_script: script.to_vec(), value, slpv2: None }
}

fn token_coin(script: &[u8], value: i64, token: u8, amount: i64) -> Coin {
    Coin {
        output_script: script.to_vec(),
        value,
        slpv2: Some(TokenAmount { token_id: vec![token; 32], amount, is_mint_baton: false }),
    }
}

fn section(token: u8) -> TokenSection {
    TokenSection {
        token_id: vec![token; 32],
        token_type: TokenType::Standard,
        token_type_number: 0,
        section_type: SectionType::Send,
        intentional_burn_amount: 0,
    }
}

fn tx(inputs: Vec<Coin>, outputs: Vec<Coin>, sections: Vec<TokenSection>) -> ChainTx {
    ChainTx {
        txid: vec![0xab; 32],
        inputs,
        outputs,
        slpv2_sections: sections,
        slpv2_burn_token_ids: vec![],
        slpv2_errors: 0,
        block: None,
        time_first_seen: 1_700_000_000,
        is_coinbase: false,
        size: 226,
    }
}

fn token(id: u8, ticker: &str) -> TokenInfo {
    TokenInfo {
        token_id: vec![id; 32],
        token_type: 1,
        genesis_data: Some(GenesisData {
            token_ticker: ticker.as_bytes().to_vec(),
            token_name: format!("{} coin", ticker).into_bytes(),
            url: b"https://example.org".to_vec(),
            decimals: 2,
        }),
    }
}

#[test]
fn bytes_compare_and_copy() {
    assert!(same_bytes(&[1, 2, 3], &[1, 2, 3]));
    assert!(!same_bytes(&[1, 2, 3], &[1, 2, 4]));
    assert!(!same_bytes(&[1, 2, 3], &[1, 2]));
    assert!(same_bytes(&[], &[]));
    assert_eq!(copy_bytes(&[9, 8, 7]), vec![9, 8, 7]);
    assert_eq!(copy_bytes(&[]), Vec::<u8>::new());
}

#[test]
fn tx_stats_sum_inputs_and_outputs() {
    let tx = tx(
        vec![coin(b"a", 1000), coin(b"b", 500)],
        vec![coin(b"a", 300), coin(b"c", 1100)],
        vec![],
    );
    assert_eq!(
        calc_tx_stats(&tx, None),
        JsonTxStats { sats_input: 1500, sats_output: 1400, delta_sats: -100 }
    );
    assert_eq!(
        calc_tx_stats(&tx, Some(b"a")),
        JsonTxStats { sats_input: 1500, sats_output: 1400, delta_sats: -700 }
    );
    assert_eq!(
        calc_tx_stats(&tx, Some(b"c")),
        JsonTxStats { sats_input: 1500, sats_output: 1400, delta_sats: 1100 }
    );
    assert_eq!(
        calc_tx_stats(&tx, Some(b"nobody")),
        JsonTxStats { sats_input: 1500, sats_output: 1400, delta_sats: 0 }
    );
}

#[test]
fn tx_stats_of_an_empty_transaction_are_zero() {
    let tx = tx(vec![], vec![], vec![]);
    assert_eq!(
        calc_tx_stats(&tx, None),
        JsonTxStats { sats_input: 0, sats_output: 0, delta_sats: 0 }
    );
}

#[test]
fn tx_stats_wrap_where_a_sum_does_not_fit() {
    let tx = tx(vec![coin(b"a", i64::MAX), coin(b"a", 1)], vec![coin(b"a", i64::MIN)], vec![]);
    let stats = calc_tx_stats(&tx, None);
    assert_eq!(stats.sats_input, i64::MIN);
    assert_eq!(stats.sats_output, i64::MIN);
    assert_eq!(stats.delta_sats, 0);
}

#[test]
fn section_stats_count_only_the_sections_token() {
    let tx = tx(
        vec![token_coin(b"a", 546, 1, 100), token_coin(b"a", 546, 2, 7), coin(b"a", 10_000)],
        vec![token_coin(b"b", 546, 1, 60), token_coin(b"a", 546, 1, 30), token_coin(b"b", 546, 2, 7)],
        vec![section(1), section(2)],
    );
    assert_eq!(
        calc_section_stats(&tx, &tx.slpv2_sections[0], None),
        JsonSlpv2SectionStats {
            delta_tokens: -10,
            token_input: 100,
            token_output: 90,
            does_burn_tokens: false,
        }
    );
    assert_eq!(
        calc_section_stats(&tx, &tx.slpv2_sections[0], Some(b"a")),
        JsonSlpv2SectionStats {
            delta_tokens: -70,
            token_input: 100,
            token_output: 90,
            does_burn_tokens: false,
        }
    );
    assert_eq!(
        calc_section_stats(&tx, &tx.slpv2_sections[1], Some(b"b")),
        JsonSlpv2SectionStats {
            delta_tokens: 7,
            token_input: 7,
            token_output: 7,
            does_burn_tokens: false,
        }
    );
}

#[test]
fn section_burns_when_declared_or_when_the_transaction_burns() {
    let mut burning = section(1);
    burning.intentional_burn_amount = 5;
    let plain = tx(vec![], vec![], vec![]);
    assert!(calc_section_stats(&plain, &burning, None).does_burn_tokens);
    assert!(!calc_section_stats(&plain, &section(1), None).does_burn_tokens);
    let mut sloppy = tx(vec![], vec![], vec![]);
    sloppy.slpv2_burn_token_ids = vec![vec![3; 32]];
    assert!(calc_section_stats(&sloppy, &section(1), None).does_burn_tokens);
}

#[test]
fn token_description_turns_bytes_into_text() {
    let info = describe_token(&[5; 32], 1, b"XEC", b"eCash", b"e.cash", 8);
    assert_eq!(info.token_id, vec![5; 32]);
    assert_eq!(info.token_type, 1);
    assert_eq!(info.token_ticker, "XEC");
    assert_eq!(info.token_name, "eCash");
    assert_eq!(info.token_url, "e.cash");
    assert_eq!(info.decimals, 8);
    let broken = describe_token(&[5; 32], -1, &[0x41, 0xff, 0x42], b"", b"", 0);
    assert_eq!(broken.token_ticker, "A\u{fffd}B");
    assert_eq!(broken.token_type, u32::MAX);
    assert_eq!(broken.token_name, "");
}

#[test]
fn token_description_of_no_bytes_is_the_empty_text() {
    let info = describe_token(&[5; 32], 0, &[], &[], &[], 0);
    assert_eq!(info.token_ticker, "");
    assert_eq!(info.token_name, "");
    assert_eq!(info.token_url, "");
    let info = describe_token(&[5; 32], 0, "ĉapelo €".as_bytes(), b"", b"x", 0);
    assert_eq!(info.token_ticker, "ĉapelo €");
    assert_eq!(info.token_url, "x");
}

#[test]
fn tokens_without_genesis_are_left_out() {
    let tokens = vec![
        token(1, "ONE"),
        TokenInfo { token_id: vec![2; 32], token_type: 0, genesis_data: None },
        token(3, "THREE"),
    ];
    let json = tokens_to_json(&tokens);
    assert_eq!(json.len(), 2);
    assert_eq!(json[0].token_id, vec![1; 32]);
    assert_eq!(json[0].token_ticker, "ONE");
    assert_eq!(json[0].token_name, "ONE coin");
    assert_eq!(json[0].token_url, "https://example.org");
    assert_eq!(json[0].decimals, 2);
    assert_eq!(json[0].token_type, 1);
    assert_eq!(json[1].token_id, vec![3; 32]);
    assert_eq!(json[1].token_ticker, "THREE");
    assert!(tokens_to_json(&vec![]).is_empty());
}

#[test]
fn history_shows_only_sections_of_described_tokens() {
    let mut confirmed = tx(
        vec![token_coin(b"me", 546, 1, 10)],
        vec![token_coin(b"you", 546, 1, 10)],
        vec![section(1), section(9)],
    );
    confirmed.block = Some(BlockRef { height: 700_000, timestamp: 1_650_000_000 });
    let pending = tx(vec![coin(b"you", 5000)], vec![coin(b"me", 4000)], vec![]);
    let json_tokens = tokens_to_json(&vec![token(1, "ONE")]);
    let history = tx_history_to_json(b"me", &vec![confirmed, pending], &json_tokens).expect("valid");
    assert_eq!(history.len(), 2);

    assert_eq!(history[0].tx_hash, vec![0xab; 32]);
    assert_eq!(history[0].block_height, Some(700_000));
    assert_eq!(history[0].timestamp, 1_650_000_000);
    assert_eq!(history[0].size, 226);
    assert_eq!(history[0].num_inputs, 1);
    assert_eq!(history[0].num_outputs, 1);
    assert_eq!(
        history[0].stats,
        JsonTxStats { sats_input: 546, sats_output: 546, delta_sats: -546 }
    );
    assert_eq!(history[0].slpv2_sections.len(), 1);
    assert_eq!(history[0].slpv2_sections[0].token_info.token_ticker, "ONE");
    assert_eq!(history[0].slpv2_sections[0].token_info.token_id, vec![1; 32]);
    assert_eq!(
        history[0].slpv2_sections[0].stats,
        JsonSlpv2SectionStats {
            delta_tokens: -10,
            token_input: 10,
            token_output: 10,
            does_burn_tokens: false,
        }
    );

    assert_eq!(history[1].block_height, None);
    assert_eq!(history[1].timestamp, 1_700_000_000);
    assert_eq!(
        history[1].stats,
        JsonTxStats { sats_input: 5000, sats_output: 4000, delta_sats: 4000 }
    );
    assert!(history[1].slpv2_sections.is_empty());
}

#[test]
fn history_refuses_a_token_id_of_the_wrong_length() {
    let mut bad = section(1);
    bad.token_id = vec![1; 31];
    let txs = vec![tx(vec![], vec![], vec![]), tx(vec![], vec![], vec![section(2), bad])];
    assert_eq!(tx_history_to_json(b"me", &txs, &vec![]).err(), Some(ApiError::InvalidTokenId));
}

#[test]
fn block_list_shows_every_section() {
    let known = tx(
        vec![token_coin(b"a", 546, 1, 10)],
        vec![token_coin(b"b", 546, 1, 4)],
        vec![section(1), section(2), section(3)],
    );
    let tokens = vec![
        token(1, "ONE"),
        TokenInfo { token_id: vec![2; 32], token_type: 0, genesis_data: None },
    ];
    let block = Some(BlockRef { height: 12, timestamp: 34 });
    let list = block_txs_to_json(block, &vec![known], &tokens).expect("valid");
    assert_eq!(list.len(), 1);
    assert_eq!(list[0].block_height, Some(12));
    assert_eq!(list[0].timestamp, 34);
    assert_eq!(list[0].stats, JsonTxStats { sats_input: 546, sats_output: 546, delta_sats: 0 });
    let sections = &list[0].slpv2_sections;
    assert_eq!(sections.len(), 3);
    assert_eq!(sections[0].token_info.token_ticker, "ONE");
    assert_eq!(sections[0].token_info.decimals, 2);
    assert_eq!(sections[0].token_info.token_type, 0);
    assert_eq!(
        sections[0].stats,
        JsonSlpv2SectionStats {
            delta_tokens: -6,
            token_input: 10,
            token_output: 4,
            does_burn_tokens: false,
        }
    );
    for unknown in &sections[1..] {
        assert_eq!(unknown.token_info.token_ticker, "");
        assert_eq!(unknown.token_info.token_name, "");
        assert_eq!(unknown.token_info.token_url, "");
        assert_eq!(unknown.token_info.decimals, 0);
    }
    assert_eq!(sections[1].token_info.token_id, vec![2; 32]);
    assert_eq!(sections[2].token_info.token_id, vec![3; 32]);
}

#[test]
fn block_list_without_block_info_has_no_height_and_time_zero() {
    let list = block_txs_to_json(None, &vec![tx(vec![], vec![], vec![])], &vec![]).expect("valid");
    assert_eq!(list[0].block_height, None);
    assert_eq!(list[0].timestamp, 0);
}

#[test]
fn block_list_refuses_a_token_id_of_the_wrong_length() {
    let mut bad = section(1);
    bad.token_id = vec![];
    let txs = vec![tx(vec![], vec![], vec![bad])];
    assert_eq!(block_txs_to_json(None, &txs, &vec![]).err(), Some(ApiError::InvalidTokenId));
}
