use explorer_server::balances::{address_balances, balance_for, distinct_token_ids, BalanceError};
use explorer_server::chain::{ScriptUtxo, TokenAmount};
use explorer_server::server::Server;

fn create_cash_utxo(seed: u8, value: i64) -> ScriptUtxo {
    ScriptUtxo {
        txid: vec![seed; 24],
        out_idx: 0,
        block_height: 700_000 + seed as i32,
        is_coinbase: false,
        value,
        slpv2: None,
    }
}

fn create_token_utxo(seed: u8, value: i64, token: u8, amount: i64) -> ScriptUtxo {
    ScriptUtxo {
        txid: vec![seed; 24],
        out_idx: 0,
        block_height: 700_000 + seed as i32,
        is_coinbase: false,
        value,
        slpv2: Some(TokenAmount { token_id: vec![token; 32], amount, is_mint_baton: false }),
    }
}

#[test]
fn data_address_main_balance_exists() {
    let utxo = create_cash_utxo(1, 123);
    let balances = address_balances(&vec![create_cash_utxo(1, 123)]).expect("valid");
    assert!(balances.tokens.is_empty());
    let main = &balances.main;
    assert_eq!(main.token_id, None);
    assert_eq!(main.sats_amount, utxo.value);
    assert_eq!(main.token_amount, 0);
    assert_eq!(main.utxos.len(), 1);
    assert_eq!(main.utxos[0].tx_hash, utxo.txid);
    assert_eq!(main.utxos[0].out_idx, utxo.out_idx);
    assert_eq!(main.utxos[0].sats_amount, utxo.value);
    assert_eq!(main.utxos[0].token_amount, 0);
    assert_eq!(main.utxos[0].is_coinbase, utxo.is_coinbase);
    assert_eq!(main.utxos[0].block_height, utxo.block_height);
}

#[test]
fn data_address_sats_amount() {
    let utxos: Vec<ScriptUtxo> = vec![create_cash_utxo(1, 100), create_cash_utxo(2, 100)];
    let balances = address_balances(&utxos).expect("valid");
    assert_eq!(balances.main.sats_amount, 200);
}

#[test]
fn data_address_token_balance_exists() {
    let utxos = vec![create_token_utxo(1, 123, 9, 10)];
    let balances = address_balances(&utxos).expect("valid");
    // the balance without a token and the token's balance
    assert_eq!(1 + balances.tokens.len(), 2);
    assert_eq!(balances.tokens[0].token_id, Some(vec![9; 32]));
    assert_eq!(balances.tokens[0].utxos.len(), 1);
}

#[test]
fn data_address_token_amount() {
    let utxo = create_token_utxo(1, 123, 9, 100);
    let balances = address_balances(&vec![create_token_utxo(1, 123, 9, 100)]).expect("valid");
    assert_eq!(balances.main.token_id, None);
    assert_eq!(balances.main.sats_amount, 0);
    assert_eq!(balances.main.token_amount, 0);
    assert!(balances.main.utxos.is_empty());
    assert_eq!(balances.tokens.len(), 1);
    let token = &balances.tokens[0];
    assert_eq!(token.token_id, Some(vec![9; 32]));
    assert_eq!(token.sats_amount, utxo.value);
    assert_eq!(token.token_amount, 100);
    assert_eq!(token.utxos.len(), 1);
    assert_eq!(token.utxos[0].tx_hash, utxo.txid);
    assert_eq!(token.utxos[0].out_idx, 0);
    assert_eq!(token.utxos[0].sats_amount, utxo.value);
    assert_eq!(token.utxos[0].token_amount, 100);
    assert_eq!(token.utxos[0].is_coinbase, utxo.is_coinbase);
    assert_eq!(token.utxos[0].block_height, utxo.block_height);
}

#[test]
fn outputs_are_grouped_by_token_in_order_of_first_occurrence() {
    let utxos = vec![
        create_token_utxo(1, 546, 7, 5),
        create_cash_utxo(2, 1000),
        create_token_utxo(3, 546, 3, 40),
        create_token_utxo(4, 600, 7, 6),
        create_cash_utxo(5, 2000),
    ];
    let balances = address_balances(&utxos).expect("valid");
    assert_eq!(balances.total_xec, 3000);
    assert_eq!(balances.token_dust, 1692);
    assert_eq!(balances.token_utxos, vec![0, 2, 3]);
    assert_eq!(balances.main.sats_amount, 3000);
    assert_eq!(balances.main.utxos.len(), 2);
    assert_eq!(balances.main.utxos[0].tx_hash, vec![2; 24]);
    assert_eq!(balances.main.utxos[1].tx_hash, vec![5; 24]);
    assert_eq!(balances.tokens.len(), 2);
    assert_eq!(balances.tokens[0].token_id, Some(vec![7; 32]));
    assert_eq!(balances.tokens[0].sats_amount, 1146);
    assert_eq!(balances.tokens[0].token_amount, 11);
    assert_eq!(balances.tokens[0].utxos.len(), 2);
    assert_eq!(balances.tokens[0].utxos[0].tx_hash, vec![1; 24]);
    assert_eq!(balances.tokens[0].utxos[1].tx_hash, vec![4; 24]);
    assert_eq!(balances.tokens[0].utxos[1].token_amount, 6);
    assert_eq!(balances.tokens[1].token_id, Some(vec![3; 32]));
    assert_eq!(balances.tokens[1].token_amount, 40);
}

#[test]
fn address_without_outputs_has_an_empty_main_balance() {
    let balances = address_balances(&vec![]).expect("valid");
    assert_eq!(balances.total_xec, 0);
    assert_eq!(balances.token_dust, 0);
    assert!(balances.token_utxos.is_empty());
    assert!(balances.tokens.is_empty());
    assert!(balances.main.utxos.is_empty());
    assert_eq!(balances.main.sats_amount, 0);
}

#[test]
fn token_id_of_the_wrong_length_is_refused() {
    let mut bad = create_token_utxo(2, 546, 7, 5);
    bad.slpv2.as_mut().expect("token").token_id.pop();
    let utxos = vec![create_cash_utxo(1, 5), bad];
    assert_eq!(address_balances(&utxos).err(), Some(BalanceError::InvalidTokenId));
    assert_eq!(distinct_token_ids(&utxos).err(), Some(BalanceError::InvalidTokenId));
}

#[test]
fn mint_baton_and_negative_amounts_are_shown_as_they_are() {
    let mut baton = create_token_utxo(1, 546, 7, -1);
    baton.slpv2.as_mut().expect("token").is_mint_baton = true;
    let balance = balance_for(&vec![baton], Some(&[7; 32]));
    assert_eq!(balance.token_amount, -1);
    assert!(balance.utxos[0].is_mint_baton);
    assert_eq!(balance.utxos[0].token_amount, u64::MAX);
}

#[test]
fn address_page_carries_the_balances() {
    let utxos = vec![create_cash_utxo(1, 100), create_token_utxo(2, 546, 7, 5)];
    let page = Server::setup().address(&utxos, 42).expect("valid");
    assert_eq!(page.address_num_txs, 42);
    assert_eq!(page.total_xec, 100);
    assert_eq!(page.token_dust, 546);
    assert_eq!(page.token_utxos, vec![1]);
    assert_eq!(page.main_balance.utxos.len(), 1);
    assert_eq!(page.token_balances.len(), 1);
    assert_eq!(page.token_balances[0].token_amount, 5);
}
