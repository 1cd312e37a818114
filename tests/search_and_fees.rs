use lazy_etherscan::app::App;
use lazy_etherscan::fee::{calculate_transaction_fee, FeeError};
use lazy_etherscan::network::{IoEvent, NameOrAddress};
use lazy_etherscan::types::{
    Address, ERC20Token, Transaction, TransactionReceipt, H256, U256,
};

fn type_text(app: &mut App, s: &str) {
    for c in s.chars() {
        app.enter_char(c);
    }
}

fn fee_tx(
    gas_price: Option<U256>,
    max_fee: Option<U256>,
    max_priority: Option<U256>,
) -> Transaction {
    Transaction {
        hash: H256 { bytes: [0; 32] },
        block_number: None,
        from: Address { bytes: [0; 20] },
        to: None,
        value: U256::from_u64(0),
        gas: U256::from_u64(0),
        gas_price,
        max_fee_per_gas: max_fee,
        max_priority_fee_per_gas: max_priority,
        input: vec![],
    }
}

fn used(gas: Option<U256>) -> TransactionReceipt {
    TransactionReceipt {
        transaction_hash: H256 { bytes: [0; 32] },
        gas_used: gas,
        effective_gas_price: None,
        status: None,
    }
}

#[test]
fn decimal_search_fetches_block() {
    let mut app = App::new();
    type_text(&mut app, "17000000");
    app.submit_message();
    let queued = app.take_pending();
    assert!(matches!(queued[..], [IoEvent::GetBlock { number: 17000000 }]));
    assert!(app.input.is_empty());
    assert_eq!(app.cursor_position, 0);
    assert!(app.is_loading);
}

#[test]
fn hash_search_fetches_transaction() {
    let mut app = App::new();
    let text = format!("0x{}", "ab".repeat(31) + "0f");
    type_text(&mut app, &text);
    app.submit_message();
    let queued = app.take_pending();
    match &queued[..] {
        [IoEvent::GetTransactionWithReceipt { transaction_hash }] => {
            assert_eq!(transaction_hash.bytes[0], 0xab);
            assert_eq!(transaction_hash.bytes[31], 0x0f);
        }
        _ => panic!("expected one transaction fetch"),
    }
}

#[test]
fn address_search_looks_up_account() {
    let mut app = App::new();
    type_text(&mut app, "d8dA6BF26964aF9D7eEd9e03E53415D37aA96045");
    app.submit_message();
    let queued = app.take_pending();
    match &queued[..] {
        [IoEvent::GetNameOrAddressInfo {
            name_or_address: NameOrAddress::Address(a),
            is_searching: true,
        }] => {
            assert_eq!(a.bytes[0], 0xd8);
            assert_eq!(a.bytes[19], 0x45);
        }
        _ => panic!("expected one account lookup"),
    }
}

#[test]
fn unreadable_search_dispatches_nothing() {
    let mut app = App::new();
    type_text(&mut app, "vitalik?");
    app.submit_message();
    assert!(app.take_pending().is_empty());
    assert!(!app.is_loading);
    assert!(app.input.is_empty());
}

#[test]
fn overflowing_number_is_not_a_block() {
    let mut app = App::new();
    type_text(&mut app, "18446744073709551616");
    app.submit_message();
    assert!(app.take_pending().is_empty());
}

#[test]
fn editing_moves_cursor_and_deletes_before_it() {
    let mut app = App::new();
    type_text(&mut app, "abc");
    app.move_cursor_left();
    app.enter_char('x');
    assert_eq!(app.input, vec!['a', 'b', 'x', 'c']);
    assert_eq!(app.cursor_position, 3);
    app.delete_char();
    assert_eq!(app.input, vec!['a', 'b', 'c']);
    assert_eq!(app.cursor_position, 2);
    app.move_cursor_right();
    app.move_cursor_right();
    assert_eq!(app.cursor_position, 3);
    app.reset_cursor();
    app.delete_char();
    assert_eq!(app.input.len(), 3);
    app.move_cursor_left();
    assert_eq!(app.cursor_position, 0);
    assert_eq!(app.clamp_cursor(10), 3);
}

#[test]
fn paste_moves_cursor_by_pasted_length() {
    let mut app = App::new();
    type_text(&mut app, "ab");
    app.move_cursor_left();
    app.paste("\u{e9}f".to_string());
    assert_eq!(app.input, vec!['a', 'b', '\u{e9}', 'f']);
    assert_eq!(app.cursor_position, 3);
}

#[test]
fn legacy_fee_is_gas_price_times_gas_used() {
    let t = fee_tx(Some(U256::from_u64(2_000_000_000)), None, None);
    let r = used(Some(U256::from_u64(21_000)));
    assert_eq!(
        calculate_transaction_fee(&t, &r, None),
        Ok("0.000042000000000000".to_string())
    );
}

#[test]
fn dynamic_fee_uses_lesser_of_cap_and_tip() {
    let t = fee_tx(
        None,
        Some(U256::from_u64(30_000_000_000)),
        Some(U256::from_u64(1_500_000_000)),
    );
    let r = used(Some(U256::from_u64(1_000_000_000)));
    assert_eq!(
        calculate_transaction_fee(&t, &r, None),
        Ok("1.500000000000000000".to_string())
    );
}

#[test]
fn fee_errors_name_what_is_missing() {
    let r = used(Some(U256::from_u64(1)));
    let no_cap = fee_tx(None, None, Some(U256::from_u64(1)));
    assert_eq!(
        calculate_transaction_fee(&no_cap, &r, None),
        Err(FeeError::MissingMaxFeePerGas)
    );
    let no_tip = fee_tx(None, Some(U256::from_u64(1)), None);
    assert_eq!(
        calculate_transaction_fee(&no_tip, &r, None),
        Err(FeeError::MissingMaxPriorityFeePerGas)
    );
    let legacy = fee_tx(Some(U256::from_u64(1)), None, None);
    assert_eq!(
        calculate_transaction_fee(&legacy, &used(None), None),
        Err(FeeError::LightClient)
    );
}

#[test]
fn fee_overflow_is_reported() {
    let big = U256 { limbs: [0, 0, 0, 1 << 40] };
    let t = fee_tx(Some(big), None, None);
    let r = used(Some(big));
    assert_eq!(calculate_transaction_fee(&t, &r, None), Err(FeeError::Overflow));
}

#[test]
fn zero_fee_prints_zero_ether() {
    let t = fee_tx(Some(U256::from_u64(0)), None, None);
    let r = used(Some(U256::from_u64(21_000)));
    assert_eq!(
        calculate_transaction_fee(&t, &r, None),
        Ok("0.000000000000000000".to_string())
    );
}

#[test]
fn tokens_are_found_by_address_and_ticker() {
    let tokens = vec![
        ERC20Token {
            name: "Tether".to_string(),
            ticker: "USDT".to_string(),
            contract_address: Address { bytes: [1; 20] },
        },
        ERC20Token {
            name: "USD Coin".to_string(),
            ticker: "USDC".to_string(),
            contract_address: Address { bytes: [2; 20] },
        },
    ];
    let t = ERC20Token::find_by_address(&tokens, Address { bytes: [2; 20] }).unwrap();
    assert_eq!(t.ticker, "USDC");
    assert!(ERC20Token::find_by_address(&tokens, Address { bytes: [3; 20] }).is_none());
    let t = ERC20Token::find_by_ticker(&tokens, "USDT").unwrap();
    assert_eq!(t.name, "Tether");
    assert!(ERC20Token::find_by_ticker(&tokens, "DAI").is_none());
}

#[test]
fn token_address_is_read_from_hex_text() {
    let t = ERC20Token::new(
        "Tether".to_string(),
        "USDT".to_string(),
        "0xdAC17F958D2ee523a2206206994597C13D831ec7",
    )
    .unwrap();
    assert_eq!(t.contract_address.bytes[0], 0xda);
    assert_eq!(t.contract_address.bytes[19], 0xc7);
    assert!(ERC20Token::new("x".to_string(), "X".to_string(), "0x12").is_none());
}
