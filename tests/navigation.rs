use lazy_etherscan::app::address::SelectableContractDetailItem;
use lazy_etherscan::app::block::SelectableBlockDetailItem;
use lazy_etherscan::app::event_handling::{event_handling, visible_rows, Event, KeyCode, KeyEvent};
use lazy_etherscan::app::transaction::{
    SelectableInputDataDetailItem, SelectableTransactionDetailItem,
};
use lazy_etherscan::app::{App, InputMode};
use lazy_etherscan::network::IoEvent;
use lazy_etherscan::route::{ActiveBlock, Route, RouteId};
use lazy_etherscan::types::{
    Address, AddressInfo, Block, BlockWithTransactionReceipts, Transaction, TransactionReceipt,
    TransactionWithReceipt, H256, U256,
};

fn addr(b: u8) -> Address {
    Address { bytes: [b; 20] }
}

fn tx(h: u8, to: Option<u8>) -> Transaction {
    Transaction {
        hash: H256 { bytes: [h; 32] },
        block_number: None,
        from: addr(1),
        to: to.map(addr),
        value: U256::from_u64(0),
        gas: U256::from_u64(0),
        gas_price: None,
        max_fee_per_gas: None,
        max_priority_fee_per_gas: None,
        input: vec![],
    }
}

fn tx_with_receipt(h: u8, to: Option<u8>) -> TransactionWithReceipt {
    TransactionWithReceipt {
        transaction: tx(h, to),
        transaction_receipt: TransactionReceipt {
            transaction_hash: H256 { bytes: [h; 32] },
            gas_used: None,
            effective_gas_price: None,
            status: None,
        },
        decoded_input_data: None,
    }
}

fn plain_block(author: bool, withdrawals: bool, txs: Vec<Transaction>) -> Block {
    Block {
        hash: None,
        parent_hash: H256 { bytes: [3; 32] },
        number: Some(1),
        author: if author { Some(addr(9)) } else { None },
        timestamp: U256::from_u64(0),
        gas_used: U256::from_u64(0),
        gas_limit: U256::from_u64(0),
        base_fee_per_gas: None,
        transactions: txs,
        withdrawals: if withdrawals { Some(vec![]) } else { None },
    }
}

fn key(c: char) -> Event {
    Event::Key(KeyEvent { code: KeyCode::Char(c), ctrl: false, is_press: true })
}

fn ctrl(c: char) -> Event {
    Event::Key(KeyEvent { code: KeyCode::Char(c), ctrl: true, is_press: true })
}

#[test]
fn push_then_pop_restores_previous_top() {
    let mut app = App::new();
    app.set_route(Route::new(RouteId::Block(None), ActiveBlock::Main));
    app.set_route(Route::new(RouteId::Transaction(None), ActiveBlock::Main));
    app.pop_current_route();
    assert_eq!(app.routes.len(), 2);
    assert!(matches!(app.get_current_route().get_id(), RouteId::Block(None)));
}

#[test]
fn pop_on_root_is_a_no_op() {
    let mut app = App::new();
    app.pop_current_route();
    assert_eq!(app.routes.len(), 1);
    let r = app.get_current_route();
    assert!(matches!(r.get_id(), RouteId::Welcome));
    assert_eq!(r.get_active_block(), ActiveBlock::SearchBar);
}

#[test]
fn change_active_block_keeps_view_and_depth() {
    let mut app = App::new();
    app.set_route(Route::new(
        RouteId::Searching("abc".to_string()),
        ActiveBlock::SearchBar,
    ));
    app.change_active_block(ActiveBlock::LatestBlocks);
    assert_eq!(app.routes.len(), 2);
    let r = app.get_current_route();
    assert_eq!(r.get_active_block(), ActiveBlock::LatestBlocks);
    match r.get_id() {
        RouteId::Searching(q) => assert_eq!(q, "abc"),
        _ => panic!("expected the search view"),
    }
}

#[test]
fn default_route_is_welcome_on_search_bar() {
    let r = Route::default();
    assert!(matches!(r.get_id(), RouteId::Welcome));
    assert_eq!(r.get_active_block(), ActiveBlock::SearchBar);
}

#[test]
fn q_quits_outside_editing() {
    let mut app = App::new();
    assert!(event_handling(key('q'), &mut app, 40));
    app.change_active_block(ActiveBlock::LatestBlocks);
    assert!(event_handling(key('q'), &mut app, 40));
}

#[test]
fn q_while_editing_is_typed() {
    let mut app = App::new();
    assert!(!event_handling(key('i'), &mut app, 40));
    assert_eq!(app.input_mode, InputMode::Editing);
    assert!(!event_handling(key('q'), &mut app, 40));
    assert_eq!(app.input, vec!['q']);
    assert_eq!(app.cursor_position, 1);
}

#[test]
fn digit_keys_focus_the_lists() {
    let mut app = App::new();
    event_handling(key('1'), &mut app, 40);
    assert_eq!(app.get_current_route().get_active_block(), ActiveBlock::LatestBlocks);
    event_handling(key('2'), &mut app, 40);
    assert_eq!(
        app.get_current_route().get_active_block(),
        ActiveBlock::LatestTransactions
    );
    event_handling(key('s'), &mut app, 40);
    assert_eq!(app.get_current_route().get_active_block(), ActiveBlock::SearchBar);
    assert_eq!(app.routes.len(), 1);
}

#[test]
fn ctrl_p_goes_back() {
    let mut app = App::new();
    app.set_route(Route::new(RouteId::Block(None), ActiveBlock::Main));
    event_handling(ctrl('p'), &mut app, 40);
    assert_eq!(app.routes.len(), 1);
    event_handling(key('p'), &mut app, 40);
    assert_eq!(app.routes.len(), 1);
}

#[test]
fn reload_blocks_clears_and_dispatches() {
    let mut app = App::new();
    app.change_active_block(ActiveBlock::LatestBlocks);
    event_handling(key('r'), &mut app, 40);
    assert!(app.latest_blocks.is_none());
    assert!(app.is_loading);
    let queued = app.take_pending();
    assert_eq!(queued.len(), 2);
    assert!(matches!(queued[0], IoEvent::GetStatistics));
    assert!(matches!(queued[1], IoEvent::GetLatestBlocks { n: 10 }));
}

#[test]
fn reload_transactions_dispatches_one_fetch() {
    let mut app = App::new();
    app.change_active_block(ActiveBlock::LatestTransactions);
    event_handling(key('r'), &mut app, 20);
    let queued = app.take_pending();
    assert_eq!(queued.len(), 1);
    assert!(matches!(queued[0], IoEvent::GetLatestTransactions { n: 0 }));
}

#[test]
fn visible_rows_follow_height() {
    assert_eq!(visible_rows(40), 10);
    assert_eq!(visible_rows(21), 0);
    assert_eq!(visible_rows(5), 0);
}

#[test]
fn j_on_latest_transactions_selects_and_shows() {
    let mut app = App::new();
    app.commit_latest_transactions(Some(vec![tx_with_receipt(1, None), tx_with_receipt(2, None)]));
    app.change_active_block(ActiveBlock::LatestTransactions);
    event_handling(key('j'), &mut app, 40);
    assert_eq!(app.latest_transactions.as_ref().unwrap().selected, Some(2));
    assert_eq!(app.routes.len(), 2);
    match app.get_current_route().get_id() {
        RouteId::Transaction(Some(t)) => assert_eq!(t.transaction.hash.bytes[0], 1),
        _ => panic!("expected the transaction view"),
    }
    event_handling(key('k'), &mut app, 40);
    assert_eq!(app.latest_transactions.as_ref().unwrap().selected, Some(3));
}

#[test]
fn j_on_empty_list_does_nothing() {
    let mut app = App::new();
    app.commit_latest_blocks(Some(vec![]));
    app.change_active_block(ActiveBlock::LatestBlocks);
    event_handling(key('j'), &mut app, 40);
    assert_eq!(app.latest_blocks.as_ref().unwrap().selected, None);
    assert_eq!(app.routes.len(), 1);
}

#[test]
fn enter_on_latest_block_opens_it() {
    let mut app = App::new();
    app.commit_latest_blocks(Some(vec![BlockWithTransactionReceipts {
        block: plain_block(false, false, vec![]),
        transaction_receipts: None,
    }]));
    app.change_active_block(ActiveBlock::LatestBlocks);
    event_handling(key('j'), &mut app, 40);
    event_handling(Event::Key(KeyEvent { code: KeyCode::Enter, ctrl: false, is_press: true }), &mut app, 40);
    let r = app.get_current_route();
    assert_eq!(r.get_active_block(), ActiveBlock::Main);
    assert!(matches!(r.get_id(), RouteId::Block(Some(_))));
}

#[test]
fn table_cursor_wraps_over_block_transactions() {
    let mut app = App::new();
    let bw = BlockWithTransactionReceipts {
        block: plain_block(false, false, vec![tx(1, None), tx(2, None), tx(3, None)]),
        transaction_receipts: None,
    };
    app.set_route(Route::new(RouteId::TransactionsOfBlock(Some(bw)), ActiveBlock::Main));
    event_handling(key('k'), &mut app, 40);
    assert_eq!(app.transactions_table_state, Some(0));
    event_handling(key('k'), &mut app, 40);
    assert_eq!(app.transactions_table_state, Some(2));
    event_handling(key('j'), &mut app, 40);
    assert_eq!(app.transactions_table_state, Some(0));
    event_handling(Event::Key(KeyEvent { code: KeyCode::Enter, ctrl: false, is_press: true }), &mut app, 40);
    let queued = app.take_pending();
    match &queued[..] {
        [IoEvent::GetTransactionWithReceipt { transaction_hash }] => {
            assert_eq!(transaction_hash.bytes[0], 1)
        }
        _ => panic!("expected one transaction fetch"),
    }
}

#[test]
fn enter_on_parent_hash_fetches_parent() {
    let mut app = App::new();
    let bw = BlockWithTransactionReceipts {
        block: plain_block(true, false, vec![]),
        transaction_receipts: None,
    };
    app.set_route(Route::new(RouteId::Block(Some(bw)), ActiveBlock::Main));
    app.block_detail_list_state = Some(SelectableBlockDetailItem::ParentHash.index());
    event_handling(Event::Key(KeyEvent { code: KeyCode::Enter, ctrl: false, is_press: true }), &mut app, 40);
    let queued = app.take_pending();
    match &queued[..] {
        [IoEvent::GetBlockByHash { hash }] => assert_eq!(hash.bytes, [3; 32]),
        _ => panic!("expected one block fetch"),
    }
}

#[test]
fn paste_appends_while_editing() {
    let mut app = App::new();
    app.input_mode = InputMode::Editing;
    event_handling(Event::Paste("0xab".to_string()), &mut app, 40);
    assert_eq!(app.input, vec!['0', 'x', 'a', 'b']);
    assert_eq!(app.cursor_position, 4);
    app.input_mode = InputMode::Normal;
    event_handling(Event::Paste("cd".to_string()), &mut app, 40);
    assert_eq!(app.input.len(), 4);
}

#[test]
fn block_rows_skip_missing_data() {
    let full = plain_block(true, true, vec![]);
    let bare = plain_block(false, false, vec![]);
    assert_eq!(SelectableBlockDetailItem::Transactions.next(&full), SelectableBlockDetailItem::Withdrawls);
    assert_eq!(SelectableBlockDetailItem::Transactions.next(&bare), SelectableBlockDetailItem::FeeRecipient);
    assert_eq!(SelectableBlockDetailItem::Withdrawls.next(&bare), SelectableBlockDetailItem::FeeRecipient);
    assert_eq!(SelectableBlockDetailItem::FeeRecipient.next(&full), SelectableBlockDetailItem::ParentHash);
    assert_eq!(SelectableBlockDetailItem::FeeRecipient.next(&bare), SelectableBlockDetailItem::Transactions);
    assert_eq!(SelectableBlockDetailItem::ParentHash.next(&bare), SelectableBlockDetailItem::Transactions);
    assert_eq!(SelectableBlockDetailItem::Transactions.previous(&full), SelectableBlockDetailItem::ParentHash);
    assert_eq!(SelectableBlockDetailItem::Transactions.previous(&bare), SelectableBlockDetailItem::FeeRecipient);
    assert_eq!(SelectableBlockDetailItem::FeeRecipient.previous(&full), SelectableBlockDetailItem::Withdrawls);
    assert_eq!(SelectableBlockDetailItem::FeeRecipient.previous(&bare), SelectableBlockDetailItem::Transactions);
    assert_eq!(SelectableBlockDetailItem::Withdrawls.previous(&bare), SelectableBlockDetailItem::Transactions);
    assert_eq!(SelectableBlockDetailItem::ParentHash.previous(&bare), SelectableBlockDetailItem::FeeRecipient);
    for i in 0..4 {
        assert_eq!(SelectableBlockDetailItem::from_index(i).index(), i);
    }
}

#[test]
fn transaction_rows_skip_missing_recipient() {
    let to = tx_with_receipt(1, Some(2));
    let creation = tx_with_receipt(1, None);
    assert_eq!(SelectableTransactionDetailItem::From.next(&to), SelectableTransactionDetailItem::To);
    assert_eq!(SelectableTransactionDetailItem::From.next(&creation), SelectableTransactionDetailItem::From);
    assert_eq!(SelectableTransactionDetailItem::To.next(&to), SelectableTransactionDetailItem::InputData);
    assert_eq!(SelectableTransactionDetailItem::InputData.next(&to), SelectableTransactionDetailItem::From);
    assert_eq!(SelectableTransactionDetailItem::From.previous(&to), SelectableTransactionDetailItem::InputData);
    assert_eq!(SelectableTransactionDetailItem::To.previous(&to), SelectableTransactionDetailItem::From);
    assert_eq!(SelectableTransactionDetailItem::InputData.previous(&to), SelectableTransactionDetailItem::To);
    assert_eq!(SelectableTransactionDetailItem::InputData.previous(&creation), SelectableTransactionDetailItem::From);
    for i in 0..3 {
        assert_eq!(SelectableTransactionDetailItem::from_index(i).index(), i);
    }
}

#[test]
fn input_data_rows_alternate() {
    assert_eq!(SelectableInputDataDetailItem::InputData.next(), SelectableInputDataDetailItem::DecodedInputData);
    assert_eq!(SelectableInputDataDetailItem::DecodedInputData.next(), SelectableInputDataDetailItem::InputData);
    assert_eq!(SelectableInputDataDetailItem::InputData.previous(), SelectableInputDataDetailItem::DecodedInputData);
    assert_eq!(SelectableInputDataDetailItem::DecodedInputData.previous(), SelectableInputDataDetailItem::InputData);
    assert_eq!(SelectableInputDataDetailItem::from_index(1).index(), 1);
}

#[test]
fn contract_rows_switch_only_to_present_data() {
    let mut info = AddressInfo {
        address: addr(1),
        ens_id: None,
        avatar_url: None,
        contract_abi: Some("[]".to_string()),
        contract_source_code: None,
        balance: U256::from_u64(0),
    };
    assert_eq!(SelectableContractDetailItem::ContractSourceCode.next(&info), SelectableContractDetailItem::ContractAbi);
    assert_eq!(SelectableContractDetailItem::ContractAbi.next(&info), SelectableContractDetailItem::ContractAbi);
    info.contract_source_code = Some("{}".to_string());
    assert_eq!(SelectableContractDetailItem::ContractAbi.previous(&info), SelectableContractDetailItem::ContractSourceCode);
    info.contract_abi = None;
    assert_eq!(SelectableContractDetailItem::ContractSourceCode.previous(&info), SelectableContractDetailItem::ContractSourceCode);
    assert_eq!(SelectableContractDetailItem::default(), SelectableContractDetailItem::ContractSourceCode);
    assert_eq!(SelectableContractDetailItem::from_index(1).index(), 1);
}
