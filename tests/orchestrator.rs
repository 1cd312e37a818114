use lazy_etherscan::app::statistics::Statistics;
use lazy_etherscan::app::App;
use lazy_etherscan::network::{
    latest_block_numbers, pair_with_receipts, transaction_addresses, Fetched, IoEvent,
    NameOrAddress,
};
use lazy_etherscan::route::{ActiveBlock, Route, RouteId};
use lazy_etherscan::types::{
    Address, AddressInfo, Block, BlockWithTransactionReceipts, Transaction, TransactionReceipt,
    TransactionWithReceipt, H256, U256,
};

fn addr(b: u8) -> Address {
    Address { bytes: [b; 20] }
}

fn tx(h: u8, from: u8, to: Option<u8>) -> Transaction {
    Transaction {
        hash: H256 { bytes: [h; 32] },
        block_number: None,
        from: addr(from),
        to: to.map(addr),
        value: U256::from_u64(0),
        gas: U256::from_u64(21000),
        gas_price: None,
        max_fee_per_gas: None,
        max_priority_fee_per_gas: None,
        input: vec![],
    }
}

fn receipt(h: u8) -> TransactionReceipt {
    TransactionReceipt {
        transaction_hash: H256 { bytes: [h; 32] },
        gas_used: None,
        effective_gas_price: None,
        status: Some(1),
    }
}

fn block(number: u64, txs: Vec<Transaction>) -> BlockWithTransactionReceipts {
    BlockWithTransactionReceipts {
        block: Block {
            hash: None,
            parent_hash: H256 { bytes: [0; 32] },
            number: Some(number),
            author: None,
            timestamp: U256::from_u64(0),
            gas_used: U256::from_u64(0),
            gas_limit: U256::from_u64(0),
            base_fee_per_gas: None,
            transactions: txs,
            withdrawals: None,
        },
        transaction_receipts: None,
    }
}

fn tx_with_receipt(h: u8, from: u8, to: Option<u8>) -> TransactionWithReceipt {
    TransactionWithReceipt {
        transaction: tx(h, from, to),
        transaction_receipt: receipt(h),
        decoded_input_data: None,
    }
}

fn info(b: u8) -> AddressInfo {
    AddressInfo {
        address: addr(b),
        ens_id: None,
        avatar_url: None,
        contract_abi: None,
        contract_source_code: None,
        balance: U256::from_u64(5),
    }
}

fn top(app: &App) -> &Route {
    app.routes.last().unwrap()
}

#[test]
fn latest_five_blocks_are_listed_newest_first() {
    let numbers = latest_block_numbers(1000, 5);
    assert_eq!(numbers, vec![1000, 999, 998, 997, 996]);
    let mut app = App::new();
    app.dispatch(IoEvent::GetLatestBlocks { n: 5 });
    let blocks: Vec<_> = numbers.iter().map(|&n| block(n, vec![])).collect();
    app.commit_latest_blocks(Some(blocks));
    let list = app.latest_blocks.as_ref().unwrap();
    let listed: Vec<u64> = list.items.iter().map(|b| b.block.number.unwrap()).collect();
    assert_eq!(listed, vec![1000, 999, 998, 997, 996]);
    assert_eq!(list.selected, None);
    assert!(!app.is_loading);
}

#[test]
fn latest_block_numbers_stop_at_genesis() {
    assert_eq!(latest_block_numbers(2, 5), vec![2, 1, 0]);
    assert_eq!(latest_block_numbers(7, 0), Vec::<u64>::new());
}

#[test]
fn failed_latest_blocks_fetch_keeps_list() {
    let mut app = App::new();
    app.commit_latest_blocks(Some(vec![block(1, vec![])]));
    app.is_loading = true;
    app.commit_latest_blocks(None);
    assert_eq!(app.latest_blocks.as_ref().unwrap().items.len(), 1);
    assert!(!app.is_loading);
}

#[test]
fn initial_setup_failing_statistics_commits_nothing() {
    let mut app = App::new();
    app.dispatch(IoEvent::InitialSetup { n: 3 });
    let blocks = vec![block(10, vec![]), block(9, vec![])];
    let txs = vec![tx_with_receipt(1, 1, Some(2))];
    let addresses = app.commit_initial_setup(None, Some(blocks), Some(txs));
    assert!(app.latest_blocks.is_none());
    assert!(app.latest_transactions.is_none());
    assert!(app.statistics.ethusd.is_none());
    assert!(addresses.is_empty());
    assert!(!app.is_loading);
}

#[test]
fn initial_setup_all_succeeding_commits_all() {
    let mut app = App::new();
    app.dispatch(IoEvent::InitialSetup { n: 3 });
    let mut stats = Statistics::new();
    stats.ethusd = Some("2000.5".to_string());
    stats.node_count = Some(7);
    let blocks = vec![block(10, vec![]), block(9, vec![])];
    let txs = vec![tx_with_receipt(1, 1, Some(2)), tx_with_receipt(2, 3, None)];
    let addresses = app.commit_initial_setup(Some(stats), Some(blocks), Some(txs));
    assert_eq!(app.latest_blocks.as_ref().unwrap().items.len(), 2);
    assert_eq!(app.latest_transactions.as_ref().unwrap().items.len(), 2);
    assert_eq!(app.statistics.node_count, Some(7));
    assert_eq!(addresses, vec![addr(1), addr(2), addr(3)]);
    assert!(app.is_loading);
    app.finish_command();
    assert!(!app.is_loading);
}

#[test]
fn initial_setup_failing_blocks_commits_nothing() {
    let mut app = App::new();
    let txs = vec![tx_with_receipt(1, 1, Some(2))];
    app.commit_initial_setup(Some(Statistics::new()), None, Some(txs));
    assert!(app.latest_transactions.is_none());
    assert!(app.latest_blocks.is_none());
}

#[test]
fn address_lookup_from_search_replaces_search_frame() {
    let mut app = App::new();
    app.set_route(Route::new(
        RouteId::Searching("0xab".to_string()),
        ActiveBlock::SearchBar,
    ));
    app.commit_address_info(true, Some(info(4)));
    assert_eq!(app.routes.len(), 2);
    match &top(&app).id {
        RouteId::AddressInfo(Some(i)) => assert_eq!(i.address, addr(4)),
        _ => panic!("expected the account view"),
    }
    assert_eq!(top(&app).active_block, ActiveBlock::Main);
}

#[test]
fn address_lookup_from_a_list_pushes_a_frame() {
    let mut app = App::new();
    app.set_route(Route::new(RouteId::Block(None), ActiveBlock::Main));
    app.commit_address_info(false, None);
    assert_eq!(app.routes.len(), 3);
    assert!(matches!(top(&app).id, RouteId::AddressInfo(None)));
}

#[test]
fn block_fetch_replaces_top_frame_and_returns_addresses() {
    let mut app = App::new();
    app.set_route(Route::new(RouteId::Block(None), ActiveBlock::Main));
    let b = block(42, vec![tx(1, 1, Some(2)), tx(2, 3, None)]);
    let addresses = app.commit_block(Some(Some(b)));
    assert_eq!(app.routes.len(), 2);
    match &top(&app).id {
        RouteId::Block(Some(bw)) => assert_eq!(bw.block.number, Some(42)),
        _ => panic!("expected the block view"),
    }
    assert_eq!(addresses, vec![addr(1), addr(2), addr(3)]);
}

#[test]
fn failed_block_fetch_changes_nothing() {
    let mut app = App::new();
    let addresses = app.commit_block(None);
    assert_eq!(app.routes.len(), 1);
    assert!(matches!(top(&app).id, RouteId::Welcome));
    assert!(addresses.is_empty());
}

#[test]
fn missing_block_shows_not_found() {
    let mut app = App::new();
    let addresses = app.commit_block(Some(None));
    assert!(matches!(top(&app).id, RouteId::Block(None)));
    assert!(addresses.is_empty());
}

#[test]
fn transaction_fetch_pushes_transaction_view() {
    let mut app = App::new();
    app.is_loading = true;
    app.commit_transaction_with_receipt(Some(Some(tx_with_receipt(9, 1, None))));
    assert_eq!(app.routes.len(), 2);
    assert!(matches!(top(&app).id, RouteId::Transaction(Some(_))));
    assert!(!app.is_loading);
    app.commit_transaction_with_receipt(None);
    assert_eq!(app.routes.len(), 2);
}

#[test]
fn receipts_are_added_to_shown_block() {
    let mut app = App::new();
    app.set_route(Route::new(
        RouteId::TransactionsOfBlock(Some(block(5, vec![]))),
        ActiveBlock::Main,
    ));
    app.commit_transaction_receipts(vec![receipt(1)]);
    app.commit_transaction_receipts(vec![receipt(2), receipt(3)]);
    match &top(&app).id {
        RouteId::TransactionsOfBlock(Some(bw)) => {
            let hashes: Vec<u8> = bw
                .transaction_receipts
                .as_ref()
                .unwrap()
                .iter()
                .map(|r| r.transaction_hash.bytes[0])
                .collect();
            assert_eq!(hashes, vec![1, 2, 3]);
        }
        _ => panic!("expected the block's transactions"),
    }
}

#[test]
fn receipts_for_other_views_are_dropped() {
    let mut app = App::new();
    app.commit_transaction_receipts(vec![receipt(1)]);
    assert!(matches!(top(&app).id, RouteId::Welcome));
    assert_eq!(app.routes.len(), 1);
}

#[test]
fn decoded_input_fills_shown_transaction() {
    let mut app = App::new();
    app.set_route(Route::new(
        RouteId::InputDataOfTransaction(Some(tx_with_receipt(1, 1, Some(2)))),
        ActiveBlock::Main,
    ));
    app.commit_decoded_input_data(Some(Some("transfer(address,uint256)".to_string())));
    match &top(&app).id {
        RouteId::InputDataOfTransaction(Some(t)) => assert_eq!(
            t.decoded_input_data.as_deref(),
            Some("transfer(address,uint256)")
        ),
        _ => panic!("expected the input data view"),
    }
    assert_eq!(top(&app).active_block, ActiveBlock::Main);
}

#[test]
fn decoded_input_for_other_view_changes_nothing() {
    let mut app = App::new();
    app.is_loading = true;
    app.commit_decoded_input_data(Some(Some("x".to_string())));
    assert!(matches!(top(&app).id, RouteId::Welcome));
    assert!(!app.is_loading);
}

#[test]
fn statistics_refresh_commits_or_keeps() {
    let mut app = App::new();
    let mut stats = Statistics::new();
    stats.node_count = Some(3);
    app.is_loading = true;
    app.commit_statistics(Some(stats));
    assert_eq!(app.statistics.node_count, Some(3));
    assert!(!app.is_loading);
    app.commit_statistics(None);
    assert_eq!(app.statistics.node_count, Some(3));
}

#[test]
fn latest_transactions_commit_returns_addresses() {
    let mut app = App::new();
    let addresses = app.commit_latest_transactions(Some(vec![
        tx_with_receipt(1, 4, Some(5)),
        tx_with_receipt(2, 6, None),
    ]));
    assert_eq!(addresses, vec![addr(4), addr(5), addr(6)]);
    let list = app.latest_transactions.as_ref().unwrap();
    assert_eq!(list.items.len(), 2);
    assert_eq!(list.selected, None);
    assert!(app.commit_latest_transactions(None).is_empty());
}

#[test]
fn transaction_addresses_list_senders_then_recipients() {
    let txs = vec![tx(1, 1, None), tx(2, 2, Some(3))];
    assert_eq!(transaction_addresses(&txs), vec![addr(1), addr(2), addr(3)]);
}

#[test]
fn dispatch_queues_and_marks_loading() {
    let mut app = App::new();
    app.dispatch(IoEvent::GetStatistics);
    app.dispatch(IoEvent::LookupAddresses { addresses: vec![addr(1)] });
    assert!(app.is_loading);
    let queued = app.take_pending();
    assert_eq!(queued.len(), 2);
    assert!(matches!(queued[0], IoEvent::GetStatistics));
    assert!(matches!(queued[1], IoEvent::LookupAddresses { .. }));
    assert!(app.pending.is_empty());
    let _ = NameOrAddress::Name("x.eth".to_string());
}

#[test]
fn decoding_never_rewrites_the_root_frame() {
    let mut app = App::new();
    app.routes[0] = Route::new(RouteId::Transaction(Some(tx_with_receipt(1, 1, None))), ActiveBlock::Main);
    app.is_loading = true;
    app.commit_decoded_input_data(Some(Some("x".to_string())));
    match &app.routes[0].id {
        RouteId::Transaction(Some(t)) => assert!(t.decoded_input_data.is_none()),
        _ => panic!("expected the root frame unchanged"),
    }
    assert!(!app.is_loading);
}

#[test]
fn receipts_never_rewrite_the_root_frame() {
    let mut app = App::new();
    app.routes[0] = Route::new(RouteId::Block(Some(block(1, vec![]))), ActiveBlock::Main);
    app.commit_transaction_receipts(vec![receipt(1)]);
    match &app.routes[0].id {
        RouteId::Block(Some(bw)) => assert!(bw.transaction_receipts.is_none()),
        _ => panic!("expected the root frame unchanged"),
    }
}

#[test]
fn current_route_copies_the_top_frame() {
    let mut app = App::new();
    app.set_route(Route::new(RouteId::Block(Some(block(8, vec![tx(1, 2, Some(3))]))), ActiveBlock::Main));
    match app.get_current_route().get_id() {
        RouteId::Block(Some(bw)) => {
            assert_eq!(bw.block.number, Some(8));
            assert_eq!(bw.block.transactions.len(), 1);
            assert_eq!(bw.block.transactions[0].to, Some(addr(3)));
        }
        _ => panic!("expected the block view"),
    }
}

#[test]
fn block_fetch_over_another_view_pushes_a_frame() {
    let mut app = App::new();
    app.set_route(Route::new(RouteId::Transaction(None), ActiveBlock::Main));
    app.is_loading = true;
    let addresses = app.commit_block(Some(Some(block(3, vec![]))));
    assert_eq!(app.routes.len(), 3);
    assert!(matches!(app.routes[1].id, RouteId::Transaction(None)));
    assert!(addresses.is_empty());
    assert!(!app.is_loading);
}

#[test]
fn block_fetch_at_root_keeps_root() {
    let mut app = App::new();
    app.routes[0] = Route::new(RouteId::Block(None), ActiveBlock::Main);
    app.commit_block(Some(Some(block(3, vec![]))));
    assert_eq!(app.routes.len(), 2);
    assert!(matches!(app.routes[0].id, RouteId::Block(None)));
}

#[test]
fn failed_block_fetch_finishes_command() {
    let mut app = App::new();
    app.is_loading = true;
    app.commit_block(None);
    assert!(!app.is_loading);
}

#[test]
fn receipts_pair_by_hash_not_position() {
    let txs = vec![tx(1, 1, None), tx(2, 2, None), tx(3, 3, None)];
    let receipts = vec![receipt(3), receipt(1)];
    let pairs = pair_with_receipts(&txs, &receipts);
    assert_eq!(pairs.len(), 2);
    assert_eq!(pairs[0].transaction.hash.bytes[0], 1);
    assert_eq!(pairs[0].transaction_receipt.transaction_hash.bytes[0], 1);
    assert_eq!(pairs[1].transaction.hash.bytes[0], 3);
    assert_eq!(pairs[1].transaction_receipt.transaction_hash.bytes[0], 3);
    assert!(pairs.iter().all(|p| p.decoded_input_data.is_none()));
}

#[test]
fn step_without_follow_up_finishes_command() {
    let mut app = App::new();
    app.dispatch(IoEvent::GetStatistics);
    let waves = app.commit_fetched(Fetched::Statistics(None));
    assert!(waves.is_empty());
    assert!(!app.is_loading);
    app.dispatch(IoEvent::LookupAddresses { addresses: vec![] });
    assert!(app.commit_fetched(Fetched::Addresses(vec![])).is_empty());
    assert!(!app.is_loading);
}

#[test]
fn step_returns_name_waves_and_last_wave_finishes() {
    let mut app = App::new();
    app.dispatch(IoEvent::LookupAddresses { addresses: vec![] });
    let many: Vec<Address> = (0..70).map(|i| addr(i as u8)).collect();
    let waves = app.commit_fetched(Fetched::Addresses(many.clone()));
    assert_eq!(waves.len(), 2);
    assert_eq!(waves[0].len(), 60);
    assert_eq!(waves.concat(), many);
    assert!(app.is_loading);
    app.commit_name_wave(&waves[0], vec![Some("a.eth".to_string())], false);
    assert!(app.is_loading);
    app.commit_name_wave(&waves[1], vec![], true);
    assert!(!app.is_loading);
    assert_eq!(app.address2ens_id.get(&addr(0)), Some(Some("a.eth".to_string())));
}

#[test]
fn step_commits_latest_transactions_then_resolves_names() {
    let mut app = App::new();
    app.dispatch(IoEvent::GetLatestTransactions { n: 1 });
    let waves = app.commit_fetched(Fetched::LatestTransactions(Some(vec![tx_with_receipt(1, 4, Some(5))])));
    assert_eq!(waves, vec![vec![addr(4), addr(5)]]);
    assert!(app.latest_transactions.is_some());
    assert!(app.is_loading);
}

#[test]
fn receipt_waves_follow_transactions() {
    let mut app = App::new();
    app.dispatch(IoEvent::GetTransactionReceipts { transactions: vec![] });
    assert!(app.receipt_waves(&vec![]).is_empty());
    assert!(!app.is_loading);
    app.set_route(Route::new(RouteId::Block(Some(block(5, vec![]))), ActiveBlock::Main));
    app.is_loading = true;
    let waves = app.receipt_waves(&vec![tx(7, 1, None)]);
    assert_eq!(waves.len(), 1);
    assert_eq!(waves[0][0].bytes[0], 7);
    app.commit_receipt_wave(vec![receipt(7)], true);
    assert!(!app.is_loading);
    match &app.routes[1].id {
        RouteId::Block(Some(bw)) => assert_eq!(bw.transaction_receipts.as_ref().unwrap().len(), 1),
        _ => panic!("expected the block view"),
    }
}
