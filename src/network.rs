//! Fetch commands, and how their results are committed to the shared state.
use vstd::prelude::*;
use crate::app::statistics::Statistics;
use crate::app::{popped, App};
use crate::ens::{merged, name_view};
use crate::route::{ActiveBlock, Route, RouteId};
use crate::types::{
    Address, AddressInfo, BlockWithTransactionReceipts, H256, Transaction, TransactionReceipt,
    TransactionWithReceipt,
};
use crate::widget::StatefulList;
use crate::batch::{chunks_of, lemma_chunks_cover, split_into_chunks, RATE_LIMIT};

verus! {

/// A name to resolve, or an address to look up.
#[derive(Debug)]
pub enum NameOrAddress {
    Name(String),
    Address(Address),
}

/// One fetch intent, sent from the user interface to the fetch worker.
#[derive(Debug)]
pub enum IoEvent {
    GetStatistics,
    GetNameOrAddressInfo { name_or_address: NameOrAddress, is_searching: bool },
    GetBlock { number: u64 },
    GetBlockByHash { hash: H256 },
    GetTransactionWithReceipt { transaction_hash: H256 },
    GetTransactionReceipts { transactions: Vec<Transaction> },
    GetDecodedInputData { transaction: Transaction },
    GetLatestBlocks { n: usize },
    GetLatestTransactions { n: usize },
    LookupAddresses { addresses: Vec<Address> },
    InitialSetup { n: usize },
}


/// The addresses that appear in `txs`, in order: each sender, then the
/// recipient where there is one.
pub open spec fn addresses_of(txs: Seq<Transaction>) -> Seq<Address>
    decreases txs.len(),
{
    if txs.len() == 0 {
        Seq::empty()
    } else {
        let t = txs.last();
        addresses_of(txs.drop_last()) + (match t.to {
            Some(to) => seq![t.from, to],
            None => seq![t.from],
        })
    }
}

/// The addresses that appear in `txs`, for name resolution.
pub fn transaction_addresses(txs: &Vec<Transaction>) -> (r: Vec<Address>)
    ensures
        r@ == addresses_of(txs@),
{
    let mut r: Vec<Address> = Vec::new();
    let mut i: usize = 0;
    while i < txs.len()
        invariant
            0 <= i <= txs@.len(),
            r@ == addresses_of(txs@.subrange(0, i as int)),
        decreases txs@.len() - i,
    {
        r.push(txs[i].from);
        if let Some(to) = txs[i].to {
            r.push(to);
        }
        proof {
            let next = txs@.subrange(0, i + 1);
            assert(next.drop_last() =~= txs@.subrange(0, i as int));
        }
        i = i + 1;
    }
    proof {
        assert(txs@.subrange(0, txs@.len() as int) =~= txs@);
    }
    r
}

/// The transactions carried by a list of transactions with receipts.
pub open spec fn transactions_of(txs: Seq<TransactionWithReceipt>) -> Seq<Transaction> {
    txs.map_values(|t: TransactionWithReceipt| t.transaction)
}

/// The addresses that appear in `txs`, for name resolution.
pub fn receipt_transaction_addresses(txs: &Vec<TransactionWithReceipt>) -> (r: Vec<Address>)
    ensures
        r@ == addresses_of(transactions_of(txs@)),
{
    let mut r: Vec<Address> = Vec::new();
    let mut i: usize = 0;
    while i < txs.len()
        invariant
            0 <= i <= txs@.len(),
            r@ == addresses_of(transactions_of(txs@.subrange(0, i as int))),
        decreases txs@.len() - i,
    {
        r.push(txs[i].transaction.from);
        if let Some(to) = txs[i].transaction.to {
            r.push(to);
        }
        proof {
            let next = transactions_of(txs@.subrange(0, i + 1));
            assert(next.drop_last() =~= transactions_of(txs@.subrange(0, i as int)));
        }
        i = i + 1;
    }
    proof {
        assert(txs@.subrange(0, txs@.len() as int) =~= txs@);
    }
    r
}

/// The first receipt in `rs` for the transaction with hash `h`.
pub open spec fn receipt_for(rs: Seq<TransactionReceipt>, h: Seq<u8>) -> Option<TransactionReceipt>
    decreases rs.len(),
{
    if rs.len() == 0 {
        None
    } else if rs[0].transaction_hash@ == h {
        Some(rs[0])
    } else {
        receipt_for(rs.drop_first(), h)
    }
}

/// The positions, in order, of the first `n` transactions that have a receipt.
pub open spec fn with_receipt(txs: Seq<Transaction>, rs: Seq<TransactionReceipt>, n: int) -> Seq<int>
    decreases n,
{
    if n <= 0 {
        Seq::empty()
    } else if receipt_for(rs, txs[n - 1].hash@) is Some {
        with_receipt(txs, rs, n - 1).push(n - 1)
    } else {
        with_receipt(txs, rs, n - 1)
    }
}

fn find_receipt(rs: &Vec<TransactionReceipt>, h: &H256) -> (r: Option<TransactionReceipt>)
    ensures
        r == receipt_for(rs@, h@),
{
    let mut j: usize = 0;
    proof {
        assert(rs@.skip(0) =~= rs@);
    }
    while j < rs.len()
        invariant
            0 <= j <= rs@.len(),
            receipt_for(rs@, h@) == receipt_for(rs@.skip(j as int), h@),
        decreases rs@.len() - j,
    {
        proof {
            assert(rs@.skip(j as int).drop_first() =~= rs@.skip(j + 1));
        }
        if rs[j].transaction_hash.same(h) {
            return Some(rs[j]);
        }
        j = j + 1;
    }
    None
}

/// Each transaction that has a receipt among `receipts`, with the first such
/// receipt, in the order of `transactions`; transactions without one are left
/// out. Each pair's receipt is for its transaction.
pub fn pair_with_receipts(
    transactions: &Vec<Transaction>,
    receipts: &Vec<TransactionReceipt>,
) -> (r: Vec<TransactionWithReceipt>)
    ensures
        ({
            let idx = with_receipt(transactions@, receipts@, transactions@.len() as int);
            &&& r@.len() == idx.len()
            &&& forall|k: int|
                0 <= k < idx.len() ==> {
                    &&& (#[trigger] r@[k]).transaction.same_as(&transactions@[idx[k]])
                    &&& Some(r@[k].transaction_receipt) == receipt_for(
                        receipts@,
                        transactions@[idx[k]].hash@,
                    )
                    &&& r@[k].transaction_receipt.transaction_hash@ == r@[k].transaction.hash@
                    &&& r@[k].decoded_input_data is None
                }
        }),
{
    let mut r: Vec<TransactionWithReceipt> = Vec::new();
    let mut i: usize = 0;
    while i < transactions.len()
        invariant
            0 <= i <= transactions@.len(),
            ({
                let idx = with_receipt(transactions@, receipts@, i as int);
                &&& r@.len() == idx.len()
                &&& forall|k: int|
                    0 <= k < idx.len() ==> {
                        &&& 0 <= idx[k] < i
                        &&& (#[trigger] r@[k]).transaction.same_as(&transactions@[idx[k]])
                        &&& Some(r@[k].transaction_receipt) == receipt_for(
                            receipts@,
                            transactions@[idx[k]].hash@,
                        )
                        &&& r@[k].transaction_receipt.transaction_hash@ == r@[k].transaction.hash@
                        &&& r@[k].decoded_input_data is None
                    }
            }),
        decreases transactions@.len() - i,
    {
        proof {
            lemma_receipt_for_matches(receipts@, transactions@[i as int].hash@);
        }
        if let Some(receipt) = find_receipt(receipts, &transactions[i].hash) {
            r.push(
                TransactionWithReceipt {
                    transaction: transactions[i].clone(),
                    transaction_receipt: receipt,
                    decoded_input_data: None,
                },
            );
        }
        i = i + 1;
    }
    r
}

proof fn lemma_receipt_for_matches(rs: Seq<TransactionReceipt>, h: Seq<u8>)
    ensures
        receipt_for(rs, h) matches Some(x) ==> x.transaction_hash@ == h,
    decreases rs.len(),
{
    if rs.len() > 0 && rs[0].transaction_hash@ != h {
        lemma_receipt_for_matches(rs.drop_first(), h);
    }
}

/// The numbers of the `n` most recent blocks at height `height`, newest first,
/// stopping at the genesis block.
pub open spec fn latest_numbers(height: u64, n: nat) -> Seq<u64> {
    Seq::new(
        if n <= height + 1 {
            n
        } else {
            (height + 1) as nat
        },
        |i: int| (height - i) as u64,
    )
}

/// The numbers of the `n` most recent blocks, newest first.
pub fn latest_block_numbers(height: u64, n: usize) -> (r: Vec<u64>)
    ensures
        r@ == latest_numbers(height, n as nat),
{
    let mut r: Vec<u64> = Vec::new();
    let mut i: usize = 0;
    while i < n && (i as u64) <= height
        invariant
            0 <= i <= n,
            i <= height + 1,
            r@ =~= latest_numbers(height, i as nat),
        decreases n - i,
    {
        r.push(height - i as u64);
        i = i + 1;
    }
    proof {
        assert(r@ =~= latest_numbers(height, n as nat));
    }
    r
}

/// `new_id` is `old_id` with `receipts` added to the block's receipts.
pub open spec fn receipts_appended(
    old_id: RouteId,
    new_id: RouteId,
    receipts: Seq<TransactionReceipt>,
) -> bool {
    match (old_id, new_id) {
        (RouteId::Block(o), RouteId::Block(n)) => extended(o, n, receipts),
        (RouteId::TransactionsOfBlock(o), RouteId::TransactionsOfBlock(n)) => extended(
            o,
            n,
            receipts,
        ),
        _ => false,
    }
}

/// `n` is the block of `o` with `receipts` added to its receipts.
pub open spec fn extended(
    o: Option<BlockWithTransactionReceipts>,
    n: Option<BlockWithTransactionReceipts>,
    receipts: Seq<TransactionReceipt>,
) -> bool {
    match (o, n) {
        (Some(ob), Some(nb)) => {
            &&& nb.block == ob.block
            &&& match nb.transaction_receipts {
                Some(v) => v@ == match ob.transaction_receipts {
                    Some(w) => w@ + receipts,
                    None => receipts,
                },
                None => false,
            }
        },
        _ => false,
    }
}

/// A fetched block takes the place of the top frame: it shows a block and is
/// not the root.
pub open spec fn replaces_block(app: App) -> bool {
    app.routes@.len() > 1 && app.top().id is Block
}

/// A list of `len` items fits below two heading rows with every row numbered.
pub open spec fn listable(len: nat) -> bool {
    len + 2 <= usize::MAX
}

/// `l` is a fresh list over `items` below two heading rows, nothing selected.
pub open spec fn fresh_list<T>(l: Option<StatefulList<T>>, items: Seq<T>) -> bool {
    match l {
        Some(l) => l.items@ == items && l.selected is None && l.header_size == 2,
        None => false,
    }
}

/// The view shows a fetched block, whose receipts can be extended.
pub open spec fn shows_block(id: RouteId) -> bool {
    match id {
        RouteId::Block(Some(_)) => true,
        RouteId::TransactionsOfBlock(Some(_)) => true,
        _ => false,
    }
}

fn extend_receipts(
    b: Option<BlockWithTransactionReceipts>,
    mut receipts: Vec<TransactionReceipt>,
) -> (r: Option<BlockWithTransactionReceipts>)
    requires
        b is Some,
    ensures
        extended(b, r, receipts@),
{
    let mut bw = b.unwrap();
    match bw.transaction_receipts {
        Some(mut v) => {
            v.append(&mut receipts);
            bw.transaction_receipts = Some(v);
        },
        None => {
            bw.transaction_receipts = Some(receipts);
        },
    }
    Some(bw)
}

impl App {
    /// Commits a statistics refresh; a failed refresh changes nothing.
    pub fn commit_statistics(&mut self, statistics: Option<Statistics>)
        ensures
            committed_statistics(*old(self), *final(self), statistics),
    {
        if let Some(statistics) = statistics {
            self.statistics = statistics;
        }
        self.is_loading = false;
    }

    /// Commits an account lookup: shows its result, `None` meaning not found
    /// or failed. A lookup started from the search bar replaces the search frame.
    pub fn commit_address_info(&mut self, is_searching: bool, info: Option<AddressInfo>)
        ensures
            committed_address_info(*old(self), *final(self), is_searching, info),
    {
        if is_searching {
            self.pop_current_route();
        }
        self.set_route(Route::new(RouteId::AddressInfo(info), ActiveBlock::Main));
        self.is_loading = false;
    }

    /// Commits a block fetch: `None` when the fetch failed, else the block if
    /// found. The block replaces the top frame where that frame already shows
    /// a block and is not the root; otherwise it is shown in a new frame. The
    /// addresses in its transactions are returned for name resolution. The
    /// command stays outstanding while there are names to resolve.
    pub fn commit_block(&mut self, res: Option<Option<BlockWithTransactionReceipts>>) -> (r: Vec<
        Address,
    >)
        ensures
            committed_block(*old(self), *final(self), res, r@),
    {
        match res {
            Some(block) => {
                let addresses = match &block {
                    Some(bw) => transaction_addresses(&bw.block.transactions),
                    None => Vec::new(),
                };
                let last = self.routes.len();
                if last > 1 {
                    if let RouteId::Block(_) = self.routes[last - 1].id {
                        self.routes.pop();
                    }
                }
                self.set_route(Route::new(RouteId::Block(block), ActiveBlock::Main));
                if addresses.len() == 0 {
                    self.is_loading = false;
                }
                proof {
                    if replaces_block(*old(self)) {
                        assert(self.routes@.drop_last() =~= old(self).routes@.drop_last());
                    } else {
                        assert(self.routes@.drop_last() =~= old(self).routes@);
                    }
                }
                addresses
            },
            None => {
                self.is_loading = false;
                Vec::new()
            },
        }
    }

    /// Commits a transaction fetch: `None` when it failed, else the
    /// transaction with its receipt if found, shown in a new frame.
    pub fn commit_transaction_with_receipt(
        &mut self,
        res: Option<Option<TransactionWithReceipt>>,
    )
        ensures
            committed_transaction(*old(self), *final(self), res),
    {
        if let Some(t) = res {
            self.set_route(Route::new(RouteId::Transaction(t), ActiveBlock::Main));
        }
        self.is_loading = false;
    }

    /// Commits one wave of fetched receipts into the block that the top frame
    /// shows; on any other view, and on the root frame, they are dropped.
    pub fn commit_transaction_receipts(&mut self, receipts: Vec<TransactionReceipt>)
        requires
            old(self).wf(),
        ensures
            final(self).routes@.len() == old(self).routes@.len(),
            final(self).routes@.drop_last() == old(self).routes@.drop_last(),
            final(self).routes@[0] == old(self).routes@[0],
            shows_block(old(self).top().id) && old(self).routes@.len() > 1 ==> receipts_appended(
                old(self).top().id,
                final(self).top().id,
                receipts@,
            ) && final(self).top().active_block == old(self).top().active_block,
            !shows_block(old(self).top().id) || old(self).routes@.len() == 1 ==> final(self).routes
                == old(self).routes,
            *final(self) == (App { routes: final(self).routes, ..*old(self) }),
    {
        if self.routes.len() <= 1 || !self.top_shows_block() {
            return;
        }
        let route = self.routes.pop().unwrap();
        let id = match route.id {
            RouteId::Block(b) => RouteId::Block(extend_receipts(b, receipts)),
            RouteId::TransactionsOfBlock(b) => RouteId::TransactionsOfBlock(
                extend_receipts(b, receipts),
            ),
            other => other,
        };
        self.routes.push(Route { id, active_block: route.active_block });
        proof {
            assert(self.routes@.drop_last() =~= old(self).routes@.drop_last());
        }
    }

    fn top_shows_block(&self) -> (r: bool)
        requires
            self.wf(),
        ensures
            r == shows_block(self.top().id),
    {
        match &self.routes[self.routes.len() - 1].id {
            RouteId::Block(Some(_)) => true,
            RouteId::TransactionsOfBlock(Some(_)) => true,
            _ => false,
        }
    }

    /// Commits decoded input data (`None` when the decode failed) into the
    /// transaction that the top frame shows; on any other view, and on the root
    /// frame, nothing changes but the loading flag.
    pub fn commit_decoded_input_data(&mut self, res: Option<Option<String>>)
        requires
            old(self).wf(),
        ensures
            committed_decoded_input(*old(self), *final(self), res),
    {
        if let Some(decoded_input_data) = res {
            if self.routes.len() <= 1 {
                self.is_loading = false;
                return;
            }
            let route = self.routes.pop().unwrap();
            let id = match route.id {
                RouteId::Transaction(t) => RouteId::Transaction(
                    set_decoded(t, decoded_input_data),
                ),
                RouteId::InputDataOfTransaction(t) => RouteId::InputDataOfTransaction(
                    set_decoded(t, decoded_input_data),
                ),
                other => other,
            };
            self.routes.push(Route { id, active_block: route.active_block });
            proof {
                assert(self.routes@.drop_last() =~= old(self).routes@.drop_last());
            }
        }
        self.is_loading = false;
    }

    /// Commits the most recent blocks as a fresh list with nothing selected; a
    /// failed fetch, or a list too long to number its rows, changes nothing.
    pub fn commit_latest_blocks(&mut self, blocks: Option<Vec<BlockWithTransactionReceipts>>)
        ensures
            committed_latest_blocks(*old(self), *final(self), blocks),
    {
        if let Some(blocks) = blocks {
            if blocks.len() <= usize::MAX - 2 {
                self.latest_blocks = Some(StatefulList::with_items(blocks));
            }
        }
        self.is_loading = false;
    }

    /// Commits the most recent transactions as a fresh list with nothing
    /// selected and returns their addresses for name resolution; a failed
    /// fetch, or a list too long to number its rows, changes nothing. The
    /// command stays outstanding until `finish_command`.
    pub fn commit_latest_transactions(
        &mut self,
        transactions: Option<Vec<TransactionWithReceipt>>,
    ) -> (r: Vec<Address>)
        ensures
            committed_latest_transactions(*old(self), *final(self), transactions, r@),
    {
        match transactions {
            Some(transactions) => {
                if transactions.len() > usize::MAX - 2 {
                    self.is_loading = false;
                    return Vec::new();
                }
                let addresses = receipt_transaction_addresses(&transactions);
                self.latest_transactions = Some(StatefulList::with_items(transactions));
                if addresses.len() == 0 {
                    self.is_loading = false;
                }
                addresses
            },
            None => {
                self.is_loading = false;
                Vec::new()
            },
        }
    }

    /// Commits the start-up fetch, all or nothing: statistics, latest blocks
    /// and latest transactions are set only when all three fetches succeeded,
    /// and the transactions' addresses are returned for name resolution. When
    /// any failed (or a list is too long to number its rows), nothing is
    /// committed and the command is finished.
    pub fn commit_initial_setup(
        &mut self,
        statistics: Option<Statistics>,
        blocks: Option<Vec<BlockWithTransactionReceipts>>,
        transactions: Option<Vec<TransactionWithReceipt>>,
    ) -> (r: Vec<Address>)
        ensures
            committed_initial_setup(*old(self), *final(self), statistics, blocks, transactions, r@),
    {
        match (statistics, blocks, transactions) {
            (Some(statistics), Some(blocks), Some(transactions)) => {
                if blocks.len() > usize::MAX - 2 || transactions.len() > usize::MAX - 2 {
                    self.is_loading = false;
                    return Vec::new();
                }
                let addresses = receipt_transaction_addresses(&transactions);
                self.statistics = statistics;
                self.latest_blocks = Some(StatefulList::with_items(blocks));
                self.latest_transactions = Some(StatefulList::with_items(transactions));
                if addresses.len() == 0 {
                    self.is_loading = false;
                }
                addresses
            },
            _ => {
                self.is_loading = false;
                Vec::new()
            },
        }
    }

    /// Merges one wave of name lookups into the cache: `names[i]` is what the
    /// lookup of `addresses[i]` found, `None` for no name or a failed lookup.
    /// Pairs are taken up to the shorter of the two lists.
    pub fn commit_ens_lookups(&mut self, addresses: &Vec<Address>, names: Vec<Option<String>>)
        requires
            old(self).address2ens_id.wf(),
        ensures
            final(self).address2ens_id.wf(),
            final(self).address2ens_id@ == merged_all(
                old(self).address2ens_id@,
                addresses@,
                names@,
                if addresses@.len() < names@.len() {
                    addresses@.len() as int
                } else {
                    names@.len() as int
                },
            ),
            *final(self) == (App { address2ens_id: final(self).address2ens_id, ..*old(self) }),
    {
        let n = if addresses.len() < names.len() {
            addresses.len()
        } else {
            names.len()
        };
        let mut i: usize = 0;
        while i < n
            invariant
                0 <= i <= n,
                n <= addresses@.len(),
                n <= names@.len(),
                self.address2ens_id.wf(),
                self.address2ens_id@ == merged_all(
                    old(self).address2ens_id@,
                    addresses@,
                    names@,
                    i as int,
                ),
                *self == (App { address2ens_id: self.address2ens_id, ..*old(self) }),
            decreases n - i,
        {
            let name = match &names[i] {
                Some(s) => Some(s.clone()),
                None => None,
            };
            self.address2ens_id.insert(addresses[i], name);
            i = i + 1;
        }
    }

    /// Ends the command in progress.
    pub fn finish_command(&mut self)
        ensures
            *final(self) == (App { is_loading: false, ..*old(self) }),
    {
        self.is_loading = false;
    }
}

/// The state after `commit_statistics`.
pub open spec fn committed_statistics(
    old: App,
    new: App,
    statistics: Option<Statistics>,
) -> bool {
    &&& (new == (App {
        is_loading: false,
        statistics: match statistics {
            Some(s) => s,
            None => old.statistics,
        },
        ..old
    }))
}

/// The state after `commit_address_info`.
pub open spec fn committed_address_info(
    old: App,
    new: App,
    is_searching: bool, info: Option<AddressInfo>,
) -> bool {
    &&& (new.routes@ == (if is_searching {
        popped(old.routes@)
    } else {
        old.routes@
    }).push(Route { id: RouteId::AddressInfo(info), active_block: ActiveBlock::Main }))
    &&& (old.routes@.len() >= 1 ==> new.routes@[0] == old.routes@[0])
    &&& (new == (App { routes: new.routes, is_loading: false, ..old }))
}

/// The state after `commit_block`.
pub open spec fn committed_block(
    old: App,
    new: App,
    res: Option<Option<BlockWithTransactionReceipts>>, r: Seq<Address>,
) -> bool {
    &&& (old.routes@.len() >= 1 ==> new.routes@[0] == old.routes@[0])
    &&& (res is None ==> new == (App { is_loading: false, ..old }) && r.len()
        == 0)
    &&& (res matches Some(b) ==> new.routes@ == (if replaces_block(old) {
        old.routes@.drop_last()
    } else {
        old.routes@
    }).push(
        Route { id: RouteId::Block(b), active_block: ActiveBlock::Main },
    ) && new == (App {
        routes: new.routes,
        is_loading: old.is_loading && r.len() > 0,
        ..old
    }) && r == match b {
        Some(bw) => addresses_of(bw.block.transactions@),
        None => Seq::empty(),
    })
}

/// The state after `commit_transaction_with_receipt`.
pub open spec fn committed_transaction(
    old: App,
    new: App,
    res: Option<Option<TransactionWithReceipt>>,
) -> bool {
    &&& (old.routes@.len() >= 1 ==> new.routes@[0] == old.routes@[0])
    &&& (new.routes@ == match res {
        Some(t) => old.routes@.push(
            Route { id: RouteId::Transaction(t), active_block: ActiveBlock::Main },
        ),
        None => old.routes@,
    })
    &&& (new == (App { routes: new.routes, is_loading: false, ..old }))
}

/// The state after `commit_decoded_input_data`.
pub open spec fn committed_decoded_input(
    old: App,
    new: App,
    res: Option<Option<String>>,
) -> bool {
    &&& (new.routes@.len() == old.routes@.len())
    &&& (new.routes@.drop_last() == old.routes@.drop_last())
    &&& (new.routes@[0] == old.routes@[0])
    &&& (old.routes@.len() == 1 ==> new.routes == old.routes)
    &&& (old.routes@.len() > 1 ==> new.top() == match (res, old.top().id) {
        (Some(d), RouteId::Transaction(t)) => Route {
            id: RouteId::Transaction(with_decoded(t, d)),
            active_block: old.top().active_block,
        },
        (Some(d), RouteId::InputDataOfTransaction(t)) => Route {
            id: RouteId::InputDataOfTransaction(with_decoded(t, d)),
            active_block: old.top().active_block,
        },
        _ => old.top(),
    })
    &&& (new == (App { routes: new.routes, is_loading: false, ..old }))
}

/// The state after `commit_latest_blocks`.
pub open spec fn committed_latest_blocks(
    old: App,
    new: App,
    blocks: Option<Vec<BlockWithTransactionReceipts>>,
) -> bool {
    &&& (match blocks {
        Some(v) => if listable(v@.len()) {
            fresh_list(new.latest_blocks, v@)
        } else {
            new.latest_blocks == old.latest_blocks
        },
        None => new.latest_blocks == old.latest_blocks,
    })
    &&& (new == (App {
        latest_blocks: new.latest_blocks,
        is_loading: false,
        ..old
    }))
}

/// The state after `commit_latest_transactions`.
pub open spec fn committed_latest_transactions(
    old: App,
    new: App,
    transactions: Option<Vec<TransactionWithReceipt>>, r: Seq<Address>,
) -> bool {
    &&& (match transactions {
        Some(v) => if listable(v@.len()) {
            fresh_list(new.latest_transactions, v@) && r == addresses_of(
                transactions_of(v@),
            )
        } else {
            new.latest_transactions == old.latest_transactions
                && r.len() == 0
        },
        None => new.latest_transactions == old.latest_transactions
            && r.len() == 0,
    })
    &&& (new == (App {
        latest_transactions: new.latest_transactions,
        is_loading: old.is_loading && r.len() > 0,
        ..old
    }))
}

/// The state after `commit_initial_setup`.
pub open spec fn committed_initial_setup(
    old: App,
    new: App,
    statistics: Option<Statistics>,
    blocks: Option<Vec<BlockWithTransactionReceipts>>,
    transactions: Option<Vec<TransactionWithReceipt>>, r: Seq<Address>,
) -> bool {
    &&& (match (statistics, blocks, transactions) {
        (Some(s), Some(b), Some(t)) => if listable(b@.len()) && listable(t@.len()) {
            &&& new.statistics == s
            &&& fresh_list(new.latest_blocks, b@)
            &&& fresh_list(new.latest_transactions, t@)
            &&& r == addresses_of(transactions_of(t@))
            &&& new == (App {
                statistics: new.statistics,
                latest_blocks: new.latest_blocks,
                latest_transactions: new.latest_transactions,
                is_loading: old.is_loading && r.len() > 0,
                ..old
            })
        } else {
            new == (App { is_loading: false, ..old }) && r.len() == 0
        },
        _ => new == (App { is_loading: false, ..old }) && r.len() == 0,
    })
}

/// What the fetches of one command brought back; `None` marks a failed fetch.
/// A name lookup command fetches nothing up front: it carries its addresses.
#[derive(Debug)]
pub enum Fetched {
    Statistics(Option<Statistics>),
    AddressInfo { is_searching: bool, info: Option<AddressInfo> },
    Block(Option<Option<BlockWithTransactionReceipts>>),
    TransactionWithReceipt(Option<Option<TransactionWithReceipt>>),
    DecodedInputData(Option<Option<String>>),
    LatestBlocks(Option<Vec<BlockWithTransactionReceipts>>),
    LatestTransactions(Option<Vec<TransactionWithReceipt>>),
    InitialSetup {
        statistics: Option<Statistics>,
        blocks: Option<Vec<BlockWithTransactionReceipts>>,
        transactions: Option<Vec<TransactionWithReceipt>>,
    },
    Addresses(Vec<Address>),
}

/// The state after committing `f`, with `names` the addresses whose names are
/// resolved next.
pub open spec fn fetched_post(old: App, new: App, f: Fetched, names: Seq<Address>) -> bool {
    match f {
        Fetched::Statistics(s) => committed_statistics(old, new, s) && names.len() == 0,
        Fetched::AddressInfo { is_searching, info } => committed_address_info(
            old,
            new,
            is_searching,
            info,
        ) && names.len() == 0,
        Fetched::Block(res) => committed_block(old, new, res, names),
        Fetched::TransactionWithReceipt(res) => committed_transaction(old, new, res) && names.len()
            == 0,
        Fetched::DecodedInputData(res) => committed_decoded_input(old, new, res) && names.len()
            == 0,
        Fetched::LatestBlocks(b) => committed_latest_blocks(old, new, b) && names.len() == 0,
        Fetched::LatestTransactions(t) => committed_latest_transactions(old, new, t, names),
        Fetched::InitialSetup { statistics, blocks, transactions } => committed_initial_setup(
            old,
            new,
            statistics,
            blocks,
            transactions,
            names,
        ),
        Fetched::Addresses(a) => names == a@ && new == (App {
            is_loading: old.is_loading && a@.len() > 0,
            ..old
        }),
    }
}

/// The waves in `w`, as sequences.
pub open spec fn waves_view<T>(w: Seq<Vec<T>>) -> Seq<Seq<T>> {
    w.map_values(|v: Vec<T>| v@)
}

impl App {
    /// One step of the fetch worker: commits what a command's fetches brought
    /// back and returns the waves of name lookups that follow, at most
    /// `RATE_LIMIT` addresses each, in order. When none follow, the command is
    /// finished.
    pub fn commit_fetched(&mut self, fetched: Fetched) -> (r: Vec<Vec<Address>>)
        requires
            old(self).wf(),
        ensures
            fetched_post(*old(self), *final(self), fetched, waves_view(r@).flatten()),
            waves_view(r@) == chunks_of(waves_view(r@).flatten(), RATE_LIMIT as nat),
            r@.len() == 0 ==> !final(self).is_loading,
    {
        let names = match fetched {
            Fetched::Statistics(s) => {
                self.commit_statistics(s);
                Vec::new()
            },
            Fetched::AddressInfo { is_searching, info } => {
                self.commit_address_info(is_searching, info);
                Vec::new()
            },
            Fetched::Block(res) => self.commit_block(res),
            Fetched::TransactionWithReceipt(res) => {
                self.commit_transaction_with_receipt(res);
                Vec::new()
            },
            Fetched::DecodedInputData(res) => {
                self.commit_decoded_input_data(res);
                Vec::new()
            },
            Fetched::LatestBlocks(b) => {
                self.commit_latest_blocks(b);
                Vec::new()
            },
            Fetched::LatestTransactions(t) => self.commit_latest_transactions(t),
            Fetched::InitialSetup { statistics, blocks, transactions } => self.commit_initial_setup(
                statistics,
                blocks,
                transactions,
            ),
            Fetched::Addresses(a) => {
                if a.len() == 0 {
                    self.is_loading = false;
                }
                a
            },
        };
        let waves = split_into_chunks(&names, RATE_LIMIT);
        proof {
            lemma_chunks_cover(names@, RATE_LIMIT as nat);
            if names@.len() > 0 {
                assert(waves_view(waves@).len() > 0);
            }
        }
        waves
    }

    /// Merges one wave of name lookups (see `commit_ens_lookups`); the last
    /// wave finishes the command.
    pub fn commit_name_wave(&mut self, addresses: &Vec<Address>, names: Vec<Option<String>>, last: bool)
        requires
            old(self).address2ens_id.wf(),
        ensures
            final(self).address2ens_id.wf(),
            final(self).address2ens_id@ == merged_all(
                old(self).address2ens_id@,
                addresses@,
                names@,
                if addresses@.len() < names@.len() {
                    addresses@.len() as int
                } else {
                    names@.len() as int
                },
            ),
            *final(self) == (App {
                address2ens_id: final(self).address2ens_id,
                is_loading: old(self).is_loading && !last,
                ..*old(self)
            }),
    {
        self.commit_ens_lookups(addresses, names);
        if last {
            self.finish_command();
        }
    }

    /// The waves of receipt fetches for `transactions`: their hashes, at most
    /// `RATE_LIMIT` each, in order. With no transactions the command is
    /// finished.
    pub fn receipt_waves(&mut self, transactions: &Vec<Transaction>) -> (r: Vec<Vec<H256>>)
        ensures
            waves_view(r@) == chunks_of(transaction_hashes(transactions@), RATE_LIMIT as nat),
            *final(self) == (App {
                is_loading: old(self).is_loading && transactions@.len() > 0,
                ..*old(self)
            }),
    {
        let mut hashes: Vec<H256> = Vec::new();
        let mut i: usize = 0;
        while i < transactions.len()
            invariant
                0 <= i <= transactions@.len(),
                hashes@ =~= transaction_hashes(transactions@.subrange(0, i as int)),
            decreases transactions@.len() - i,
        {
            hashes.push(transactions[i].hash);
            proof {
                assert(transactions@.subrange(0, i + 1).drop_last() =~= transactions@.subrange(0, i as int));
            }
            i = i + 1;
        }
        proof {
            assert(transactions@.subrange(0, transactions@.len() as int) =~= transactions@);
        }
        if transactions.len() == 0 {
            self.is_loading = false;
        }
        split_into_chunks(&hashes, RATE_LIMIT)
    }

    /// Commits one wave of receipts (see `commit_transaction_receipts`); the
    /// last wave finishes the command.
    pub fn commit_receipt_wave(&mut self, receipts: Vec<TransactionReceipt>, last: bool)
        requires
            old(self).wf(),
        ensures
            final(self).routes@.len() == old(self).routes@.len(),
            final(self).routes@.drop_last() == old(self).routes@.drop_last(),
            final(self).routes@[0] == old(self).routes@[0],
            shows_block(old(self).top().id) && old(self).routes@.len() > 1 ==> receipts_appended(
                old(self).top().id,
                final(self).top().id,
                receipts@,
            ) && final(self).top().active_block == old(self).top().active_block,
            !shows_block(old(self).top().id) || old(self).routes@.len() == 1 ==> final(self).routes
                == old(self).routes,
            *final(self) == (App {
                routes: final(self).routes,
                is_loading: old(self).is_loading && !last,
                ..*old(self)
            }),
    {
        self.commit_transaction_receipts(receipts);
        if last {
            self.finish_command();
        }
    }
}

/// The hashes of `txs`, in order.
pub open spec fn transaction_hashes(txs: Seq<Transaction>) -> Seq<H256>
    decreases txs.len(),
{
    if txs.len() == 0 {
        Seq::empty()
    } else {
        transaction_hashes(txs.drop_last()).push(txs.last().hash)
    }
}

/// The cache after the first `k` lookup results are merged in order.
pub open spec fn merged_all(
    m: Map<Seq<u8>, Option<Seq<char>>>,
    addresses: Seq<Address>,
    names: Seq<Option<String>>,
    k: int,
) -> Map<Seq<u8>, Option<Seq<char>>>
    decreases k,
{
    if k <= 0 {
        m
    } else {
        merged(
            merged_all(m, addresses, names, k - 1),
            addresses[k - 1]@,
            name_view(names[k - 1]),
        )
    }
}

/// `t` with its decoded input data set to `d`.
pub open spec fn with_decoded(t: Option<TransactionWithReceipt>, d: Option<String>) -> Option<
    TransactionWithReceipt,
> {
    match t {
        Some(t) => Some(
            TransactionWithReceipt {
                transaction: t.transaction,
                transaction_receipt: t.transaction_receipt,
                decoded_input_data: d,
            },
        ),
        None => None,
    }
}

fn set_decoded(t: Option<TransactionWithReceipt>, d: Option<String>) -> (r: Option<
    TransactionWithReceipt,
>)
    ensures
        r == with_decoded(t, d),
{
    match t {
        Some(t) => Some(
            TransactionWithReceipt {
                transaction: t.transaction,
                transaction_receipt: t.transaction_receipt,
                decoded_input_data: d,
            },
        ),
        None => None,
    }
}


/// Merging lookup results wave by wave gives the cache that merging them all
/// in one pass, in input order, gives.
pub proof fn lemma_waves_merge_as_one(
    m: Map<Seq<u8>, Option<Seq<char>>>,
    first: Seq<Address>,
    first_names: Seq<Option<String>>,
    second: Seq<Address>,
    second_names: Seq<Option<String>>,
)
    requires
        first.len() == first_names.len(),
        second.len() == second_names.len(),
    ensures
        merged_all(
            merged_all(m, first, first_names, first.len() as int),
            second,
            second_names,
            second.len() as int,
        ) == merged_all(
            m,
            first + second,
            first_names + second_names,
            (first.len() + second.len()) as int,
        ),
    decreases second.len(),
{
    if second.len() > 0 {
        let a = second.drop_last();
        let n = second_names.drop_last();
        lemma_waves_merge_as_one(m, first, first_names, a, n);
        lemma_merged_all_prefix(merged_all(m, first, first_names, first.len() as int), second, second_names, a, n, a.len() as int);
        lemma_merged_all_prefix(m, first + second, first_names + second_names, first + a, first_names + n, (first.len() + a.len()) as int);
    } else {
        assert(first + second =~= first);
        assert(first_names + second_names =~= first_names);
    }
}

proof fn lemma_merged_all_prefix(
    m: Map<Seq<u8>, Option<Seq<char>>>,
    addresses: Seq<Address>,
    names: Seq<Option<String>>,
    short: Seq<Address>,
    short_names: Seq<Option<String>>,
    k: int,
)
    requires
        0 <= k <= short.len() <= addresses.len(),
        k <= short_names.len() <= names.len(),
        forall|i: int| 0 <= i < k ==> short[i] == addresses[i] && short_names[i] == names[i],
    ensures
        merged_all(m, short, short_names, k) == merged_all(m, addresses, names, k),
    decreases k,
{
    if k > 0 {
        lemma_merged_all_prefix(m, addresses, names, short, short_names, k - 1);
    }
}

} // verus!
