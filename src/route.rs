//! Navigation frames: which logical view is shown and which pane has focus.
use vstd::prelude::*;
use crate::types::{AddressInfo, BlockWithTransactionReceipts, TransactionWithReceipt};

verus! {

/// A logical view, with the payload that a fetch filled in. A `None` payload
/// means that the fetch found nothing.
#[derive(Debug)]
pub enum RouteId {
    Welcome,
    Searching(String),
    AddressInfo(Option<AddressInfo>),
    Block(Option<BlockWithTransactionReceipts>),
    TransactionsOfBlock(Option<BlockWithTransactionReceipts>),
    WithdrawalsOfBlock(Option<BlockWithTransactionReceipts>),
    Transaction(Option<TransactionWithReceipt>),
    InputDataOfTransaction(Option<TransactionWithReceipt>),
}

impl RouteId {
    /// Which variant this is, and whether it carries a payload.
    pub open spec fn shape(&self) -> (int, bool) {
        match self {
            RouteId::Welcome => (0, false),
            RouteId::Searching(_) => (1, true),
            RouteId::AddressInfo(a) => (2, a is Some),
            RouteId::Block(b) => (3, b is Some),
            RouteId::TransactionsOfBlock(b) => (4, b is Some),
            RouteId::WithdrawalsOfBlock(b) => (5, b is Some),
            RouteId::Transaction(t) => (6, t is Some),
            RouteId::InputDataOfTransaction(t) => (7, t is Some),
        }
    }
}

/// Two optional blocks hold the same values.
pub open spec fn same_block(a: Option<BlockWithTransactionReceipts>, b: Option<BlockWithTransactionReceipts>) -> bool {
    match (a, b) {
        (Some(x), Some(y)) => x.same_as(&y),
        (None, None) => true,
        _ => false,
    }
}

/// Two optional transactions hold the same values.
pub open spec fn same_transaction(a: Option<TransactionWithReceipt>, b: Option<TransactionWithReceipt>) -> bool {
    match (a, b) {
        (Some(x), Some(y)) => x.same_as(&y),
        (None, None) => true,
        _ => false,
    }
}

impl RouteId {
    /// The two name the same view with the same payload.
    pub open spec fn same_as(&self, o: &RouteId) -> bool {
        match (*self, *o) {
            (RouteId::Welcome, RouteId::Welcome) => true,
            (RouteId::Searching(a), RouteId::Searching(b)) => a == b,
            (RouteId::AddressInfo(a), RouteId::AddressInfo(b)) => a == b,
            (RouteId::Block(a), RouteId::Block(b)) => same_block(a, b),
            (RouteId::TransactionsOfBlock(a), RouteId::TransactionsOfBlock(b)) => same_block(a, b),
            (RouteId::WithdrawalsOfBlock(a), RouteId::WithdrawalsOfBlock(b)) => same_block(a, b),
            (RouteId::Transaction(a), RouteId::Transaction(b)) => same_transaction(a, b),
            (RouteId::InputDataOfTransaction(a), RouteId::InputDataOfTransaction(b)) => same_transaction(a, b),
            _ => false,
        }
    }
}

impl Clone for RouteId {
    fn clone(&self) -> (r: Self)
        ensures
            r.same_as(self),
            r.shape() == self.shape(),
    {
        match self {
            RouteId::Welcome => RouteId::Welcome,
            RouteId::Searching(q) => RouteId::Searching(q.clone()),
            RouteId::AddressInfo(a) => RouteId::AddressInfo(a.clone()),
            RouteId::Block(b) => RouteId::Block(b.clone()),
            RouteId::TransactionsOfBlock(b) => RouteId::TransactionsOfBlock(b.clone()),
            RouteId::WithdrawalsOfBlock(b) => RouteId::WithdrawalsOfBlock(b.clone()),
            RouteId::Transaction(t) => RouteId::Transaction(t.clone()),
            RouteId::InputDataOfTransaction(t) => RouteId::InputDataOfTransaction(t.clone()),
        }
    }
}

/// The pane that has the keyboard focus.
#[derive(Clone, Copy, PartialEq, Eq, Structural, Debug)]
pub enum ActiveBlock {
    SearchBar,
    LatestBlocks,
    LatestTransactions,
    Main,
}

/// One frame of the navigation stack.
#[derive(Debug)]
pub struct Route {
    pub id: RouteId,
    pub active_block: ActiveBlock,
}

impl Route {
    /// The two frames show the same view, with the same payload and pane.
    pub open spec fn same_as(&self, o: &Route) -> bool {
        self.id.same_as(&o.id) && self.active_block == o.active_block
    }
}

impl Clone for Route {
    fn clone(&self) -> (r: Self)
        ensures
            r.same_as(self),
            r.active_block == self.active_block,
            r.id.shape() == self.id.shape(),
    {
        Route { id: self.id.clone(), active_block: self.active_block }
    }
}

impl Route {
    pub fn new(id: RouteId, active_block: ActiveBlock) -> (r: Self)
        ensures
            r == (Route { id, active_block }),
    {
        Self { id, active_block }
    }

    pub fn get_active_block(&self) -> (r: ActiveBlock)
        ensures
            r == self.active_block,
    {
        self.active_block
    }

    /// A copy of the view this frame names.
    pub fn get_id(&self) -> (r: RouteId)
        ensures
            r.same_as(&self.id),
            r.shape() == self.id.shape(),
    {
        self.id.clone()
    }
}

impl Default for Route {
    fn default() -> (r: Self)
        ensures
            r == (Route { id: RouteId::Welcome, active_block: ActiveBlock::SearchBar }),
    {
        Self { id: RouteId::Welcome, active_block: ActiveBlock::SearchBar }
    }
}

} // verus!
