//! The network statistics snapshot.
use vstd::prelude::*;
use crate::types::{Block, U256};

verus! {

/// A snapshot of network statistics; each field is fetched on its own and is
/// `None` when unavailable. The price is kept as the text the explorer gave.
#[derive(Clone, Debug)]
pub struct Statistics {
    pub ethusd: Option<String>,
    pub node_count: Option<usize>,
    pub suggested_base_fee: Option<U256>,
    pub med_gas_price: Option<U256>,
    pub last_safe_block: Option<Block>,
    pub last_finalized_block: Option<Block>,
}

impl Statistics {
    pub open spec fn is_empty(&self) -> bool {
        &&& self.ethusd is None
        &&& self.node_count is None
        &&& self.suggested_base_fee is None
        &&& self.med_gas_price is None
        &&& self.last_safe_block is None
        &&& self.last_finalized_block is None
    }

    /// A snapshot with every field unavailable.
    pub fn new() -> (r: Self)
        ensures
            r.is_empty(),
    {
        Self {
            ethusd: None,
            node_count: None,
            suggested_base_fee: None,
            med_gas_price: None,
            last_safe_block: None,
            last_finalized_block: None,
        }
    }

    pub const ETHUSD_INDEX: usize = 0;

    pub const SUGGESTED_BASE_FEE_INDEX: usize = 1;

    pub const LAST_SAFE_BLOCK_INDEX: usize = 2;

    pub const NODE_COUNT_INDEX: usize = 3;

    pub const MED_GAS_PRICE_INDEX: usize = 4;

    pub const LAST_FINALIZED_BLOCK_INDEX: usize = 5;
}

} // verus!
