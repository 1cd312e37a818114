//! The selectable rows of the block detail view.
use vstd::prelude::*;
use crate::types::Block;

verus! {

/// A selectable row of the block detail view. Rows for withdrawals and the
/// parent hash are skipped when the block has no withdrawals or no author.
#[derive(Clone, Copy, PartialEq, Eq, Structural, Debug)]
pub enum SelectableBlockDetailItem {
    Transactions,
    Withdrawls,
    FeeRecipient,
    ParentHash,
}

impl SelectableBlockDetailItem {
    /// The row below, skipping rows the block does not have.
    pub open spec fn next_row(&self, block: &Block) -> Self {
        match *self {
            Self::Transactions => if block.withdrawals is Some {
                Self::Withdrawls
            } else {
                Self::FeeRecipient
            },
            Self::Withdrawls => Self::FeeRecipient,
            Self::FeeRecipient => if block.author is Some {
                Self::ParentHash
            } else {
                Self::Transactions
            },
            Self::ParentHash => Self::Transactions,
        }
    }

    /// Moves to the row below.
    pub fn next(&self, block: &Block) -> (r: Self)
        ensures
            r == self.next_row(block),
    {
        match self {
            Self::Transactions => {
                if block.withdrawals.is_some() {
                    Self::Withdrawls
                } else {
                    Self::FeeRecipient
                }
            },
            Self::Withdrawls => Self::FeeRecipient,
            Self::FeeRecipient => {
                if block.author.is_some() {
                    Self::ParentHash
                } else {
                    Self::Transactions
                }
            },
            Self::ParentHash => Self::Transactions,
        }
    }

    /// The row above, skipping rows the block does not have.
    pub open spec fn previous_row(&self, block: &Block) -> Self {
        match *self {
            Self::Transactions => if block.author is Some {
                Self::ParentHash
            } else {
                Self::FeeRecipient
            },
            Self::Withdrawls => Self::Transactions,
            Self::FeeRecipient => if block.withdrawals is Some {
                Self::Withdrawls
            } else {
                Self::Transactions
            },
            Self::ParentHash => Self::FeeRecipient,
        }
    }

    /// Moves to the row above.
    pub fn previous(&self, block: &Block) -> (r: Self)
        ensures
            r == self.previous_row(block),
    {
        match self {
            Self::Transactions => {
                if block.author.is_some() {
                    Self::ParentHash
                } else {
                    Self::FeeRecipient
                }
            },
            Self::Withdrawls => Self::Transactions,
            Self::FeeRecipient => {
                if block.withdrawals.is_some() {
                    Self::Withdrawls
                } else {
                    Self::Transactions
                }
            },
            Self::ParentHash => Self::FeeRecipient,
        }
    }

    /// The row at position `i` of the view.
    pub open spec fn at(i: int) -> Self {
        if i == 0 {
            Self::Transactions
        } else if i == 1 {
            Self::Withdrawls
        } else if i == 2 {
            Self::FeeRecipient
        } else {
            Self::ParentHash
        }
    }

    /// The row at position `i` of the view.
    pub fn from_index(i: usize) -> (r: Self)
        requires
            i < 4,
        ensures
            r == Self::at(i as int),
            r.index_of() == i,
    {
        if i == 0 {
            Self::Transactions
        } else if i == 1 {
            Self::Withdrawls
        } else if i == 2 {
            Self::FeeRecipient
        } else {
            Self::ParentHash
        }
    }

    pub open spec fn index_of(&self) -> int {
        match *self {
            Self::Transactions => 0,
            Self::Withdrawls => 1,
            Self::FeeRecipient => 2,
            Self::ParentHash => 3,
        }
    }

    /// The position of this row in the view.
    pub fn index(&self) -> (r: usize)
        ensures
            r == self.index_of(),
    {
        match self {
            Self::Transactions => 0,
            Self::Withdrawls => 1,
            Self::FeeRecipient => 2,
            Self::ParentHash => 3,
        }
    }
}

} // verus!
