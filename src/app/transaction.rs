//! The selectable rows of the transaction and input data views.
use vstd::prelude::*;
use crate::types::TransactionWithReceipt;

verus! {

/// A selectable row of the transaction detail view; the recipient row is
/// skipped for a contract creation.
#[derive(Clone, Copy, PartialEq, Eq, Structural, Debug)]
pub enum SelectableTransactionDetailItem {
    From,
    To,
    InputData,
}

impl SelectableTransactionDetailItem {
    /// The row below, skipping a missing recipient.
    pub open spec fn next_row(&self, transaction: &TransactionWithReceipt) -> Self {
        match *self {
            Self::From => if transaction.transaction.to is Some {
                Self::To
            } else {
                Self::From
            },
            Self::To => Self::InputData,
            Self::InputData => Self::From,
        }
    }

    /// Moves to the row below.
    pub fn next(&self, transaction: &TransactionWithReceipt) -> (r: Self)
        ensures
            r == self.next_row(transaction),
    {
        match self {
            Self::From => {
                if transaction.transaction.to.is_some() {
                    Self::To
                } else {
                    Self::From
                }
            },
            Self::To => Self::InputData,
            Self::InputData => Self::From,
        }
    }

    /// The row above, skipping a missing recipient.
    pub open spec fn previous_row(&self, transaction: &TransactionWithReceipt) -> Self {
        match *self {
            Self::From => Self::InputData,
            Self::To => Self::From,
            Self::InputData => if transaction.transaction.to is Some {
                Self::To
            } else {
                Self::From
            },
        }
    }

    /// Moves to the row above.
    pub fn previous(&self, transaction: &TransactionWithReceipt) -> (r: Self)
        ensures
            r == self.previous_row(transaction),
    {
        match self {
            Self::From => Self::InputData,
            Self::To => Self::From,
            Self::InputData => {
                if transaction.transaction.to.is_some() {
                    Self::To
                } else {
                    Self::From
                }
            },
        }
    }

    /// The row at position `i` of the view.
    pub open spec fn at(i: int) -> Self {
        if i == 0 {
            Self::From
        } else if i == 1 {
            Self::To
        } else {
            Self::InputData
        }
    }

    /// The row at position `i` of the view.
    pub fn from_index(i: usize) -> (r: Self)
        requires
            i < 3,
        ensures
            r == Self::at(i as int),
            r.index_of() == i,
    {
        if i == 0 {
            Self::From
        } else if i == 1 {
            Self::To
        } else {
            Self::InputData
        }
    }

    pub open spec fn index_of(&self) -> int {
        match *self {
            Self::From => 0,
            Self::To => 1,
            Self::InputData => 2,
        }
    }

    /// The position of this row in the view.
    pub fn index(&self) -> (r: usize)
        ensures
            r == self.index_of(),
    {
        match self {
            Self::From => 0,
            Self::To => 1,
            Self::InputData => 2,
        }
    }
}

/// A selectable row of the input data view: raw or decoded.
#[derive(Clone, Copy, PartialEq, Eq, Structural, Debug)]
pub enum SelectableInputDataDetailItem {
    InputData,
    DecodedInputData,
}

impl SelectableInputDataDetailItem {
    /// The other row.
    pub fn next(&self) -> (r: Self)
        ensures
            r != *self,
    {
        match self {
            Self::InputData => Self::DecodedInputData,
            Self::DecodedInputData => Self::InputData,
        }
    }

    /// The other row.
    pub fn previous(&self) -> (r: Self)
        ensures
            r != *self,
    {
        match self {
            Self::InputData => Self::DecodedInputData,
            Self::DecodedInputData => Self::InputData,
        }
    }

    /// The row at position `i` of the view.
    pub fn from_index(i: usize) -> (r: Self)
        requires
            i < 2,
        ensures
            r.index_of() == i,
    {
        if i == 0 {
            Self::InputData
        } else {
            Self::DecodedInputData
        }
    }

    pub open spec fn index_of(&self) -> int {
        match *self {
            Self::InputData => 0,
            Self::DecodedInputData => 1,
        }
    }

    /// The position of this row in the view.
    pub fn index(&self) -> (r: usize)
        ensures
            r == self.index_of(),
    {
        match self {
            Self::InputData => 0,
            Self::DecodedInputData => 1,
        }
    }
}

} // verus!
