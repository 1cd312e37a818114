//! The selectable rows of the contract section of the address view.
use vstd::prelude::*;
use crate::types::AddressInfo;

verus! {

/// A selectable row of the contract section: its source code or its ABI. A
/// row whose data is missing is skipped.
#[derive(Clone, Copy, PartialEq, Eq, Structural, Debug)]
pub enum SelectableContractDetailItem {
    ContractSourceCode,
    ContractAbi,
}

impl SelectableContractDetailItem {
    /// The other row, where the account has its data.
    pub fn next(&self, address_info: &AddressInfo) -> (r: Self)
        ensures
            r == self.next_row(address_info),
    {
        match self {
            Self::ContractAbi => {
                if address_info.contract_source_code.is_some() {
                    Self::ContractSourceCode
                } else {
                    Self::ContractAbi
                }
            },
            Self::ContractSourceCode => {
                if address_info.contract_abi.is_some() {
                    Self::ContractAbi
                } else {
                    Self::ContractSourceCode
                }
            },
        }
    }

    /// The other row, where the account has its data; with two rows this is
    /// the same move as `next`.
    pub fn previous(&self, address_info: &AddressInfo) -> (r: Self)
        ensures
            r == self.next_row(address_info),
    {
        self.next(address_info)
    }

    /// The other row where the account has its data, else this one.
    pub open spec fn next_row(&self, address_info: &AddressInfo) -> Self {
        match *self {
            Self::ContractAbi => if address_info.contract_source_code is Some {
                Self::ContractSourceCode
            } else {
                Self::ContractAbi
            },
            Self::ContractSourceCode => if address_info.contract_abi is Some {
                Self::ContractAbi
            } else {
                Self::ContractSourceCode
            },
        }
    }

    /// The row at position `i` of the section.
    pub fn from_index(i: usize) -> (r: Self)
        requires
            i < 2,
        ensures
            r.index_of() == i,
    {
        if i == 0 {
            Self::ContractSourceCode
        } else {
            Self::ContractAbi
        }
    }

    pub open spec fn index_of(&self) -> int {
        match *self {
            Self::ContractSourceCode => 0,
            Self::ContractAbi => 1,
        }
    }

    /// The position of this row in the section.
    pub fn index(&self) -> (r: usize)
        ensures
            r == self.index_of(),
    {
        match self {
            Self::ContractSourceCode => 0,
            Self::ContractAbi => 1,
        }
    }
}

impl Default for SelectableContractDetailItem {
    fn default() -> (r: Self)
        ensures
            r == Self::ContractSourceCode,
    {
        Self::ContractSourceCode
    }
}

} // verus!
