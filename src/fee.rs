//! The fee that a transaction paid.
use vstd::prelude::*;
use crate::types::{Block, Transaction, TransactionReceipt, U256};

verus! {

/// Two to the power 256.
pub open spec fn u256_bound() -> int {
    0x1_0000_0000_0000_0000_0000_0000_0000_0000_0000_0000_0000_0000_0000_0000_0000_0000int
}

/// Wei in one ether.
pub open spec fn wei_per_ether() -> int {
    1_000_000_000_000_000_000int
}

pub open spec fn digit_char(d: int) -> char {
    ((d + '0' as int) as u32) as char
}

/// `n` in decimal, without leading zeros.
pub open spec fn decimal_text(n: nat) -> Seq<char>
    decreases n,
{
    if n < 10 {
        seq![digit_char(n as int)]
    } else {
        decimal_text(n / 10).push(digit_char((n % 10) as int))
    }
}

/// The last `w` decimal digits of `n`, zero-padded on the left.
pub open spec fn fixed_digits(n: nat, w: nat) -> Seq<char>
    decreases w,
{
    if w == 0 {
        Seq::empty()
    } else {
        fixed_digits(n / 10, (w - 1) as nat).push(digit_char((n % 10) as int))
    }
}

/// An amount of wei written in ether: the whole part, a point, and all
/// eighteen decimals.
pub open spec fn ether_text(wei: nat) -> Seq<char> {
    decimal_text(wei / wei_per_ether() as nat) + seq!['.'] + fixed_digits(
        wei % wei_per_ether() as nat,
        18,
    )
}

/// Relies on `U256::checked_mul` (uint): the product, or `None` when it does
/// not fit in 256 bits.
#[verifier::external_body]
fn checked_mul(a: U256, b: U256) -> (r: Option<U256>)
    ensures
        r is Some <==> a.value() * b.value() < u256_bound(),
        r matches Some(p) ==> p.value() == a.value() * b.value(),
{
    ethers_core::types::U256(a.limbs).checked_mul(ethers_core::types::U256(b.limbs)).map(
        |p| U256 { limbs: p.0 },
    )
}

/// Relies on `std::cmp::min` over uint's `Ord` for `U256`, which orders by value.
#[verifier::external_body]
fn min_u256(a: U256, b: U256) -> (r: U256)
    ensures
        r.value() == if a.value() <= b.value() {
            a.value()
        } else {
            b.value()
        },
{
    U256 {
        limbs: std::cmp::min(ethers_core::types::U256(a.limbs), ethers_core::types::U256(b.limbs)).0,
    }
}

/// Relies on `ethers_core::utils::format_ether`: the amount divided by 10^18,
/// written with its whole part, a point and eighteen zero-padded decimals.
#[verifier::external_body]
fn format_ether(wei: U256) -> (r: String)
    ensures
        r@ == ether_text(wei.value() as nat),
{
    ethers_core::utils::format_ether(ethers_core::types::U256(wei.limbs))
}

/// Why a fee cannot be computed.
#[derive(Clone, Copy, PartialEq, Eq, Structural, Debug)]
pub enum FeeError {
    /// The receipt has no gas used: the node runs as a light client.
    LightClient,
    MissingMaxFeePerGas,
    MissingMaxPriorityFeePerGas,
    /// The fee does not fit in 256 bits.
    Overflow,
}

/// The price per gas that a transaction pays: its gas price for a legacy
/// transaction, else the lesser of its fee cap and its priority fee.
pub open spec fn price_per_gas(t: Transaction) -> Result<int, FeeError> {
    match t.gas_price {
        Some(p) => Ok(p.value()),
        None => match (t.max_fee_per_gas, t.max_priority_fee_per_gas) {
            (None, _) => Err(FeeError::MissingMaxFeePerGas),
            (Some(_), None) => Err(FeeError::MissingMaxPriorityFeePerGas),
            (Some(m), Some(q)) => Ok(
                if m.value() <= q.value() {
                    m.value()
                } else {
                    q.value()
                },
            ),
        },
    }
}

/// The fee in wei: price per gas times the gas used.
pub open spec fn fee_wei(t: Transaction, r: TransactionReceipt) -> Result<int, FeeError> {
    match r.gas_used {
        None => Err(FeeError::LightClient),
        Some(g) => match price_per_gas(t) {
            Err(e) => Err(e),
            Ok(p) => if p * g.value() < u256_bound() {
                Ok(p * g.value())
            } else {
                Err(FeeError::Overflow)
            },
        },
    }
}

/// The fee that `transaction` paid, in ether.
pub fn calculate_transaction_fee(
    transaction: &Transaction,
    transaction_receipt: &TransactionReceipt,
    _block: Option<Block>,
) -> (r: Result<String, FeeError>)
    ensures
        match fee_wei(*transaction, *transaction_receipt) {
            Ok(w) => r matches Ok(s) && s@ == ether_text(w as nat),
            Err(e) => r == Err::<String, FeeError>(e),
        },
{
    if let Some(gas_used) = transaction_receipt.gas_used {
        let price = if let Some(gas_price) = transaction.gas_price {
            gas_price
        } else {
            let max_fee = match transaction.max_fee_per_gas {
                Some(m) => m,
                None => {
                    return Err(FeeError::MissingMaxFeePerGas);
                },
            };
            let max_priority = match transaction.max_priority_fee_per_gas {
                Some(q) => q,
                None => {
                    return Err(FeeError::MissingMaxPriorityFeePerGas);
                },
            };
            min_u256(max_fee, max_priority)
        };
        match checked_mul(price, gas_used) {
            Some(fee) => Ok(format_ether(fee)),
            None => Err(FeeError::Overflow),
        }
    } else {
        Err(FeeError::LightClient)
    }
}

} // verus!
