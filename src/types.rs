//! Plain-value models of the chain data that the navigation and fetch logic reads.
use vstd::prelude::*;
use vstd::string::StringSliceAdditionalSpecFns;
use crate::parse::{hex_byte, is_fixed_hex, parse_address};

verus! {

/// A 20-byte account address.
#[derive(Clone, Copy, Debug)]
pub struct Address {
    pub bytes: [u8; 20],
}

/// A 32-byte hash (block hash or transaction hash).
#[derive(Clone, Copy, Debug)]
pub struct H256 {
    pub bytes: [u8; 32],
}

impl Address {
    pub open spec fn view(&self) -> Seq<u8> {
        self.bytes@
    }

    /// Byte-wise equality of two addresses.
    pub fn same(&self, other: &Address) -> (r: bool)
        ensures
            r == (self@ == other@),
    {
        let mut i: usize = 0;
        while i < 20
            invariant
                0 <= i <= 20,
                forall|j: int| 0 <= j < i ==> self@[j] == other@[j],
            decreases 20 - i,
        {
            if self.bytes[i] != other.bytes[i] {
                return false;
            }
            i = i + 1;
        }
        assert(self@ =~= other@);
        true
    }
}

impl PartialEq for Address {
    fn eq(&self, other: &Address) -> (r: bool) {
        self.same(other)
    }
}

impl vstd::std_specs::cmp::PartialEqSpecImpl for Address {
    open spec fn obeys_eq_spec() -> bool {
        true
    }

    open spec fn eq_spec(&self, other: &Address) -> bool {
        self@ == other@
    }
}

impl Eq for Address {}

} // verus!
verus! {

impl H256 {
    pub open spec fn view(&self) -> Seq<u8> {
        self.bytes@
    }

    /// Byte-wise equality of two hashes.
    pub fn same(&self, other: &H256) -> (r: bool)
        ensures
            r == (self@ == other@),
    {
        let mut i: usize = 0;
        while i < 32
            invariant
                0 <= i <= 32,
                forall|j: int| 0 <= j < i ==> self@[j] == other@[j],
            decreases 32 - i,
        {
            if self.bytes[i] != other.bytes[i] {
                return false;
            }
            i = i + 1;
        }
        assert(self@ =~= other@);
        true
    }
}

/// Two to the power sixty-four.
pub open spec fn word() -> int {
    0x1_0000_0000_0000_0000int
}

/// An unsigned 256-bit amount held as four 64-bit words, least significant first.
#[derive(Clone, Copy, Debug)]
pub struct U256 {
    pub limbs: [u64; 4],
}

impl U256 {
    /// The number that the words stand for.
    pub open spec fn value(&self) -> int {
        self.limbs@[0] + word() * (self.limbs@[1] + word() * (self.limbs@[2] + word()
            * self.limbs@[3]))
    }

    pub fn from_u64(n: u64) -> (r: U256)
        ensures
            r.value() == n,
    {
        U256 { limbs: [n, 0, 0, 0] }
    }
}

/// A transaction as the views and fetch logic read it.
#[derive(Debug)]
pub struct Transaction {
    pub hash: H256,
    pub block_number: Option<u64>,
    pub from: Address,
    pub to: Option<Address>,
    pub value: U256,
    pub gas: U256,
    pub gas_price: Option<U256>,
    pub max_fee_per_gas: Option<U256>,
    pub max_priority_fee_per_gas: Option<U256>,
    pub input: Vec<u8>,
}

/// The receipt of an executed transaction.
#[derive(Clone, Copy, Debug)]
pub struct TransactionReceipt {
    pub transaction_hash: H256,
    pub gas_used: Option<U256>,
    pub effective_gas_price: Option<U256>,
    pub status: Option<u64>,
}

/// A validator withdrawal recorded in a block.
#[derive(Clone, Copy, Debug)]
pub struct Withdrawal {
    pub index: u64,
    pub validator_index: u64,
    pub address: Address,
    pub amount: U256,
}

/// A block with its full transactions.
#[derive(Debug)]
pub struct Block {
    pub hash: Option<H256>,
    pub parent_hash: H256,
    pub number: Option<u64>,
    pub author: Option<Address>,
    pub timestamp: U256,
    pub gas_used: U256,
    pub gas_limit: U256,
    pub base_fee_per_gas: Option<U256>,
    pub transactions: Vec<Transaction>,
    pub withdrawals: Option<Vec<Withdrawal>>,
}

/// What is known of an account: its resolved name, balance and contract data.
///
/// The contract ABI and source metadata are carried as the JSON text that the
/// chain explorer returned; `None` means not applicable or not found.
#[derive(Debug)]
pub struct AddressInfo {
    pub address: Address,
    pub ens_id: Option<String>,
    pub avatar_url: Option<String>,
    pub contract_abi: Option<String>,
    pub contract_source_code: Option<String>,
    pub balance: U256,
}

/// A transaction together with its receipt and, once fetched, its decoded input.
#[derive(Debug)]
pub struct TransactionWithReceipt {
    pub transaction: Transaction,
    pub transaction_receipt: TransactionReceipt,
    pub decoded_input_data: Option<String>,
}

/// A block together with the receipts of its transactions, where fetched.
#[derive(Debug)]
pub struct BlockWithTransactionReceipts {
    pub block: Block,
    pub transaction_receipts: Option<Vec<TransactionReceipt>>,
}

/// A copy of an optional text.
pub fn clone_text(t: &Option<String>) -> (r: Option<String>)
    ensures
        r == *t,
{
    match t {
        Some(s) => Some(s.clone()),
        None => None,
    }
}

impl Transaction {
    /// The two hold the same values.
    pub open spec fn same_as(&self, o: &Transaction) -> bool {
        &&& self.hash == o.hash
        &&& self.block_number == o.block_number
        &&& self.from == o.from
        &&& self.to == o.to
        &&& self.value == o.value
        &&& self.gas == o.gas
        &&& self.gas_price == o.gas_price
        &&& self.max_fee_per_gas == o.max_fee_per_gas
        &&& self.max_priority_fee_per_gas == o.max_priority_fee_per_gas
        &&& self.input@ == o.input@
    }
}

impl Clone for Transaction {
    fn clone(&self) -> (r: Self)
        ensures
            r.same_as(self),
    {
        let input = self.input.clone();
        proof {
            assert(input@ =~= self.input@);
        }
        Transaction {
            hash: self.hash,
            block_number: self.block_number,
            from: self.from,
            to: self.to,
            value: self.value,
            gas: self.gas,
            gas_price: self.gas_price,
            max_fee_per_gas: self.max_fee_per_gas,
            max_priority_fee_per_gas: self.max_priority_fee_per_gas,
            input,
        }
    }
}

/// Two lists of transactions hold the same values, in order.
pub open spec fn same_transactions(a: Seq<Transaction>, b: Seq<Transaction>) -> bool {
    a.len() == b.len() && forall|i: int| 0 <= i < a.len() ==> (#[trigger] a[i]).same_as(&b[i])
}

/// Two optional lists hold the same values.
pub open spec fn same_opt_vec<T>(a: Option<Vec<T>>, b: Option<Vec<T>>) -> bool {
    match (a, b) {
        (Some(x), Some(y)) => x@ == y@,
        (None, None) => true,
        _ => false,
    }
}

fn clone_copies<T: Copy>(v: &Option<Vec<T>>) -> (r: Option<Vec<T>>)
    ensures
        same_opt_vec(r, *v),
{
    match v {
        Some(w) => {
            let mut c: Vec<T> = Vec::new();
            let mut i: usize = 0;
            while i < w.len()
                invariant
                    0 <= i <= w@.len(),
                    c@ =~= w@.subrange(0, i as int),
                decreases w@.len() - i,
            {
                c.push(w[i]);
                i = i + 1;
            }
            proof {
                assert(c@ =~= w@);
            }
            Some(c)
        },
        None => None,
    }
}

impl Block {
    /// The two hold the same values.
    pub open spec fn same_as(&self, o: &Block) -> bool {
        &&& self.hash == o.hash
        &&& self.parent_hash == o.parent_hash
        &&& self.number == o.number
        &&& self.author == o.author
        &&& self.timestamp == o.timestamp
        &&& self.gas_used == o.gas_used
        &&& self.gas_limit == o.gas_limit
        &&& self.base_fee_per_gas == o.base_fee_per_gas
        &&& same_transactions(self.transactions@, o.transactions@)
        &&& same_opt_vec(self.withdrawals, o.withdrawals)
    }
}

impl Clone for Block {
    fn clone(&self) -> (r: Self)
        ensures
            r.same_as(self),
    {
        let mut transactions: Vec<Transaction> = Vec::new();
        let mut i: usize = 0;
        while i < self.transactions.len()
            invariant
                0 <= i <= self.transactions@.len(),
                transactions@.len() == i,
                forall|j: int| 0 <= j < i ==> (#[trigger] transactions@[j]).same_as(&self.transactions@[j]),
            decreases self.transactions@.len() - i,
        {
            transactions.push(self.transactions[i].clone());
            i = i + 1;
        }
        Block {
            hash: self.hash,
            parent_hash: self.parent_hash,
            number: self.number,
            author: self.author,
            timestamp: self.timestamp,
            gas_used: self.gas_used,
            gas_limit: self.gas_limit,
            base_fee_per_gas: self.base_fee_per_gas,
            transactions,
            withdrawals: clone_copies(&self.withdrawals),
        }
    }
}

impl BlockWithTransactionReceipts {
    /// The two hold the same values.
    pub open spec fn same_as(&self, o: &BlockWithTransactionReceipts) -> bool {
        &&& self.block.same_as(&o.block)
        &&& same_opt_vec(self.transaction_receipts, o.transaction_receipts)
    }
}

impl Clone for BlockWithTransactionReceipts {
    fn clone(&self) -> (r: Self)
        ensures
            r.same_as(self),
    {
        BlockWithTransactionReceipts {
            block: self.block.clone(),
            transaction_receipts: clone_copies(&self.transaction_receipts),
        }
    }
}

impl TransactionWithReceipt {
    /// The two hold the same values.
    pub open spec fn same_as(&self, o: &TransactionWithReceipt) -> bool {
        &&& self.transaction.same_as(&o.transaction)
        &&& self.transaction_receipt == o.transaction_receipt
        &&& self.decoded_input_data == o.decoded_input_data
    }
}

impl Clone for TransactionWithReceipt {
    fn clone(&self) -> (r: Self)
        ensures
            r.same_as(self),
    {
        TransactionWithReceipt {
            transaction: self.transaction.clone(),
            transaction_receipt: self.transaction_receipt,
            decoded_input_data: clone_text(&self.decoded_input_data),
        }
    }
}

impl Clone for AddressInfo {
    fn clone(&self) -> (r: Self)
        ensures
            r == *self,
    {
        AddressInfo {
            address: self.address,
            ens_id: clone_text(&self.ens_id),
            avatar_url: clone_text(&self.avatar_url),
            contract_abi: clone_text(&self.contract_abi),
            contract_source_code: clone_text(&self.contract_source_code),
            balance: self.balance,
        }
    }
}

/// A known ERC-20 token.
#[derive(Clone, Debug)]
pub struct ERC20Token {
    pub name: String,
    pub ticker: String,
    pub contract_address: Address,
}

impl ERC20Token {
    /// A token whose contract address is given as text: an optional `0x` and
    /// forty hex digits. `None` when the text is not such an address.
    pub fn new(name: String, ticker: String, contract_address: &str) -> (r: Option<Self>)
        ensures
            r is Some <==> is_fixed_hex(contract_address@, 20),
            r matches Some(t) ==> t.name == name && t.ticker == ticker && forall|i: int|
                0 <= i < 20 ==> t.contract_address@[i] == hex_byte(contract_address@, i),
    {
        match parse_address(contract_address) {
            Some(a) => Some(ERC20Token { name, ticker, contract_address: a }),
            None => None,
        }
    }

    /// The first token in `erc20_tokens` whose contract address is `address`.
    pub fn find_by_address(erc20_tokens: &[Self], address: Address) -> (r: Option<Self>)
        ensures
            r is None <==> forall|i: int|
                0 <= i < erc20_tokens@.len() ==> erc20_tokens@[i].contract_address@ != address@,
            r matches Some(t) ==> exists|i: int|
                0 <= i < erc20_tokens@.len() && erc20_tokens@[i].contract_address@ == address@
                    && t.contract_address@ == address@ && t.name@ == erc20_tokens@[i].name@
                    && t.ticker@ == erc20_tokens@[i].ticker@ && forall|j: int|
                    0 <= j < i ==> erc20_tokens@[j].contract_address@ != address@,
    {
        let mut i: usize = 0;
        while i < erc20_tokens.len()
            invariant
                0 <= i <= erc20_tokens@.len(),
                forall|j: int| 0 <= j < i ==> erc20_tokens@[j].contract_address@ != address@,
            decreases erc20_tokens@.len() - i,
        {
            if erc20_tokens[i].contract_address.same(&address) {
                let t = ERC20Token {
                    name: erc20_tokens[i].name.clone(),
                    ticker: erc20_tokens[i].ticker.clone(),
                    contract_address: erc20_tokens[i].contract_address,
                };
                return Some(t);
            }
            i = i + 1;
        }
        None
    }

    /// The first token in `erc20_tokens` whose ticker is `ticker`.
    pub fn find_by_ticker(erc20_tokens: &[Self], ticker: &str) -> (r: Option<Self>)
        ensures
            r is None <==> forall|i: int|
                0 <= i < erc20_tokens@.len() ==> erc20_tokens@[i].ticker@ != ticker@,
            r matches Some(t) ==> exists|i: int|
                0 <= i < erc20_tokens@.len() && erc20_tokens@[i].ticker@ == ticker@
                    && t.ticker@ == ticker@ && t.name@ == erc20_tokens@[i].name@
                    && t.contract_address@ == erc20_tokens@[i].contract_address@
                    && forall|j: int| 0 <= j < i ==> erc20_tokens@[j].ticker@ != ticker@,
    {
        let mut i: usize = 0;
        while i < erc20_tokens.len()
            invariant
                0 <= i <= erc20_tokens@.len(),
                forall|j: int| 0 <= j < i ==> erc20_tokens@[j].ticker@ != ticker@,
            decreases erc20_tokens@.len() - i,
        {
            if same_text(erc20_tokens[i].ticker.as_str(), ticker) {
                let t = ERC20Token {
                    name: erc20_tokens[i].name.clone(),
                    ticker: erc20_tokens[i].ticker.clone(),
                    contract_address: erc20_tokens[i].contract_address,
                };
                return Some(t);
            }
            i = i + 1;
        }
        None
    }
}

/// Character-wise equality of two strings.
pub fn same_text(a: &str, b: &str) -> (r: bool)
    ensures
        r == (a@ == b@),
{
    let ab = a.as_bytes();
    let bb = b.as_bytes();
    proof {
        vstd::utf8::encode_utf8_decode_utf8(a@);
        vstd::utf8::encode_utf8_decode_utf8(b@);
    }
    if ab.len() != bb.len() {
        return false;
    }
    let mut i: usize = 0;
    while i < ab.len()
        invariant
            0 <= i <= ab@.len(),
            ab@ == a.spec_bytes(),
            bb@ == b.spec_bytes(),
            ab@.len() == bb@.len(),
            forall|j: int| 0 <= j < i ==> ab@[j] == bb@[j],
        decreases ab@.len() - i,
    {
        if ab[i] != bb[i] {
            assert(ab@ != bb@);
            return false;
        }
        i = i + 1;
    }
    assert(ab@ =~= bb@);
    true
}

} // verus!
