//! The contracts that exist, and the addresses at which new ones are placed.
use vstd::prelude::*;
use crate::address::{Address, Bytes32};
use crate::table::Table;

verus! {

/// The address of the contract that `deployer` places with `salt`: the
/// identifier of the deployer followed by the salt.
///
/// The ledger that hosts the contracts may shorten such an address by a hash;
/// here it is kept whole, so that equal pairs give equal addresses and no two
/// pairs share one.
pub open spec fn deterministic_address(deployer: Seq<u8>, salt: Seq<u8>) -> Seq<u8> {
    deployer + salt
}

/// Two pairs with salts of one length have the same address only if they are
/// the same pair.
pub proof fn lemma_address_tells_pair(
    deployer: Seq<u8>,
    salt: Seq<u8>,
    other_deployer: Seq<u8>,
    other_salt: Seq<u8>,
)
    requires
        salt.len() == other_salt.len(),
        deterministic_address(deployer, salt) == deterministic_address(other_deployer, other_salt),
    ensures
        deployer == other_deployer,
        salt == other_salt,
{
    let a = deployer + salt;
    let b = other_deployer + other_salt;
    assert(a.len() == deployer.len() + salt.len());
    assert(b.len() == other_deployer.len() + other_salt.len());
    assert(deployer =~= a.subrange(0, deployer.len() as int));
    assert(other_deployer =~= b.subrange(0, other_deployer.len() as int));
    assert(salt =~= a.subrange(deployer.len() as int, a.len() as int));
    assert(other_salt =~= b.subrange(other_deployer.len() as int, b.len() as int));
}

/// Two deployments are given the same address only if they have the same
/// deployer and the same salt.
pub proof fn address_tells_pair(
    deployer: Address,
    salt: Bytes32,
    other_deployer: Address,
    other_salt: Bytes32,
)
    requires
        deterministic_address(deployer@, salt@) == deterministic_address(
            other_deployer@,
            other_salt@,
        ),
    ensures
        deployer@ == other_deployer@,
        salt@ == other_salt@,
{
    salt.lemma_len();
    other_salt.lemma_len();
    lemma_address_tells_pair(deployer@, salt@, other_deployer@, other_salt@);
}

/// The contracts that exist: each address with the hash of the code that
/// runs there.
#[derive(Debug)]
pub struct Ledger {
    contracts: Table<Address, Bytes32>,
}

impl View for Ledger {
    type V = Map<Seq<u8>, Seq<u8>>;

    closed spec fn view(&self) -> Map<Seq<u8>, Seq<u8>> {
        self.contracts@
    }
}

impl Ledger {
    /// The ledger without contracts.
    pub fn new() -> (ledger: Ledger)
        ensures
            ledger@ == Map::<Seq<u8>, Seq<u8>>::empty(),
    {
        Ledger { contracts: Table::new() }
    }

    /// The address at which `deployer` places a contract with `salt`.
    pub fn contract_address(deployer: &Address, salt: &Bytes32) -> (address: Address)
        ensures
            address@ == deterministic_address(deployer@, salt@),
    {
        deployer.extended(salt.as_bytes())
    }

    /// Whether a contract exists at `address`.
    pub fn is_occupied(&self, address: &Address) -> (occupied: bool)
        ensures
            occupied == self@.contains_key(address@),
    {
        self.contracts.contains_key(address)
    }

    /// The hash of the code that runs at `address`.
    pub fn code_at(&self, address: &Address) -> (code: Option<Bytes32>)
        ensures
            match code {
                Some(hash) => self@.contains_key(address@) && hash@ == self@[address@],
                None => !self@.contains_key(address@),
            },
    {
        self.contracts.get(address)
    }

    /// The number of contracts that exist.
    pub fn len(&self) -> (n: usize)
        ensures
            self@.dom().finite(),
            n == self@.dom().len(),
    {
        self.contracts.len()
    }

    /// Lets the code with `wasm_hash` run at `address` from now on.
    pub(crate) fn place(&mut self, address: Address, wasm_hash: Bytes32)
        ensures
            final(self)@ == old(self)@.insert(address@, wasm_hash@),
    {
        self.contracts.set(address, wasm_hash);
    }
}

} // verus!
