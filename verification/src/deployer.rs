//! Deployment and initialisation as one atomic step.
use vstd::prelude::*;
use crate::address::{Address, Approvals, Bytes32};
use crate::ledger::{deterministic_address, Ledger};
use crate::value::{Invoked, Value};

verus! {

/// Why a deployment left the ledger as it was.
#[derive(Clone, Copy, Debug, PartialEq, Eq, Structural)]
pub enum DeployError {
    /// The deployer is not the contract at work, and did not approve.
    Unauthorized,
    /// A contract exists at the address of the deployer and the salt.
    AddressOccupied,
    /// The initialiser of the new contract failed.
    InitializerFailed,
}

/// Whether a deployment by `deployer` needs its approval: it does, unless
/// the deployer is the contract at work itself.
pub open spec fn needs_approval(current_contract: Seq<u8>, deployer: Seq<u8>) -> bool {
    deployer != current_contract
}

/// What a deployment makes of the contracts in `ledger`.
pub open spec fn deploy_step(
    ledger: Map<Seq<u8>, Seq<u8>>,
    approvals: Set<Seq<u8>>,
    current_contract: Seq<u8>,
    deployer: Seq<u8>,
    wasm_hash: Seq<u8>,
    salt: Seq<u8>,
    initialized: bool,
) -> Result<Map<Seq<u8>, Seq<u8>>, DeployError> {
    if needs_approval(current_contract, deployer) && !approvals.contains(deployer) {
        Err(DeployError::Unauthorized)
    } else if ledger.contains_key(deterministic_address(deployer, salt)) {
        Err(DeployError::AddressOccupied)
    } else if !initialized {
        Err(DeployError::InitializerFailed)
    } else {
        Ok(ledger.insert(deterministic_address(deployer, salt), wasm_hash))
    }
}

/// Places uploaded code at a deterministic address and initialises it, so
/// that nobody can come between the two.
pub struct Deployer;

impl Deployer {
    /// Whether a deployment by `deployer` needs its approval.
    pub fn needs_approval(current_contract: &Address, deployer: &Address) -> (needed: bool)
        ensures
            needed == needs_approval(current_contract@, deployer@),
    {
        *deployer != *current_contract
    }

    /// Places the code with `wasm_hash` at the address of `deployer` and
    /// `salt`, and hands out that address with what the initialiser returned.
    ///
    /// `current_contract` is the contract that carries out the deployment,
    /// and `init` is how the call of the initialiser on the new contract
    /// ends.  The deployer must have approved, unless it is the contract at
    /// work; the address must be free; and the initialiser must return.
    /// Otherwise no contract is placed.
    pub fn deploy(
        ledger: &mut Ledger,
        approvals: &Approvals,
        current_contract: &Address,
        deployer: Address,
        wasm_hash: Bytes32,
        salt: Bytes32,
        init: Invoked,
    ) -> (result: Result<(Address, Value), DeployError>)
        ensures
            match deploy_step(
                old(ledger)@,
                approvals@,
                current_contract@,
                deployer@,
                wasm_hash@,
                salt@,
                init is Returned,
            ) {
                Ok(next) => {
                    &&& final(ledger)@ == next
                    &&& result matches Ok((address, value))
                    &&& address@ == deterministic_address(deployer@, salt@)
                    &&& init == Invoked::Returned(value)
                },
                Err(error) => {
                    &&& result matches Err(e)
                    &&& e == error
                    &&& *final(ledger) == *old(ledger)
                },
            },
    {
        if Deployer::needs_approval(current_contract, &deployer) && !approvals.includes(&deployer) {
            return Err(DeployError::Unauthorized);
        }
        let address = Ledger::contract_address(&deployer, &salt);
        if ledger.is_occupied(&address) {
            return Err(DeployError::AddressOccupied);
        }
        match init {
            Invoked::Failed => Err(DeployError::InitializerFailed),
            Invoked::Returned(value) => {
                ledger.place(address.clone(), wasm_hash);
                Ok((address, value))
            },
        }
    }
}

} // verus!
