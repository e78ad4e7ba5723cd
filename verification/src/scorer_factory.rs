//! The factory: who may create scorers, and the directory of those created.
use vstd::prelude::*;
use crate::address::{copy_list, id_of, ids, ids_of, position, Address, Approvals, Bytes32};
use crate::deployer::{deploy_step, needs_approval, DeployError, Deployer};
use crate::ledger::{deterministic_address, Ledger};
use crate::table::{Plain, Table};
use crate::value::{Invoked, Value};

verus! {

/// How many arguments at the end of an initialiser's list describe the
/// scorer: its name, its description and its icon, in this order.
pub const METADATA_ARGS: usize = 3;

impl Plain for (String, String, String) {
    fn same(&self, other: &(String, String, String)) -> (same: bool) {
        self.0 == other.0 && self.1 == other.1 && self.2 == other.2
    }

    fn duplicate(&self) -> (copy: (String, String, String)) {
        (self.0.clone(), self.1.clone(), self.2.clone())
    }
}

/// Why a factory left its state, and the ledger, as they were.
#[derive(Clone, Copy, Debug, PartialEq, Eq, Structural)]
pub enum FactoryError {
    /// `initialize` had succeeded before.
    ContractAlreadyInitialized,
    /// The principal did not approve, or lacks the role that the operation asks for.
    Unauthorized,
    /// The address is a manager already.
    ManagerAlreadyExists,
    /// The address is no manager.
    ManagerNotFound,
    /// No list of managers is stored.
    ManagersNotFound,
    /// No creator is stored, where its address was asked for; or no code hash,
    /// where a scorer was to be created.
    ContractCreatorNotFound,
    /// No directory of scorers is stored.
    ScorersWereNotFound,
    /// The directory does not hold the scorer.
    ScorerNotFound,
    /// The initialiser's arguments do not end in name, description and icon.
    InvalidInitArgs,
    /// No creator is stored, where a role was to be checked.
    ScorerFactoryCreatorNotFound,
    /// A contract exists at the address of the deployer and the salt.
    AddressOccupied,
    /// The initialiser of the new scorer failed, or returned a value.
    InitializerFailed,
}

/// What a factory publishes when an operation has changed it.
#[derive(Debug)]
pub enum FactoryEvent {
    ScorerCreated { deployer: Address, scorer: Address, name: String, description: String, icon: String },
    ScorerRemoved { caller: Address, scorer: Address, name: String, description: String, icon: String },
    ManagerAdded { caller: Address, manager: Address },
    ManagerRemoved { caller: Address, manager: Address },
}

impl FactoryEvent {
    /// The pair of topics under which the event is published.
    pub fn topics(&self) -> (topics: (&'static str, &'static str))
        ensures
            topics.0@ == match self {
                FactoryEvent::ScorerCreated { .. } | FactoryEvent::ScorerRemoved { .. } => "scorer"@,
                FactoryEvent::ManagerAdded { .. } | FactoryEvent::ManagerRemoved { .. } => "manager"@,
            },
            topics.1@ == match self {
                FactoryEvent::ScorerCreated { .. } => "create"@,
                FactoryEvent::ManagerAdded { .. } => "add"@,
                FactoryEvent::ScorerRemoved { .. } | FactoryEvent::ManagerRemoved { .. } => "remove"@,
            },
    {
        match self {
            FactoryEvent::ScorerCreated { .. } => ("scorer", "create"),
            FactoryEvent::ScorerRemoved { .. } => ("scorer", "remove"),
            FactoryEvent::ManagerAdded { .. } => ("manager", "add"),
            FactoryEvent::ManagerRemoved { .. } => ("manager", "remove"),
        }
    }
}

/// Name, description and icon of a scorer, as the last three of `args` give
/// them; `None` where `args` has fewer than three values or one of the last
/// three is no text.
pub open spec fn metadata_of(args: Seq<Value>) -> Option<(Seq<char>, Seq<char>, Seq<char>)> {
    if args.len() < METADATA_ARGS {
        None
    } else {
        match (
            args[args.len() - 3].text(),
            args[args.len() - 2].text(),
            args[args.len() - 1].text(),
        ) {
            (Some(name), Some(description), Some(icon)) => Some((name, description, icon)),
            _ => None,
        }
    }
}

/// Name, description and icon of a scorer, read from the end of `args`.
pub fn scorer_metadata(args: &Vec<Value>) -> (metadata: Option<(String, String, String)>)
    ensures
        match metadata_of(args@) {
            Some(held) => metadata matches Some(found) && found@ == held,
            None => metadata is None,
        },
{
    let n = args.len();
    if n < METADATA_ARGS {
        return None;
    }
    match (args[n - 3].as_text(), args[n - 2].as_text(), args[n - 1].as_text()) {
        (Some(name), Some(description), Some(icon)) => Some((name, description, icon)),
        _ => None,
    }
}

/// What a factory stores, slot by slot.  A slot that was never written is `None`.
pub struct FactoryState {
    pub initialized: bool,
    pub creator: Option<Seq<u8>>,
    pub managers: Option<Seq<Seq<u8>>>,
    pub wasm_hash: Option<Seq<u8>>,
    pub scorers: Option<Map<Seq<u8>, (Seq<char>, Seq<char>, Seq<char>)>>,
}

impl FactoryState {
    /// The state in which no slot was written.
    pub open spec fn blank() -> FactoryState {
        FactoryState { initialized: false, creator: None, managers: None, wasm_hash: None, scorers: None }
    }

    /// The managers, in the order in which they were added.
    pub open spec fn manager_list(self) -> Seq<Seq<u8>> {
        match self.managers {
            Some(list) => list,
            None => Seq::empty(),
        }
    }

    /// The directory: each scorer that the factory created and still lists,
    /// with its name, description and icon.
    pub open spec fn directory(self) -> Map<Seq<u8>, (Seq<char>, Seq<char>, Seq<char>)> {
        match self.scorers {
            Some(scorers) => scorers,
            None => Map::empty(),
        }
    }

    /// Whether `address` is a manager.
    pub open spec fn is_manager(self, address: Seq<u8>) -> bool {
        self.manager_list().contains(address)
    }

    /// What `initialize` makes of this state.
    pub open spec fn initialize(
        self,
        approvals: Set<Seq<u8>>,
        creator: Seq<u8>,
        wasm_hash: Seq<u8>,
    ) -> Result<FactoryState, FactoryError> {
        if self.initialized {
            Err(FactoryError::ContractAlreadyInitialized)
        } else if !approvals.contains(creator) {
            Err(FactoryError::Unauthorized)
        } else {
            Ok(
                FactoryState {
                    initialized: true,
                    creator: Some(creator),
                    managers: Some(seq![creator]),
                    wasm_hash: Some(wasm_hash),
                    scorers: Some(Map::empty()),
                },
            )
        }
    }

    /// Whether `caller` may change the managers, and why not: it must have
    /// approved, and be the creator or a manager.
    pub open spec fn manager_gate(
        self,
        approvals: Set<Seq<u8>>,
        caller: Seq<u8>,
    ) -> Result<(), FactoryError> {
        if !approvals.contains(caller) {
            Err(FactoryError::Unauthorized)
        } else if self.creator is None {
            Err(FactoryError::ScorerFactoryCreatorNotFound)
        } else if self.creator != Some(caller) && !self.is_manager(caller) {
            Err(FactoryError::Unauthorized)
        } else {
            Ok(())
        }
    }

    /// What `add_manager` makes of this state.
    pub open spec fn add_manager(
        self,
        approvals: Set<Seq<u8>>,
        caller: Seq<u8>,
        manager: Seq<u8>,
    ) -> Result<FactoryState, FactoryError> {
        match self.manager_gate(approvals, caller) {
            Err(e) => Err(e),
            Ok(_) => if self.is_manager(manager) {
                Err(FactoryError::ManagerAlreadyExists)
            } else {
                Ok(FactoryState { managers: Some(self.manager_list().push(manager)), ..self })
            },
        }
    }

    /// What `remove_manager` makes of this state.
    pub open spec fn remove_manager(
        self,
        approvals: Set<Seq<u8>>,
        caller: Seq<u8>,
        manager: Seq<u8>,
    ) -> Result<FactoryState, FactoryError> {
        match self.manager_gate(approvals, caller) {
            Err(e) => Err(e),
            Ok(_) => if self.managers is None {
                Err(FactoryError::ManagersNotFound)
            } else if !self.is_manager(manager) {
                Err(FactoryError::ManagerNotFound)
            } else {
                Ok(
                    FactoryState {
                        managers: Some(self.manager_list().remove_value(manager)),
                        ..self
                    },
                )
            },
        }
    }

    /// What `remove_scorer` makes of this state.
    pub open spec fn remove_scorer(
        self,
        approvals: Set<Seq<u8>>,
        caller: Seq<u8>,
        scorer: Seq<u8>,
    ) -> Result<FactoryState, FactoryError> {
        if !approvals.contains(caller) || !self.is_manager(caller) {
            Err(FactoryError::Unauthorized)
        } else if self.scorers is None {
            Err(FactoryError::ScorersWereNotFound)
        } else if !self.directory().contains_key(scorer) {
            Err(FactoryError::ScorerNotFound)
        } else {
            Ok(FactoryState { scorers: Some(self.directory().remove(scorer)), ..self })
        }
    }

    /// What stands against the creation of a scorer before anything is
    /// deployed, or else the hash of the code to deploy.
    pub open spec fn plan_scorer(
        self,
        approvals: Set<Seq<u8>>,
        current_contract: Seq<u8>,
        deployer: Seq<u8>,
        args: Seq<Value>,
    ) -> Result<Seq<u8>, FactoryError> {
        if needs_approval(current_contract, deployer) && !approvals.contains(deployer) {
            Err(FactoryError::Unauthorized)
        } else if metadata_of(args) is None {
            Err(FactoryError::InvalidInitArgs)
        } else {
            match self.wasm_hash {
                None => Err(FactoryError::ContractCreatorNotFound),
                Some(hash) => Ok(hash),
            }
        }
    }

    /// The state with `scorer` listed under `metadata`.
    pub open spec fn record_scorer(
        self,
        scorer: Seq<u8>,
        metadata: (Seq<char>, Seq<char>, Seq<char>),
    ) -> FactoryState {
        FactoryState { scorers: Some(self.directory().insert(scorer, metadata)), ..self }
    }

    /// What `create_scorer` makes of this state and of the contracts in `ledger`.
    pub open spec fn create_scorer(
        self,
        ledger: Map<Seq<u8>, Seq<u8>>,
        approvals: Set<Seq<u8>>,
        current_contract: Seq<u8>,
        deployer: Seq<u8>,
        salt: Seq<u8>,
        args: Seq<Value>,
        initialized: bool,
    ) -> Result<(FactoryState, Map<Seq<u8>, Seq<u8>>), FactoryError> {
        match self.plan_scorer(approvals, current_contract, deployer, args) {
            Err(e) => Err(e),
            Ok(hash) => match deploy_step(
                ledger,
                approvals,
                current_contract,
                deployer,
                hash,
                salt,
                initialized,
            ) {
                Err(DeployError::Unauthorized) => Err(FactoryError::Unauthorized),
                Err(DeployError::AddressOccupied) => Err(FactoryError::AddressOccupied),
                Err(DeployError::InitializerFailed) => Err(FactoryError::InitializerFailed),
                Ok(contracts) => Ok(
                    (
                        self.record_scorer(
                            deterministic_address(deployer, salt),
                            metadata_of(args)->0,
                        ),
                        contracts,
                    ),
                ),
            },
        }
    }
}

/// A factory together with the contracts that exist.
pub struct FactoryWorld {
    pub factory: FactoryState,
    pub ledger: Map<Seq<u8>, Seq<u8>>,
}

/// One call that may change a factory, with the approvals that accompany it.
pub enum FactoryCall {
    Initialize { approvals: Set<Seq<u8>>, creator: Seq<u8>, wasm_hash: Seq<u8> },
    AddManager { approvals: Set<Seq<u8>>, caller: Seq<u8>, manager: Seq<u8> },
    RemoveManager { approvals: Set<Seq<u8>>, caller: Seq<u8>, manager: Seq<u8> },
    CreateScorer {
        approvals: Set<Seq<u8>>,
        current_contract: Seq<u8>,
        deployer: Seq<u8>,
        salt: Seq<u8>,
        args: Seq<Value>,
        initialized: bool,
    },
    RemoveScorer { approvals: Set<Seq<u8>>, caller: Seq<u8>, scorer: Seq<u8> },
}

impl FactoryWorld {
    /// What `call` makes of the factory and the ledger.
    pub open spec fn apply(self, call: FactoryCall) -> Result<FactoryWorld, FactoryError> {
        match call {
            FactoryCall::Initialize { approvals, creator, wasm_hash } => match self.factory.initialize(
                approvals,
                creator,
                wasm_hash,
            ) {
                Ok(factory) => Ok(FactoryWorld { factory, ..self }),
                Err(e) => Err(e),
            },
            FactoryCall::AddManager { approvals, caller, manager } => match self.factory.add_manager(
                approvals,
                caller,
                manager,
            ) {
                Ok(factory) => Ok(FactoryWorld { factory, ..self }),
                Err(e) => Err(e),
            },
            FactoryCall::RemoveManager { approvals, caller, manager } => match self.factory.remove_manager(
                approvals,
                caller,
                manager,
            ) {
                Ok(factory) => Ok(FactoryWorld { factory, ..self }),
                Err(e) => Err(e),
            },
            FactoryCall::CreateScorer {
                approvals,
                current_contract,
                deployer,
                salt,
                args,
                initialized,
            } => match self.factory.create_scorer(
                self.ledger,
                approvals,
                current_contract,
                deployer,
                salt,
                args,
                initialized,
            ) {
                Ok((factory, ledger)) => Ok(FactoryWorld { factory, ledger }),
                Err(e) => Err(e),
            },
            FactoryCall::RemoveScorer { approvals, caller, scorer } => match self.factory.remove_scorer(
                approvals,
                caller,
                scorer,
            ) {
                Ok(factory) => Ok(FactoryWorld { factory, ..self }),
                Err(e) => Err(e),
            },
        }
    }

    /// The factory and the ledger after `call`: a call that fails changes nothing.
    pub open spec fn after(self, call: FactoryCall) -> FactoryWorld {
        match self.apply(call) {
            Ok(next) => next,
            Err(_) => self,
        }
    }

    /// The factory and the ledger after `calls`, one after the other.
    pub open spec fn after_all(self, calls: Seq<FactoryCall>) -> FactoryWorld
        decreases calls.len(),
    {
        if calls.len() == 0 {
            self
        } else {
            self.after_all(calls.drop_last()).after(calls.last())
        }
    }
}

/// One factory: the slots that it has written so far.
#[derive(Debug)]
pub struct ScorerFactoryContract {
    initialized: bool,
    creator: Option<Address>,
    managers: Option<Vec<Address>>,
    wasm_hash: Option<Bytes32>,
    scorers: Option<Table<Address, (String, String, String)>>,
}

impl View for ScorerFactoryContract {
    type V = FactoryState;

    closed spec fn view(&self) -> FactoryState {
        FactoryState {
            initialized: self.initialized,
            creator: match self.creator {
                Some(creator) => Some(creator@),
                None => None,
            },
            managers: match self.managers {
                Some(list) => Some(ids(list@)),
                None => None,
            },
            wasm_hash: match self.wasm_hash {
                Some(hash) => Some(hash@),
                None => None,
            },
            scorers: match self.scorers {
                Some(scorers) => Some(scorers@),
                None => None,
            },
        }
    }
}

impl ScorerFactoryContract {
    /// A factory that has stored nothing yet.
    pub fn new() -> (factory: ScorerFactoryContract)
        ensures
            factory@ == FactoryState::blank(),
    {
        ScorerFactoryContract {
            initialized: false,
            creator: None,
            managers: None,
            wasm_hash: None,
            scorers: None,
        }
    }

    /// The factory that has stored what is given, slot by slot; `None` for a
    /// slot that was never written.
    pub fn restore(
        initialized: bool,
        creator: Option<Address>,
        managers: Option<Vec<Address>>,
        wasm_hash: Option<Bytes32>,
        scorers: Option<Table<Address, (String, String, String)>>,
    ) -> (factory: ScorerFactoryContract)
        ensures
            factory@ == (FactoryState {
                initialized,
                creator: id_of(creator),
                managers: ids_of(managers),
                wasm_hash: match wasm_hash {
                    Some(hash) => Some(hash@),
                    None => None,
                },
                scorers: match scorers {
                    Some(scorers) => Some(scorers@),
                    None => None,
                },
            }),
    {
        ScorerFactoryContract { initialized, creator, managers, wasm_hash, scorers }
    }

    /// Tests all that stands against the creation of a scorer before
    /// anything is deployed, and hands out the hash of the code to deploy
    /// with the name, description and icon that end `init_args`.
    ///
    /// `deployer` must have approved, unless it is the factory itself;
    /// `init_args` must end in three texts; and a code hash must be stored.
    /// The three are tested in this order.
    pub fn plan_scorer(
        &self,
        approvals: &Approvals,
        current_contract: &Address,
        deployer: &Address,
        init_args: &Vec<Value>,
    ) -> (result: Result<(Bytes32, (String, String, String)), FactoryError>)
        ensures
            match self@.plan_scorer(approvals@, current_contract@, deployer@, init_args@) {
                Ok(hash) => {
                    &&& result matches Ok((code, metadata))
                    &&& code@ == hash
                    &&& Some(metadata@) == metadata_of(init_args@)
                },
                Err(error) => result matches Err(e) && e == error,
            },
    {
        if Deployer::needs_approval(current_contract, deployer) && !approvals.includes(deployer) {
            return Err(FactoryError::Unauthorized);
        }
        let metadata = match scorer_metadata(init_args) {
            Some(metadata) => metadata,
            None => {
                return Err(FactoryError::InvalidInitArgs);
            },
        };
        match &self.wasm_hash {
            Some(hash) => Ok((*hash, metadata)),
            None => Err(FactoryError::ContractCreatorNotFound),
        }
    }

    /// Lists `scorer` in the directory under `metadata`, and says what to
    /// publish about its creation by `deployer`.
    pub fn record_scorer(
        &mut self,
        deployer: Address,
        scorer: Address,
        metadata: (String, String, String),
    ) -> (event: FactoryEvent)
        ensures
            final(self)@ == old(self)@.record_scorer(scorer@, metadata@),
            ({
                &&& event matches FactoryEvent::ScorerCreated {
                    deployer: by,
                    scorer: listed,
                    name,
                    description,
                    icon,
                }
                &&& by@ == deployer@
                &&& listed@ == scorer@
                &&& (name@, description@, icon@) == metadata@
            }),
    {
        let mut scorers = match self.scorers.take() {
            Some(scorers) => scorers,
            None => Table::new(),
        };
        scorers.set(scorer.clone(), metadata.duplicate());
        self.scorers = Some(scorers);
        FactoryEvent::ScorerCreated {
            deployer,
            scorer,
            name: metadata.0,
            description: metadata.1,
            icon: metadata.2,
        }
    }

    /// Deploys a scorer at the address of `deployer` and `salt`, initialises
    /// it, and lists it in the directory under the name, description and
    /// icon that end `init_args`.
    ///
    /// `current_contract` is the address of the factory, `ledger` holds the
    /// contracts that exist, and `init` is how the call of the scorer's
    /// initialiser with `init_args` ends: it must return nothing.  What
    /// stands against the creation is tested as `plan_scorer` and then
    /// `Deployer::deploy` do.  On an error neither the factory nor the ledger
    /// has changed.  Any deployer that approved can create a scorer: it need
    /// not be a manager.
    pub fn create_scorer(
        &mut self,
        ledger: &mut Ledger,
        approvals: &Approvals,
        current_contract: &Address,
        deployer: Address,
        salt: Bytes32,
        init_args: Vec<Value>,
        init: Invoked,
    ) -> (result: Result<(Address, FactoryEvent), FactoryError>)
        ensures
            match old(self)@.create_scorer(
                old(ledger)@,
                approvals@,
                current_contract@,
                deployer@,
                salt@,
                init_args@,
                init == Invoked::Returned(Value::Void),
            ) {
                Ok((next, contracts)) => {
                    &&& final(self)@ == next
                    &&& final(ledger)@ == contracts
                    &&& result matches Ok(
                        (
                            address,
                            FactoryEvent::ScorerCreated { deployer: by, scorer, name, description, icon },
                        ),
                    )
                    &&& address@ == deterministic_address(deployer@, salt@)
                    &&& scorer@ == address@
                    &&& by@ == deployer@
                    &&& Some((name@, description@, icon@)) == metadata_of(init_args@)
                },
                Err(error) => {
                    &&& result matches Err(e)
                    &&& e == error
                    &&& *final(self) == *old(self)
                    &&& *final(ledger) == *old(ledger)
                },
            },
    {
        let (wasm_hash, metadata) = match self.plan_scorer(
            approvals,
            current_contract,
            &deployer,
            &init_args,
        ) {
            Ok(plan) => plan,
            Err(error) => {
                return Err(error);
            },
        };
        let init = match init {
            Invoked::Returned(Value::Void) => Invoked::Returned(Value::Void),
            _ => Invoked::Failed,
        };
        match Deployer::deploy(
            ledger,
            approvals,
            current_contract,
            deployer.clone(),
            wasm_hash,
            salt,
            init,
        ) {
            Err(DeployError::Unauthorized) => Err(FactoryError::Unauthorized),
            Err(DeployError::AddressOccupied) => Err(FactoryError::AddressOccupied),
            Err(DeployError::InitializerFailed) => Err(FactoryError::InitializerFailed),
            Ok((address, _)) => {
                let event = self.record_scorer(deployer, address.clone(), metadata);
                Ok((address, event))
            },
        }
    }

    /// Takes `scorer_address` out of the directory.  The event carries the
    /// name, description and icon under which it was listed.
    ///
    /// `caller` must have approved and be a manager, a directory must be
    /// stored, and it must hold the scorer.
    pub fn remove_scorer(
        &mut self,
        approvals: &Approvals,
        caller: Address,
        scorer_address: Address,
    ) -> (result: Result<FactoryEvent, FactoryError>)
        ensures
            match old(self)@.remove_scorer(approvals@, caller@, scorer_address@) {
                Ok(next) => {
                    &&& final(self)@ == next
                    &&& result matches Ok(
                        FactoryEvent::ScorerRemoved { caller: by, scorer, name, description, icon },
                    )
                    &&& by@ == caller@
                    &&& scorer@ == scorer_address@
                    &&& (name@, description@, icon@) == old(self)@.directory()[scorer_address@]
                },
                Err(error) => {
                    &&& result matches Err(e)
                    &&& e == error
                    &&& *final(self) == *old(self)
                },
            },
    {
        if !approvals.includes(&caller) || !self.is_manager(&caller) {
            return Err(FactoryError::Unauthorized);
        }
        let held = match &self.scorers {
            None => {
                return Err(FactoryError::ScorersWereNotFound);
            },
            Some(scorers) => scorers.contains_key(&scorer_address),
        };
        if !held {
            return Err(FactoryError::ScorerNotFound);
        }
        let mut scorers = match self.scorers.take() {
            Some(scorers) => scorers,
            None => Table::new(),
        };
        let metadata = match scorers.remove(&scorer_address) {
            Some(metadata) => metadata,
            None => (String::new(), String::new(), String::new()),
        };
        self.scorers = Some(scorers);
        Ok(
            FactoryEvent::ScorerRemoved {
                caller,
                scorer: scorer_address,
                name: metadata.0,
                description: metadata.1,
                icon: metadata.2,
            },
        )
    }

    /// Tests that `caller` approved and is the creator or a manager.
    fn manager_gate(&self, approvals: &Approvals, caller: &Address) -> (gate: Result<(), FactoryError>)
        ensures
            gate == self@.manager_gate(approvals@, caller@),
    {
        if !approvals.includes(caller) {
            return Err(FactoryError::Unauthorized);
        }
        match self.is_authorized(caller) {
            Err(error) => Err(error),
            Ok(false) => Err(FactoryError::Unauthorized),
            Ok(true) => Ok(()),
        }
    }

    /// Makes `manager` a manager, behind those that are.
    ///
    /// `caller` must have approved and be the creator or a manager, and
    /// `manager` must not be a manager yet.
    pub fn add_manager(
        &mut self,
        approvals: &Approvals,
        caller: Address,
        manager: Address,
    ) -> (result: Result<FactoryEvent, FactoryError>)
        ensures
            match old(self)@.add_manager(approvals@, caller@, manager@) {
                Ok(next) => {
                    &&& final(self)@ == next
                    &&& result matches Ok(FactoryEvent::ManagerAdded { caller: by, manager: added })
                    &&& by@ == caller@
                    &&& added@ == manager@
                },
                Err(error) => {
                    &&& result matches Err(e)
                    &&& e == error
                    &&& *final(self) == *old(self)
                },
            },
    {
        match self.manager_gate(approvals, &caller) {
            Err(error) => {
                return Err(error);
            },
            Ok(_) => {},
        }
        if self.is_manager(&manager) {
            return Err(FactoryError::ManagerAlreadyExists);
        }
        let mut managers = match self.managers.take() {
            Some(list) => list,
            None => Vec::new(),
        };
        let ghost before = managers@;
        managers.push(manager.clone());
        proof {
            assert(ids(managers@) =~= ids(before).push(manager@));
            assert(ids(before) =~= old(self)@.manager_list());
        }
        self.managers = Some(managers);
        Ok(FactoryEvent::ManagerAdded { caller, manager })
    }

    /// Takes `manager` out of the managers; the others keep their order.
    ///
    /// `caller` must have approved and be the creator or a manager, a list
    /// of managers must be stored, and `manager` must be in it.  The last
    /// manager can leave too.
    pub fn remove_manager(
        &mut self,
        approvals: &Approvals,
        caller: Address,
        manager: Address,
    ) -> (result: Result<FactoryEvent, FactoryError>)
        ensures
            match old(self)@.remove_manager(approvals@, caller@, manager@) {
                Ok(next) => {
                    &&& final(self)@ == next
                    &&& result matches Ok(FactoryEvent::ManagerRemoved { caller: by, manager: removed })
                    &&& by@ == caller@
                    &&& removed@ == manager@
                },
                Err(error) => {
                    &&& result matches Err(e)
                    &&& e == error
                    &&& *final(self) == *old(self)
                },
            },
    {
        match self.manager_gate(approvals, &caller) {
            Err(error) => {
                return Err(error);
            },
            Ok(_) => {},
        }
        let found = match &self.managers {
            None => {
                return Err(FactoryError::ManagersNotFound);
            },
            Some(list) => position(list, &manager),
        };
        match found {
            None => Err(FactoryError::ManagerNotFound),
            Some(index) => {
                let mut managers = match self.managers.take() {
                    Some(list) => list,
                    None => Vec::new(),
                };
                let ghost before = managers@;
                managers.remove(index);
                proof {
                    assert(ids(managers@) =~= ids(before).remove(index as int));
                }
                self.managers = Some(managers);
                Ok(FactoryEvent::ManagerRemoved { caller, manager })
            },
        }
    }

    /// Stores the first state of the factory: `scorer_creator` as creator
    /// and only manager, the hash of the scorers' code, and an empty directory.
    ///
    /// The factory must not have been initialised before, and
    /// `scorer_creator` must have approved; the two are tested in this order.
    pub fn initialize(
        &mut self,
        approvals: &Approvals,
        scorer_creator: Address,
        scorer_wasm_hash: Bytes32,
    ) -> (result: Result<(), FactoryError>)
        ensures
            match old(self)@.initialize(approvals@, scorer_creator@, scorer_wasm_hash@) {
                Ok(next) => final(self)@ == next && result is Ok,
                Err(error) => {
                    &&& result matches Err(e)
                    &&& e == error
                    &&& *final(self) == *old(self)
                },
            },
    {
        if self.is_initialized() {
            return Err(FactoryError::ContractAlreadyInitialized);
        }
        if !approvals.includes(&scorer_creator) {
            return Err(FactoryError::Unauthorized);
        }
        let mut managers: Vec<Address> = Vec::new();
        managers.push(scorer_creator.clone());
        proof {
            assert(ids(managers@) =~= seq![scorer_creator@]);
        }
        self.initialized = true;
        self.creator = Some(scorer_creator);
        self.managers = Some(managers);
        self.wasm_hash = Some(scorer_wasm_hash);
        self.scorers = Some(Table::new());
        Ok(())
    }

    /// Whether `initialize` has succeeded on this factory.
    pub fn is_initialized(&self) -> (initialized: bool)
        ensures
            initialized == self@.initialized,
    {
        self.initialized
    }

    /// Whether `address` is the creator of the factory.
    pub fn is_scorer_factory_creator(&self, address: &Address) -> (result: Result<bool, FactoryError>)
        ensures
            match self@.creator {
                Some(creator) => result == Ok::<bool, FactoryError>(creator == address@),
                None => result == Err::<bool, FactoryError>(
                    FactoryError::ScorerFactoryCreatorNotFound,
                ),
            },
    {
        match &self.creator {
            Some(creator) => Ok(*creator == *address),
            None => Err(FactoryError::ScorerFactoryCreatorNotFound),
        }
    }

    /// Whether `address` is a manager.  A factory without a list of managers
    /// has none.
    pub fn is_manager(&self, address: &Address) -> (manager: bool)
        ensures
            manager == self@.is_manager(address@),
    {
        match &self.managers {
            Some(list) => position(list, address).is_some(),
            None => {
                proof {
                    assert(!Seq::<Seq<u8>>::empty().contains(address@));
                }
                false
            },
        }
    }

    /// Whether `caller` is the creator or a manager.
    fn is_authorized(&self, caller: &Address) -> (result: Result<bool, FactoryError>)
        ensures
            match self@.creator {
                Some(creator) => result == Ok::<bool, FactoryError>(
                    creator == caller@ || self@.is_manager(caller@),
                ),
                None => result == Err::<bool, FactoryError>(
                    FactoryError::ScorerFactoryCreatorNotFound,
                ),
            },
    {
        match self.is_scorer_factory_creator(caller) {
            Err(error) => Err(error),
            Ok(true) => Ok(true),
            Ok(false) => Ok(self.is_manager(caller)),
        }
    }

    /// The directory: each listed scorer with its name, description and icon.
    pub fn get_scorers(&self) -> (result: Result<Table<Address, (String, String, String)>, FactoryError>)
        ensures
            match self@.scorers {
                Some(held) => result matches Ok(scorers) && scorers@ == held,
                None => result matches Err(e) && e == FactoryError::ScorersWereNotFound,
            },
    {
        match &self.scorers {
            Some(scorers) => Ok(scorers.clone()),
            None => Err(FactoryError::ScorersWereNotFound),
        }
    }

    /// The managers, in the order in which they were added.
    pub fn get_managers(&self) -> (result: Result<Vec<Address>, FactoryError>)
        ensures
            match self@.managers {
                Some(list) => result matches Ok(managers) && ids(managers@) == list,
                None => result matches Err(e) && e == FactoryError::ManagersNotFound,
            },
    {
        match &self.managers {
            Some(list) => Ok(copy_list(list)),
            None => Err(FactoryError::ManagersNotFound),
        }
    }

    /// The creator of the factory.
    pub fn get_contract_creator(&self) -> (result: Result<Address, FactoryError>)
        ensures
            match self@.creator {
                Some(creator) => result matches Ok(address) && address@ == creator,
                None => result matches Err(e) && e == FactoryError::ContractCreatorNotFound,
            },
    {
        match &self.creator {
            Some(creator) => Ok(creator.clone()),
            None => Err(FactoryError::ContractCreatorNotFound),
        }
    }
}

} // verus!
