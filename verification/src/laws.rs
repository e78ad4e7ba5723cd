//! What holds of the contracts from one call to the next.
//!
//! Each statement is about the functions that say what an operation makes of
//! a state; the operations themselves are bound to those functions by their
//! contracts, and leave the state as it was whenever they fail.
use vstd::prelude::*;
use crate::deployer::{deploy_step, needs_approval, DeployError};
use crate::ledger::deterministic_address;
use crate::scorer::{ScorerCall, ScorerError, ScorerState, MAX_SCORE};
use crate::scorer_factory::{metadata_of, FactoryCall, FactoryError, FactoryState, FactoryWorld};
use crate::value::Value;

verus! {

/// A list without duplicates has none after an element that it lacks was
/// appended.
proof fn lemma_push_keeps_distinct(list: Seq<Seq<u8>>, element: Seq<u8>)
    requires
        list.no_duplicates(),
        !list.contains(element),
    ensures
        list.push(element).no_duplicates(),
{
    let longer = list.push(element);
    assert forall|i: int, j: int| 0 <= i < longer.len() && 0 <= j < longer.len() && i != j implies longer[i]
        != longer[j] by {
        if i < list.len() {
            assert(list.contains(longer[i]));
        }
        if j < list.len() {
            assert(list.contains(longer[j]));
        }
    }
}

/// A list without duplicates has none after an element was taken out, and
/// lacks that element then.
proof fn lemma_remove_keeps_distinct(list: Seq<Seq<u8>>, element: Seq<u8>)
    requires
        list.no_duplicates(),
    ensures
        list.remove_value(element).no_duplicates(),
        !list.remove_value(element).contains(element),
{
    list.index_of_first_ensures(element);
    match list.index_of_first(element) {
        None => {},
        Some(at) => {
            let shorter = list.remove(at);
            assert forall|i: int, j: int|
                0 <= i < shorter.len() && 0 <= j < shorter.len() && i != j implies shorter[i]
                != shorter[j] by {
                let i0 = if i < at {
                    i
                } else {
                    i + 1
                };
                let j0 = if j < at {
                    j
                } else {
                    j + 1
                };
                assert(shorter[i] == list[i0] && shorter[j] == list[j0]);
            }
            assert forall|i: int| 0 <= i < shorter.len() implies shorter[i] != element by {
                let i0 = if i < at {
                    i
                } else {
                    i + 1
                };
                assert(shorter[i] == list[i0]);
                assert(list[i0] != list[at]);
            }
        },
    }
}

/// Once a scorer is initialised, `initialize` fails with `ContractAlreadyInitialized`
/// whatever its arguments and whoever approved, if only none of the three
/// texts is empty (an empty text is reported first).
pub proof fn scorer_initializes_once(
    state: ScorerState,
    approvals: Set<Seq<u8>>,
    creator: Seq<u8>,
    badges: Map<(Seq<char>, Seq<u8>), u32>,
    name: Seq<char>,
    description: Seq<char>,
    icon: Seq<char>,
)
    requires
        state.initialized,
        name.len() > 0,
        description.len() > 0,
        icon.len() > 0,
    ensures
        state.initialize(approvals, creator, badges, name, description, icon) == Err::<
            ScorerState,
            ScorerError,
        >(ScorerError::ContractAlreadyInitialized),
{
}

/// A scorer is initialised after `initialize` has succeeded, and after every
/// call that follows: so no later `initialize` can succeed.
pub proof fn scorer_stays_initialized(state: ScorerState, calls: Seq<ScorerCall>)
    requires
        state.initialized,
    ensures
        state.after_all(calls).initialized,
    decreases calls.len(),
{
    if calls.len() > 0 {
        scorer_stays_initialized(state, calls.drop_last());
    }
}

/// What `initialize` stores: the creator as only manager, no user, the
/// badges and the texts as given; and the scorer is initialised then.
pub proof fn scorer_initialize_stores(
    state: ScorerState,
    approvals: Set<Seq<u8>>,
    creator: Seq<u8>,
    badges: Map<(Seq<char>, Seq<u8>), u32>,
    name: Seq<char>,
    description: Seq<char>,
    icon: Seq<char>,
)
    requires
        state.initialize(approvals, creator, badges, name, description, icon) is Ok,
    ensures
        ({
            let next = state.initialize(approvals, creator, badges, name, description, icon)->Ok_0;
            &&& next.initialized
            &&& next.creator == Some(creator)
            &&& next.manager_list() == seq![creator]
            &&& next.user_map() == Map::<Seq<u8>, bool>::empty()
            &&& next.badge_map() == badges
        }),
{
}

/// Once a factory is initialised, `initialize` fails with
/// `ContractAlreadyInitialized` whatever its arguments and whoever approved.
pub proof fn factory_initializes_once(
    state: FactoryState,
    approvals: Set<Seq<u8>>,
    creator: Seq<u8>,
    wasm_hash: Seq<u8>,
)
    requires
        state.initialized,
    ensures
        state.initialize(approvals, creator, wasm_hash) == Err::<FactoryState, FactoryError>(
            FactoryError::ContractAlreadyInitialized,
        ),
{
}

/// A factory is initialised after `initialize` has succeeded, and after
/// every call that follows.
pub proof fn factory_stays_initialized(world: FactoryWorld, calls: Seq<FactoryCall>)
    requires
        world.factory.initialized,
    ensures
        world.after_all(calls).factory.initialized,
    decreases calls.len(),
{
    if calls.len() > 0 {
        factory_stays_initialized(world, calls.drop_last());
    }
}

/// No call makes a manager of a scorer occur twice.
pub proof fn scorer_call_keeps_managers_distinct(state: ScorerState, call: ScorerCall)
    requires
        state.manager_list().no_duplicates(),
    ensures
        state.after(call).manager_list().no_duplicates(),
{
    match call {
        ScorerCall::AddManager { approvals, sender, manager } => {
            if state.apply(call) is Ok {
                lemma_push_keeps_distinct(state.manager_list(), manager);
            }
        },
        ScorerCall::RemoveManager { approvals, sender, manager } => {
            lemma_remove_keeps_distinct(state.manager_list(), manager);
        },
        ScorerCall::Initialize { approvals, creator, badges, name, description, icon } => {
            assert(seq![creator].no_duplicates());
        },
        _ => {},
    }
}

/// Whatever calls a scorer takes, from the start or from any state whose
/// managers are distinct, no manager occurs twice.
pub proof fn scorer_managers_stay_distinct(state: ScorerState, calls: Seq<ScorerCall>)
    requires
        state.manager_list().no_duplicates(),
    ensures
        state.after_all(calls).manager_list().no_duplicates(),
        ScorerState::blank().manager_list().no_duplicates(),
    decreases calls.len(),
{
    if calls.len() > 0 {
        scorer_managers_stay_distinct(state, calls.drop_last());
        scorer_call_keeps_managers_distinct(state.after_all(calls.drop_last()), calls.last());
    }
}

/// Where the sender may change the managers of a scorer: adding an address
/// that is a manager fails with `ManagerAlreadyExists`, removing one that is
/// none fails with `ManagerNotFound`; adding one that is none puts it last,
/// and removing one that is a manager leaves the others in their order.
pub proof fn scorer_manager_changes(
    state: ScorerState,
    approvals: Set<Seq<u8>>,
    sender: Seq<u8>,
    manager: Seq<u8>,
)
    requires
        state.creator_gate(approvals, sender) is Ok,
    ensures
        state.is_manager(manager) ==> state.add_manager(approvals, sender, manager) == Err::<
            ScorerState,
            ScorerError,
        >(ScorerError::ManagerAlreadyExists),
        !state.is_manager(manager) ==> state.remove_manager(approvals, sender, manager) == Err::<
            ScorerState,
            ScorerError,
        >(ScorerError::ManagerNotFound),
        !state.is_manager(manager) ==> {
            &&& state.add_manager(approvals, sender, manager) is Ok
            &&& state.add_manager(approvals, sender, manager)->Ok_0.manager_list()
                == state.manager_list().push(manager)
        },
        state.is_manager(manager) ==> {
            &&& state.remove_manager(approvals, sender, manager) is Ok
            &&& state.remove_manager(approvals, sender, manager)->Ok_0.manager_list()
                == state.manager_list().remove_value(manager)
        },
{
}

/// No call makes a manager of a factory occur twice.
pub proof fn factory_call_keeps_managers_distinct(world: FactoryWorld, call: FactoryCall)
    requires
        world.factory.manager_list().no_duplicates(),
    ensures
        world.after(call).factory.manager_list().no_duplicates(),
{
    match call {
        FactoryCall::AddManager { approvals, caller, manager } => {
            if world.apply(call) is Ok {
                lemma_push_keeps_distinct(world.factory.manager_list(), manager);
            }
        },
        FactoryCall::RemoveManager { approvals, caller, manager } => {
            lemma_remove_keeps_distinct(world.factory.manager_list(), manager);
        },
        FactoryCall::Initialize { approvals, creator, wasm_hash } => {
            assert(seq![creator].no_duplicates());
        },
        _ => {},
    }
}

/// Whatever calls a factory takes, from the start or from any state whose
/// managers are distinct, no manager occurs twice.
pub proof fn factory_managers_stay_distinct(world: FactoryWorld, calls: Seq<FactoryCall>)
    requires
        world.factory.manager_list().no_duplicates(),
    ensures
        world.after_all(calls).factory.manager_list().no_duplicates(),
        FactoryState::blank().manager_list().no_duplicates(),
    decreases calls.len(),
{
    if calls.len() > 0 {
        factory_managers_stay_distinct(world, calls.drop_last());
        factory_call_keeps_managers_distinct(world.after_all(calls.drop_last()), calls.last());
    }
}

/// Where the caller may change the managers of a factory: adding an address
/// that is a manager fails with `ManagerAlreadyExists`, and removing one that
/// is none fails with `ManagerNotFound` (with `ManagersNotFound` where no
/// list is stored at all).
pub proof fn factory_manager_changes(
    state: FactoryState,
    approvals: Set<Seq<u8>>,
    caller: Seq<u8>,
    manager: Seq<u8>,
)
    requires
        state.manager_gate(approvals, caller) is Ok,
    ensures
        state.is_manager(manager) ==> state.add_manager(approvals, caller, manager) == Err::<
            FactoryState,
            FactoryError,
        >(FactoryError::ManagerAlreadyExists),
        !state.is_manager(manager) && state.managers is Some ==> state.remove_manager(
            approvals,
            caller,
            manager,
        ) == Err::<FactoryState, FactoryError>(FactoryError::ManagerNotFound),
        !state.is_manager(manager) ==> state.remove_manager(approvals, caller, manager) is Err,
        !state.is_manager(manager) ==> {
            &&& state.add_manager(approvals, caller, manager) is Ok
            &&& state.add_manager(approvals, caller, manager)->Ok_0.manager_list()
                == state.manager_list().push(manager)
        },
        state.is_manager(manager) ==> {
            &&& state.remove_manager(approvals, caller, manager) is Ok
            &&& state.remove_manager(approvals, caller, manager)->Ok_0.manager_list()
                == state.manager_list().remove_value(manager)
        },
{
    if state.is_manager(manager) {
        assert(state.managers is Some) by {
            if state.managers is None {
                assert(!Seq::<Seq<u8>>::empty().contains(manager));
            }
        }
    }
}

/// A user that approves and is not active can be added, removed and added
/// again: each step succeeds, the user is active after the first, inactive
/// but still registered after the second, and active after the third.
pub proof fn user_toggles(state: ScorerState, approvals: Set<Seq<u8>>, user: Seq<u8>)
    requires
        approvals.contains(user),
        !state.is_active(user),
    ensures
        ({
            let added = state.add_user(approvals, user);
            let removed = added->Ok_0.remove_user(approvals, user);
            let again = removed->Ok_0.add_user(approvals, user);
            &&& added is Ok
            &&& added->Ok_0.user_map()[user] == true
            &&& removed is Ok
            &&& removed->Ok_0.user_map().contains_key(user)
            &&& removed->Ok_0.user_map()[user] == false
            &&& again is Ok
            &&& again->Ok_0.user_map()[user] == true
            &&& again->Ok_0 == added->Ok_0
        }),
{
    let added = state.add_user(approvals, user)->Ok_0;
    let removed = added.remove_user(approvals, user)->Ok_0;
    let again = removed.add_user(approvals, user)->Ok_0;
    assert(again.user_map() =~= added.user_map());
}

/// An active user cannot be added, and a user that is not active cannot be
/// removed.
pub proof fn user_changes_refused(state: ScorerState, approvals: Set<Seq<u8>>, user: Seq<u8>)
    requires
        approvals.contains(user),
    ensures
        state.is_active(user) ==> state.add_user(approvals, user) == Err::<ScorerState, ScorerError>(
            ScorerError::UserAlreadyExist,
        ),
        !state.is_active(user) ==> state.remove_user(approvals, user) == Err::<
            ScorerState,
            ScorerError,
        >(ScorerError::UserDoesNotExist),
{
}

/// After a badge was added it is held with its score, beside the badges
/// that were there (alone, where there were none); and a manager that
/// approves cannot add a badge of that name and issuer again, whatever score
/// up to `MAX_SCORE` it gives.
pub proof fn badge_is_unique(
    state: ScorerState,
    approvals: Set<Seq<u8>>,
    sender: Seq<u8>,
    name: Seq<char>,
    issuer: Seq<u8>,
    score: u32,
    later_approvals: Set<Seq<u8>>,
    later_sender: Seq<u8>,
    later_score: u32,
)
    requires
        state.add_badge(approvals, sender, name, issuer, score) is Ok,
        later_approvals.contains(later_sender),
        state.is_manager(later_sender),
        later_score <= MAX_SCORE,
    ensures
        ({
            let next = state.add_badge(approvals, sender, name, issuer, score)->Ok_0;
            &&& !state.badge_map().contains_key((name, issuer))
            &&& next.badge_map() == state.badge_map().insert((name, issuer), score)
            &&& next.badge_map()[(name, issuer)] == score
            &&& state.badge_map().dom() == Set::<(Seq<char>, Seq<u8>)>::empty() ==> next.badge_map().dom()
                == Set::<(Seq<char>, Seq<u8>)>::empty().insert((name, issuer))
            &&& next.add_badge(later_approvals, later_sender, name, issuer, later_score) == Err::<
                ScorerState,
                ScorerError,
            >(ScorerError::BadgeAlreadyExists)
        }),
{
}

/// A badge that was removed is gone, and cannot be removed again.
pub proof fn badge_removal(
    state: ScorerState,
    approvals: Set<Seq<u8>>,
    sender: Seq<u8>,
    name: Seq<char>,
    issuer: Seq<u8>,
)
    requires
        state.remove_badge(approvals, sender, name, issuer) is Ok,
    ensures
        ({
            let next = state.remove_badge(approvals, sender, name, issuer)->Ok_0;
            &&& state.badge_map().contains_key((name, issuer))
            &&& next.badge_map() == state.badge_map().remove((name, issuer))
            &&& next.remove_badge(approvals, sender, name, issuer) == Err::<ScorerState, ScorerError>(
                ScorerError::BadgeNotFound,
            )
        }),
{
}

/// Every operation of a scorer that is for the creator or for the managers
/// fails with `Unauthorized` where the sender did not approve, and where it
/// approved but lacks the role.  (For the creator's operations a creator must
/// be stored for the role to be told.)
pub proof fn scorer_gates(
    state: ScorerState,
    approvals: Set<Seq<u8>>,
    sender: Seq<u8>,
    manager: Seq<u8>,
    name: Seq<char>,
    issuer: Seq<u8>,
    score: u32,
)
    requires
        !approvals.contains(sender) || (state.creator is Some && state.creator != Some(sender)
            && !state.is_manager(sender)),
    ensures
        state.add_manager(approvals, sender, manager) == Err::<ScorerState, ScorerError>(
            ScorerError::Unauthorized,
        ),
        state.remove_manager(approvals, sender, manager) == Err::<ScorerState, ScorerError>(
            ScorerError::Unauthorized,
        ),
        state.add_badge(approvals, sender, name, issuer, score) == Err::<ScorerState, ScorerError>(
            ScorerError::Unauthorized,
        ),
        state.remove_badge(approvals, sender, name, issuer) == Err::<ScorerState, ScorerError>(
            ScorerError::Unauthorized,
        ),
{
}

/// The managers of a scorer can be changed by its creator alone, and its
/// badges by its managers alone; its code can be swapped only with the
/// creator's approval, and a user is added or removed only with its own.
pub proof fn scorer_roles(
    state: ScorerState,
    approvals: Set<Seq<u8>>,
    sender: Seq<u8>,
    manager: Seq<u8>,
    name: Seq<char>,
    issuer: Seq<u8>,
    score: u32,
)
    ensures
        state.add_manager(approvals, sender, manager) is Ok || state.remove_manager(
            approvals,
            sender,
            manager,
        ) is Ok ==> approvals.contains(sender) && state.creator == Some(sender),
        state.add_badge(approvals, sender, name, issuer, score) is Ok || state.remove_badge(
            approvals,
            sender,
            name,
            issuer,
        ) is Ok ==> approvals.contains(sender) && state.is_manager(sender),
        state.upgrade(approvals) is Ok ==> state.creator is Some && approvals.contains(
            state.creator->0,
        ),
        state.add_user(approvals, sender) is Ok || state.remove_user(approvals, sender) is Ok
            ==> approvals.contains(sender),
{
}

/// Every operation of a factory that is for its creator and managers fails
/// with `Unauthorized` where the caller did not approve, and where it
/// approved but is neither the creator nor a manager.
pub proof fn factory_gates(
    state: FactoryState,
    approvals: Set<Seq<u8>>,
    caller: Seq<u8>,
    manager: Seq<u8>,
    scorer: Seq<u8>,
)
    requires
        !approvals.contains(caller) || (state.creator is Some && state.creator != Some(caller)
            && !state.is_manager(caller)),
    ensures
        state.add_manager(approvals, caller, manager) == Err::<FactoryState, FactoryError>(
            FactoryError::Unauthorized,
        ),
        state.remove_manager(approvals, caller, manager) == Err::<FactoryState, FactoryError>(
            FactoryError::Unauthorized,
        ),
        state.remove_scorer(approvals, caller, scorer) == Err::<FactoryState, FactoryError>(
            FactoryError::Unauthorized,
        ),
{
}

/// The managers of a factory can be changed by its creator and its managers
/// alone, and a scorer leaves the directory only at the word of a manager;
/// a scorer is created only with the approval of its deployer, unless the
/// factory itself deploys.
pub proof fn factory_roles(
    state: FactoryState,
    ledger: Map<Seq<u8>, Seq<u8>>,
    approvals: Set<Seq<u8>>,
    current_contract: Seq<u8>,
    caller: Seq<u8>,
    manager: Seq<u8>,
    scorer: Seq<u8>,
    salt: Seq<u8>,
    args: Seq<Value>,
    initialized: bool,
)
    ensures
        state.add_manager(approvals, caller, manager) is Ok || state.remove_manager(
            approvals,
            caller,
            manager,
        ) is Ok ==> approvals.contains(caller) && (state.creator == Some(caller) || state.is_manager(
            caller,
        )),
        state.remove_scorer(approvals, caller, scorer) is Ok ==> approvals.contains(caller)
            && state.is_manager(caller),
        state.create_scorer(ledger, approvals, current_contract, caller, salt, args, initialized) is Ok
            ==> approvals.contains(caller) || caller == current_contract,
{
}

/// A deployment that succeeds places the code at the address of the
/// deployer and the salt, and nowhere else; a second deployment by that
/// deployer with that salt fails, whatever else it is given, and with
/// `AddressOccupied` where the deployer may deploy.
pub proof fn deployment_is_not_replayed(
    ledger: Map<Seq<u8>, Seq<u8>>,
    approvals: Set<Seq<u8>>,
    current_contract: Seq<u8>,
    deployer: Seq<u8>,
    wasm_hash: Seq<u8>,
    salt: Seq<u8>,
    later_approvals: Set<Seq<u8>>,
    later_contract: Seq<u8>,
    later_hash: Seq<u8>,
    later_initialized: bool,
)
    requires
        deploy_step(ledger, approvals, current_contract, deployer, wasm_hash, salt, true) is Ok,
    ensures
        ({
            let address = deterministic_address(deployer, salt);
            let next = deploy_step(
                ledger,
                approvals,
                current_contract,
                deployer,
                wasm_hash,
                salt,
                true,
            )->Ok_0;
            let second = deploy_step(
                next,
                later_approvals,
                later_contract,
                deployer,
                later_hash,
                salt,
                later_initialized,
            );
            &&& !ledger.contains_key(address)
            &&& next == ledger.insert(address, wasm_hash)
            &&& second is Err
            &&& !needs_approval(later_contract, deployer) || later_approvals.contains(deployer) ==> second
                == Err::<Map<Seq<u8>, Seq<u8>>, DeployError>(DeployError::AddressOccupied)
        }),
{
}

/// A deployment whose initialiser fails places nothing: it fails, and with
/// `InitializerFailed` where nothing else stood against it; the same
/// deployment with an initialiser that returns succeeds then, with the same
/// salt.
pub proof fn failed_initializer_places_nothing(
    ledger: Map<Seq<u8>, Seq<u8>>,
    approvals: Set<Seq<u8>>,
    current_contract: Seq<u8>,
    deployer: Seq<u8>,
    wasm_hash: Seq<u8>,
    salt: Seq<u8>,
)
    ensures
        deploy_step(ledger, approvals, current_contract, deployer, wasm_hash, salt, false) is Err,
        deploy_step(ledger, approvals, current_contract, deployer, wasm_hash, salt, false) == Err::<
            Map<Seq<u8>, Seq<u8>>,
            DeployError,
        >(DeployError::InitializerFailed) <==> deploy_step(
            ledger,
            approvals,
            current_contract,
            deployer,
            wasm_hash,
            salt,
            true,
        ) is Ok,
{
}

/// After a scorer was created the directory holds it under the name,
/// description and icon that ended the arguments, beside the scorers that
/// were listed (alone, where none was); a manager that approves can remove
/// it, it is gone then, and removing it again fails with `ScorerNotFound`.
pub proof fn directory_follows_creation(
    state: FactoryState,
    ledger: Map<Seq<u8>, Seq<u8>>,
    approvals: Set<Seq<u8>>,
    current_contract: Seq<u8>,
    deployer: Seq<u8>,
    salt: Seq<u8>,
    args: Seq<Value>,
    later_approvals: Set<Seq<u8>>,
    manager: Seq<u8>,
)
    requires
        state.create_scorer(ledger, approvals, current_contract, deployer, salt, args, true) is Ok,
        later_approvals.contains(manager),
        state.is_manager(manager),
    ensures
        ({
            let scorer = deterministic_address(deployer, salt);
            let created = state.create_scorer(
                ledger,
                approvals,
                current_contract,
                deployer,
                salt,
                args,
                true,
            )->Ok_0;
            let removed = created.0.remove_scorer(later_approvals, manager, scorer);
            &&& metadata_of(args) is Some
            &&& created.0.directory() == state.directory().insert(scorer, metadata_of(args)->0)
            &&& state.directory().dom() == Set::<Seq<u8>>::empty() ==> created.0.directory().dom()
                == Set::<Seq<u8>>::empty().insert(scorer)
            &&& created.1.contains_key(scorer)
            &&& removed is Ok
            &&& removed->Ok_0.directory() == state.directory().remove(scorer)
            &&& !removed->Ok_0.directory().contains_key(scorer)
            &&& removed->Ok_0.remove_scorer(later_approvals, manager, scorer) == Err::<
                FactoryState,
                FactoryError,
            >(FactoryError::ScorerNotFound)
        }),
{
    let scorer = deterministic_address(deployer, salt);
    let created = state.create_scorer(ledger, approvals, current_contract, deployer, salt, args, true)->Ok_0;
    let removed = created.0.remove_scorer(later_approvals, manager, scorer)->Ok_0;
    assert(removed.directory() =~= state.directory().remove(scorer));
}

} // verus!
