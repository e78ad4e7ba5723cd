use trustful_stellar::{
    Address, Approvals, BadgeId, Bytes32, DeployError, Deployer, Invoked, Ledger, ScorerContract,
    Table, Value,
};

fn address(id: &str) -> Address {
    Address::from_bytes(id.as_bytes())
}

fn text(s: &str) -> String {
    String::from(s)
}

/// Runs the scorer's initialiser as the ledger would on a fresh contract.
fn initialise_scorer(approvals: &Approvals, creator: &Address) -> (ScorerContract, Invoked) {
    let mut scorer_badges: Table<BadgeId, u32> = Table::new();
    scorer_badges.set(BadgeId { name: text("Test Badge"), issuer: creator.clone() }, 100);
    let mut scorer = ScorerContract::new();
    let outcome = match scorer.initialize(
        approvals,
        creator.clone(),
        scorer_badges,
        text("Test Scorer"),
        text("A test scorer contract"),
        text("image.png"),
    ) {
        Ok(_) => Invoked::Returned(Value::Void),
        Err(_) => Invoked::Failed,
    };
    (scorer, outcome)
}

#[test]
fn deployer_test_deploy_scorer() {
    let scorer_creator = address("GCREATOR");
    let deployer_address = address("CDEPLOYER");
    let approvals = Approvals::of(&scorer_creator);
    let mut ledger = Ledger::new();

    let wasm_hash = Bytes32::from_array([9u8; 32]);
    let salt = Bytes32::from_array([3u8; 32]);
    let (scorer, init) = initialise_scorer(&approvals, &scorer_creator);

    let (scorer_address, returned) = Deployer::deploy(
        &mut ledger,
        &approvals,
        &deployer_address,
        scorer_creator.clone(),
        wasm_hash,
        salt,
        init,
    )
    .unwrap();

    assert!(returned.is_void());
    assert!(ledger.is_occupied(&scorer_address));
    assert_eq!(ledger.code_at(&scorer_address).unwrap().to_array(), [9u8; 32]);
    assert!(scorer.is_initialized());
}

#[test]
fn deployed_address_is_deployer_then_salt() {
    let deployer = address("GABC");
    let salt = Bytes32::from_array([1u8; 32]);
    let derived = Ledger::contract_address(&deployer, &salt);

    let mut expected = b"GABC".to_vec();
    expected.extend_from_slice(&[1u8; 32]);
    assert_eq!(derived.as_bytes(), expected.as_slice());
    assert_eq!(derived, Address::from_bytes(&expected));

    // Another salt or another deployer gives another address.
    assert_ne!(derived, Ledger::contract_address(&deployer, &Bytes32::from_array([2u8; 32])));
    assert_ne!(derived, Ledger::contract_address(&address("GABD"), &salt));
    // The same pair gives the same address.
    assert_eq!(derived, Ledger::contract_address(&address("GABC"), &Bytes32::from_array([1u8; 32])));
}

#[test]
fn deploy_returns_the_derived_address_and_the_value() {
    let deployer = address("GDEPLOYER");
    let current = address("CCONTRACT");
    let mut ledger = Ledger::new();
    let salt = Bytes32::from_array([5u8; 32]);

    let (placed, value) = Deployer::deploy(
        &mut ledger,
        &Approvals::of(&deployer),
        &current,
        deployer.clone(),
        Bytes32::from_array([8u8; 32]),
        salt,
        Invoked::Returned(Value::U32(42)),
    )
    .unwrap();

    assert_eq!(placed, Ledger::contract_address(&deployer, &salt));
    assert!(matches!(value, Value::U32(42)));
    assert_eq!(ledger.len(), 1);
}

#[test]
fn second_deploy_with_same_salt_fails() {
    let deployer = address("GDEPLOYER");
    let current = address("CCONTRACT");
    let approvals = Approvals::of(&deployer);
    let mut ledger = Ledger::new();
    let salt = Bytes32::from_array([5u8; 32]);

    let (placed, _) = Deployer::deploy(
        &mut ledger,
        &approvals,
        &current,
        deployer.clone(),
        Bytes32::from_array([8u8; 32]),
        salt,
        Invoked::Returned(Value::Void),
    )
    .unwrap();

    // Other code, same deployer and salt.
    let again = Deployer::deploy(
        &mut ledger,
        &approvals,
        &current,
        deployer.clone(),
        Bytes32::from_array([7u8; 32]),
        salt,
        Invoked::Returned(Value::Void),
    );
    assert!(matches!(again, Err(DeployError::AddressOccupied)));
    assert_eq!(ledger.len(), 1);
    assert_eq!(ledger.code_at(&placed).unwrap().to_array(), [8u8; 32]);

    // Another salt is free.
    let other = Deployer::deploy(
        &mut ledger,
        &approvals,
        &current,
        deployer.clone(),
        Bytes32::from_array([7u8; 32]),
        Bytes32::from_array([6u8; 32]),
        Invoked::Returned(Value::Void),
    );
    assert!(other.is_ok());
    assert_eq!(ledger.len(), 2);
}

#[test]
fn failed_initialiser_leaves_the_address_free() {
    let deployer = address("GDEPLOYER");
    let current = address("CCONTRACT");
    let approvals = Approvals::of(&deployer);
    let mut ledger = Ledger::new();
    let salt = Bytes32::from_array([5u8; 32]);
    let wasm_hash = Bytes32::from_array([8u8; 32]);

    let failed = Deployer::deploy(
        &mut ledger,
        &approvals,
        &current,
        deployer.clone(),
        wasm_hash,
        salt,
        Invoked::Failed,
    );
    assert!(matches!(failed, Err(DeployError::InitializerFailed)));
    assert_eq!(ledger.len(), 0);
    assert!(!ledger.is_occupied(&Ledger::contract_address(&deployer, &salt)));

    let retried = Deployer::deploy(
        &mut ledger,
        &approvals,
        &current,
        deployer.clone(),
        wasm_hash,
        salt,
        Invoked::Returned(Value::Void),
    );
    assert!(retried.is_ok());
    assert!(ledger.is_occupied(&Ledger::contract_address(&deployer, &salt)));
}

#[test]
fn an_initialiser_that_rejects_its_arguments_fails_the_deploy() {
    let creator = address("GCREATOR");
    let current = address("CCONTRACT");
    let mut ledger = Ledger::new();
    // The creator approved the deployment, but the scorer asks for the
    // approval of the creator it is given, and that one is missing.
    let (scorer, init) = initialise_scorer(&Approvals::none(), &creator);
    assert!(!scorer.is_initialized());

    let result = Deployer::deploy(
        &mut ledger,
        &Approvals::of(&creator),
        &current,
        creator.clone(),
        Bytes32::from_array([8u8; 32]),
        Bytes32::from_array([0u8; 32]),
        init,
    );
    assert!(matches!(result, Err(DeployError::InitializerFailed)));
    assert_eq!(ledger.len(), 0);
}

#[test]
fn deploy_needs_the_deployers_approval() {
    let deployer = address("GDEPLOYER");
    let current = address("CCONTRACT");
    let mut ledger = Ledger::new();

    let result = Deployer::deploy(
        &mut ledger,
        &Approvals::of(&address("GOTHER")),
        &current,
        deployer.clone(),
        Bytes32::from_array([8u8; 32]),
        Bytes32::from_array([0u8; 32]),
        Invoked::Returned(Value::Void),
    );
    assert!(matches!(result, Err(DeployError::Unauthorized)));
    assert_eq!(ledger.len(), 0);

    // Unauthorized is reported before an occupied address and a failed initialiser.
    let result = Deployer::deploy(
        &mut ledger,
        &Approvals::none(),
        &current,
        deployer.clone(),
        Bytes32::from_array([8u8; 32]),
        Bytes32::from_array([0u8; 32]),
        Invoked::Failed,
    );
    assert!(matches!(result, Err(DeployError::Unauthorized)));
}

#[test]
fn the_contract_at_work_deploys_without_approval() {
    let current = address("CCONTRACT");
    let mut ledger = Ledger::new();
    assert!(!Deployer::needs_approval(&current, &current));
    assert!(Deployer::needs_approval(&current, &address("GOTHER")));

    let result = Deployer::deploy(
        &mut ledger,
        &Approvals::none(),
        &current,
        current.clone(),
        Bytes32::from_array([8u8; 32]),
        Bytes32::from_array([0u8; 32]),
        Invoked::Returned(Value::Void),
    );
    let (placed, _) = result.unwrap();
    assert_eq!(placed, Ledger::contract_address(&current, &Bytes32::from_array([0u8; 32])));
}
