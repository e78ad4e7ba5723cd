use trustful_stellar::{
    Address, Approvals, BadgeId, Bytes32, Deployer, FactoryEvent, Invoked, Ledger, ScorerContract,
    ScorerFactoryContract, Table, Value,
};

fn address(id: &str) -> Address {
    Address::from_bytes(id.as_bytes())
}

fn text(s: &str) -> String {
    String::from(s)
}

fn everyone(principals: &[&Address]) -> Approvals {
    let mut approvals = Approvals::none();
    for principal in principals {
        approvals.add(principal);
    }
    approvals
}

fn factory_address() -> Address {
    address("CFACTORY")
}

fn scorer_wasm_hash() -> Bytes32 {
    Bytes32::from_array([4u8; 32])
}

fn factory_wasm_hash() -> Bytes32 {
    Bytes32::from_array([5u8; 32])
}

fn setup_contract() -> (Address, ScorerFactoryContract, Ledger) {
    let scorer_factory_creator = address("GCREATOR");
    let mut factory = ScorerFactoryContract::new();
    factory
        .initialize(
            &Approvals::of(&scorer_factory_creator),
            scorer_factory_creator.clone(),
            scorer_wasm_hash(),
        )
        .unwrap();
    (scorer_factory_creator, factory, Ledger::new())
}

/// The arguments of a scorer's initialiser, and the scorer that they make:
/// what the ledger does when it runs the initialiser on the new contract.
fn scorer_with(
    approvals: &Approvals,
    creator: &Address,
    badge: (&str, u32),
    name: &str,
    description: &str,
    icon: &str,
) -> (Vec<Value>, ScorerContract, Invoked) {
    let mut scorer_badges: Table<BadgeId, u32> = Table::new();
    scorer_badges.set(BadgeId { name: text(badge.0), issuer: creator.clone() }, badge.1);
    let init_args = vec![
        Value::Address(creator.clone()),
        Value::Opaque,
        Value::Text(text(name)),
        Value::Text(text(description)),
        Value::Text(text(icon)),
    ];
    let mut scorer = ScorerContract::new();
    let outcome = match scorer.initialize(
        approvals,
        creator.clone(),
        scorer_badges,
        text(name),
        text(description),
        text(icon),
    ) {
        Ok(_) => Invoked::Returned(Value::Void),
        Err(_) => Invoked::Failed,
    };
    (init_args, scorer, outcome)
}

/// Deploys a factory through the deployer, as the ledger would.
fn deploy_factory(ledger: &mut Ledger, admin: &Address) -> (Address, ScorerFactoryContract) {
    let approvals = Approvals::of(admin);
    let deployer_id = address("CDEPLOYER");
    let mut factory = ScorerFactoryContract::new();
    let init = match factory.initialize(&approvals, admin.clone(), scorer_wasm_hash()) {
        Ok(()) => Invoked::Returned(Value::Void),
        Err(_) => Invoked::Failed,
    };
    let (factory_id, _) = Deployer::deploy(
        ledger,
        &approvals,
        &deployer_id,
        admin.clone(),
        factory_wasm_hash(),
        Bytes32::from_array([0u8; 32]),
        init,
    )
    .unwrap();
    (factory_id, factory)
}

#[test]
fn test_create_scorer() {
    let (scorer_factory_creator, mut factory, mut ledger) = setup_contract();
    let approvals = Approvals::of(&scorer_factory_creator);

    let salt = Bytes32::from_array([1; 32]);
    let (init_args, _scorer, init) = scorer_with(
        &approvals,
        &scorer_factory_creator,
        ("Test Badge", 100),
        "new_scorer",
        "scorer's description",
        "badge_icon.png",
    );

    let (scorer_address, event) = factory
        .create_scorer(
            &mut ledger,
            &approvals,
            &factory_address(),
            scorer_factory_creator.clone(),
            salt,
            init_args,
            init,
        )
        .unwrap();

    assert!(!scorer_address.as_bytes().is_empty());

    assert_eq!(event.topics(), ("scorer", "create"));
    match event {
        FactoryEvent::ScorerCreated { deployer, scorer, name, description, icon } => {
            assert_eq!(deployer, scorer_factory_creator);
            assert_eq!(scorer, scorer_address);
            assert_eq!(name, text("new_scorer"));
            assert_eq!(description, text("scorer's description"));
            assert_eq!(icon, text("badge_icon.png"));
        }
        other => panic!("Expected scorer creation event not found in events list: {:?}", other),
    }
}

#[test]
fn integration_test_test_initialize() {
    let admin = address("GADMIN");
    let mut ledger = Ledger::new();
    let (factory_id, factory) = deploy_factory(&mut ledger, &admin);

    assert!(ledger.is_occupied(&factory_id));
    assert!(factory.is_initialized());
    assert!(factory.is_manager(&admin));
}

#[test]
fn integration_test_test_get_scorers() {
    let (scorer_factory_creator, mut factory, mut ledger) = setup_contract();
    let approvals = Approvals::of(&scorer_factory_creator);
    let scorers = factory.get_scorers().unwrap();
    assert!(scorers.len() == 0);

    let salt = Bytes32::from_array([1; 32]);
    let (init_args, _scorer, init) = scorer_with(
        &approvals,
        &scorer_factory_creator,
        ("Test Badge", 100),
        "new_scorer",
        "scorer's description",
        "badge_icon.png",
    );

    let (scorer_address, _) = factory
        .create_scorer(
            &mut ledger,
            &approvals,
            &factory_address(),
            scorer_factory_creator.clone(),
            salt,
            init_args,
            init,
        )
        .unwrap();

    assert!(!scorer_address.as_bytes().is_empty());

    let scorers = factory.get_scorers().unwrap();
    assert!(scorers.len() == 1);
}

#[test]
fn test_integration() {
    let admin = address("GADMIN");
    let new_manager = address("GNEWMANAGER");
    let user = address("GUSER");
    let approvals = everyone(&[&admin, &new_manager, &user]);
    let mut ledger = Ledger::new();

    // Steps 1 and 2: the deployer places the factory and initialises it.
    let (factory_id, mut factory) = deploy_factory(&mut ledger, &admin);

    // Step 3: the factory is initialised.
    assert!(factory.is_initialized());

    // Step 4: the admin is a manager.
    assert!(factory.is_manager(&admin));

    // Step 5: a new manager, and the event.
    let event = factory.add_manager(&approvals, admin.clone(), new_manager.clone()).unwrap();
    assert!(factory.is_manager(&new_manager));
    assert_eq!(event.topics(), ("manager", "add"));
    assert!(matches!(
        event,
        FactoryEvent::ManagerAdded { ref caller, ref manager } if *caller == admin && *manager == new_manager
    ));

    // Step 6: a scorer.
    let salt = Bytes32::from_array([1; 32]);
    let (scorer_init_args, mut scorer, init) = scorer_with(
        &approvals,
        &admin,
        ("Test Badge", 100),
        "new_scorer",
        "scorer's description",
        "badge_icon.png",
    );
    let (scorer_address, _) = factory
        .create_scorer(&mut ledger, &approvals, &factory_id, admin.clone(), salt, scorer_init_args, init)
        .unwrap();

    // Step 7: it was created.
    assert!(!scorer_address.as_bytes().is_empty());
    assert!(ledger.is_occupied(&scorer_address));

    // Step 8: the directory.
    let scorers = factory.get_scorers().unwrap();
    assert_eq!(scorers.len(), 1);
    let listed = scorers.get(&scorer_address).unwrap();
    assert_eq!((listed.0, listed.1), (text("new_scorer"), text("scorer's description")));

    // Step 9: the scorer's badges.
    let stored_badges = scorer.get_badges();
    assert_eq!(stored_badges.len(), 1);
    let stored_badge_id = BadgeId { name: text("Test Badge"), issuer: admin.clone() };
    assert_eq!(stored_badges.get(&stored_badge_id), Some(100));
    assert_eq!(stored_badge_id.name, text("Test Badge"));
    assert_eq!(stored_badge_id.issuer, admin);

    // Step 10: the new manager creates a scorer too.
    let (new_scorer_init_args, mut new_scorer, new_init) = scorer_with(
        &approvals,
        &new_manager,
        ("Manager Badge", 200),
        "new_scorer",
        "scorer's description",
        "badge_icon.png",
    );
    let (new_scorer_address, _) = factory
        .create_scorer(
            &mut ledger,
            &approvals,
            &factory_id,
            new_manager.clone(),
            Bytes32::from_array([2; 32]),
            new_scorer_init_args,
            new_init,
        )
        .unwrap();

    // Step 11: the second scorer.
    let scorers = factory.get_scorers().unwrap();
    assert_eq!(scorers.len(), 2);
    let listed = scorers.get(&new_scorer_address).unwrap();
    assert_eq!((listed.0, listed.1), (text("new_scorer"), text("scorer's description")));

    // Step 12: the manager leaves, and the event.
    let event = factory.remove_manager(&approvals, admin.clone(), new_manager.clone()).unwrap();
    assert!(!factory.is_manager(&new_manager));
    assert_eq!(event.topics(), ("manager", "remove"));
    assert!(matches!(
        event,
        FactoryEvent::ManagerRemoved { ref caller, ref manager } if *caller == admin && *manager == new_manager
    ));

    // Step 13: a user of the first scorer.
    scorer.add_user(&approvals, user.clone()).unwrap();
    assert!(scorer.get_users().contains_key(&user));

    // Step 14: and of the second.
    new_scorer.add_user(&approvals, user.clone()).unwrap();
    assert!(new_scorer.get_users().contains_key(&user));

    // Step 15: the user leaves the first scorer.
    scorer.remove_user(&approvals, user.clone()).unwrap();
    assert_eq!(scorer.get_users().get(&user), Some(false));

    // Step 16: and the second.
    new_scorer.remove_user(&approvals, user.clone()).unwrap();
    assert_eq!(new_scorer.get_users().get(&user), Some(false));
}

#[test]
fn test_remove_scorer() {
    let (admin, mut factory, mut ledger) = setup_contract();
    let manager = address("GMANAGER");
    let approvals = everyone(&[&admin, &manager]);

    factory.add_manager(&approvals, admin.clone(), manager.clone()).unwrap();
    assert!(factory.is_manager(&manager));

    let (init_args, _scorer, init) = scorer_with(
        &approvals,
        &admin,
        ("Test Badge", 100),
        "Test Scorer",
        "A test scorer",
        "badge_icon.png",
    );
    let (scorer_address, _) = factory
        .create_scorer(
            &mut ledger,
            &approvals,
            &factory_address(),
            admin.clone(),
            Bytes32::from_array([1_u8; 32]),
            init_args,
            init,
        )
        .unwrap();

    let scorers = factory.get_scorers().unwrap();
    assert!(scorers.contains_key(&scorer_address));

    factory.remove_scorer(&approvals, manager.clone(), scorer_address.clone()).unwrap();

    let scorers_after = factory.get_scorers().unwrap();
    assert!(!scorers_after.contains_key(&scorer_address));
}

#[test]
#[should_panic(expected = "Unauthorized")]
fn test_remove_scorer_unauthorized() {
    let (admin, mut factory, mut ledger) = setup_contract();
    let non_manager = address("GNONMANAGER");
    let approvals = everyone(&[&admin, &non_manager]);

    let (init_args, _scorer, init) = scorer_with(
        &approvals,
        &admin,
        ("Test Badge", 100),
        "Test Scorer",
        "A test scorer",
        "badge_icon.png",
    );
    let (scorer_address, _) = factory
        .create_scorer(
            &mut ledger,
            &approvals,
            &factory_address(),
            admin.clone(),
            Bytes32::from_array([1_u8; 32]),
            init_args,
            init,
        )
        .unwrap();

    factory.remove_scorer(&approvals, non_manager.clone(), scorer_address).unwrap();
}

#[test]
#[should_panic(expected = "ScorerNotFound")]
fn test_remove_nonexistent_scorer() {
    let (admin, mut factory, _ledger) = setup_contract();

    let nonexistent_scorer = address("CNONEXISTENT");
    factory.remove_scorer(&Approvals::of(&admin), admin.clone(), nonexistent_scorer).unwrap();
}
