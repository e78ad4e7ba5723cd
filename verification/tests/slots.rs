use trustful_stellar::{
    Address, Approvals, BadgeId, Bytes32, FactoryError, Invoked, Ledger, ScorerContract,
    ScorerError, ScorerFactoryContract, Table, Value,
};
use trustful_stellar::scorer_factory::scorer_metadata;

fn address(id: &str) -> Address {
    Address::from_bytes(id.as_bytes())
}

fn text(s: &str) -> String {
    String::from(s)
}

#[test]
fn scorer_restored_from_its_slots() {
    let creator = address("GCREATOR");
    let manager = address("GMANAGER");
    let mut users: Table<Address, bool> = Table::new();
    users.set(address("GUSER"), false);
    let mut badges: Table<BadgeId, u32> = Table::new();
    badges.set(BadgeId { name: text("Badge"), issuer: creator.clone() }, 9);

    let scorer = ScorerContract::restore(
        true,
        Some(creator.clone()),
        Some(vec![creator.clone(), manager.clone()]),
        Some(users),
        Some(badges),
        Some(text("name")),
        None,
        Some(text("icon.png")),
    );
    assert!(scorer.is_initialized());
    assert_eq!(scorer.get_contract_owner().unwrap(), creator);
    assert_eq!(scorer.get_managers().unwrap(), vec![creator.clone(), manager]);
    assert_eq!(scorer.get_users().get(&address("GUSER")), Some(false));
    assert!(!scorer.user_is_active(&address("GUSER")));
    assert_eq!(scorer.get_badges().get(&BadgeId { name: text("Badge"), issuer: creator }), Some(9));
    assert_eq!(scorer.get_metadata(), (text("name"), text(""), text("icon.png")));
}

#[test]
fn scorer_with_a_creator_and_no_list_of_managers() {
    let creator = address("GCREATOR");
    let approvals = Approvals::of(&creator);
    let mut scorer =
        ScorerContract::restore(false, Some(creator.clone()), None, None, None, None, None, None);

    assert!(matches!(scorer.get_managers(), Err(ScorerError::ManagersNotFound)));
    assert!(matches!(
        scorer.remove_manager(&approvals, creator.clone(), creator.clone()),
        Err(ScorerError::ManagerNotFound)
    ));
    assert!(matches!(
        scorer.remove_badge(&approvals, creator.clone(), text("Badge"), creator.clone()),
        Err(ScorerError::Unauthorized)
    ));
    // The first manager makes the list.
    scorer.add_manager(&approvals, creator.clone(), creator.clone()).unwrap();
    assert_eq!(scorer.get_managers().unwrap(), vec![creator.clone()]);
    // With no badges stored, none can be removed; the first makes the table.
    assert!(matches!(
        scorer.remove_badge(&approvals, creator.clone(), text("Badge"), creator.clone()),
        Err(ScorerError::BadgeNotFound)
    ));
    scorer.add_badge(&approvals, creator.clone(), text("Badge"), creator.clone(), 1).unwrap();
    assert_eq!(scorer.get_badges().len(), 1);
    // It can still be initialised: the flag is not set.
    let result = scorer.initialize(
        &approvals,
        creator.clone(),
        Table::new(),
        text("n"),
        text("d"),
        text("i"),
    );
    assert!(result.is_ok());
    assert_eq!(scorer.get_badges().len(), 0);
    assert_eq!(scorer.get_managers().unwrap(), vec![creator]);
}

#[test]
fn duplicate_managers_in_a_restored_list_leave_one_by_one() {
    let creator = address("GCREATOR");
    let twice = address("GTWICE");
    let approvals = Approvals::of(&creator);
    let mut scorer = ScorerContract::restore(
        true,
        Some(creator.clone()),
        Some(vec![twice.clone(), creator.clone(), twice.clone()]),
        None,
        None,
        None,
        None,
        None,
    );
    scorer.remove_manager(&approvals, creator.clone(), twice.clone()).unwrap();
    assert_eq!(scorer.get_managers().unwrap(), vec![creator.clone(), twice.clone()]);
    scorer.remove_manager(&approvals, creator.clone(), twice.clone()).unwrap();
    assert_eq!(scorer.get_managers().unwrap(), vec![creator.clone()]);
}

#[test]
fn factory_with_a_creator_and_no_other_slot() {
    let creator = address("GCREATOR");
    let approvals = Approvals::of(&creator);
    let mut factory = ScorerFactoryContract::restore(false, Some(creator.clone()), None, None, None);

    assert_eq!(factory.is_scorer_factory_creator(&creator), Ok(true));
    assert_eq!(factory.is_scorer_factory_creator(&address("GOTHER")), Ok(false));
    assert!(!factory.is_manager(&creator));
    assert_eq!(
        factory.remove_manager(&approvals, creator.clone(), creator.clone()).err(),
        Some(FactoryError::ManagersNotFound)
    );
    // The creator is no manager here, and only managers remove scorers.
    assert_eq!(
        factory.remove_scorer(&approvals, creator.clone(), address("CSCORER")).err(),
        Some(FactoryError::Unauthorized)
    );
    factory.add_manager(&approvals, creator.clone(), creator.clone()).unwrap();
    assert_eq!(
        factory.remove_scorer(&approvals, creator.clone(), address("CSCORER")).err(),
        Some(FactoryError::ScorersWereNotFound)
    );
    // Without a code hash no scorer is created, with one the directory begins.
    let mut ledger = Ledger::new();
    let args = vec![Value::Text(text("n")), Value::Text(text("d")), Value::Text(text("i"))];
    let result = factory.create_scorer(
        &mut ledger,
        &approvals,
        &address("CFACTORY"),
        creator.clone(),
        Bytes32::from_array([1u8; 32]),
        args,
        Invoked::Returned(Value::Void),
    );
    assert_eq!(result.err(), Some(FactoryError::ContractCreatorNotFound));

    let mut factory = ScorerFactoryContract::restore(
        true,
        Some(creator.clone()),
        Some(vec![creator.clone()]),
        Some(Bytes32::from_array([4u8; 32])),
        None,
    );
    let args = vec![Value::Text(text("n")), Value::Text(text("d")), Value::Text(text("i"))];
    let (scorer, _) = factory
        .create_scorer(
            &mut ledger,
            &approvals,
            &address("CFACTORY"),
            creator.clone(),
            Bytes32::from_array([1u8; 32]),
            args,
            Invoked::Returned(Value::Void),
        )
        .unwrap();
    assert_eq!(factory.get_scorers().unwrap().get(&scorer), Some((text("n"), text("d"), text("i"))));
}

#[test]
fn metadata_is_read_from_the_end() {
    assert_eq!(scorer_metadata(&vec![]), None);
    assert_eq!(scorer_metadata(&vec![Value::Text(text("a")), Value::Text(text("b"))]), None);
    assert_eq!(
        scorer_metadata(&vec![
            Value::Text(text("skipped")),
            Value::Text(text("a")),
            Value::Text(text("b")),
            Value::Text(text("c")),
        ]),
        Some((text("a"), text("b"), text("c")))
    );
    assert_eq!(
        scorer_metadata(&vec![Value::Text(text("a")), Value::U32(1), Value::Text(text("c"))]),
        None
    );
    assert_eq!(
        scorer_metadata(&vec![Value::Text(text("a")), Value::Text(text("b")), Value::Void]),
        None
    );
    // Empty texts are texts.
    assert_eq!(
        scorer_metadata(&vec![Value::Text(text("")), Value::Text(text("")), Value::Text(text(""))]),
        Some((text(""), text(""), text("")))
    );
}

#[test]
fn managers_never_occur_twice() {
    let creator = address("GCREATOR");
    let approvals = Approvals::of(&creator);
    let mut scorer = ScorerContract::new();
    scorer
        .initialize(&approvals, creator.clone(), Table::new(), text("n"), text("d"), text("i"))
        .unwrap();
    let mut factory = ScorerFactoryContract::new();
    factory.initialize(&approvals, creator.clone(), Bytes32::from_array([4u8; 32])).unwrap();

    let names = ["GA", "GB", "GA", "GC", "GB", "GCREATOR", "GA"];
    for (round, name) in names.iter().enumerate() {
        let _ = scorer.add_manager(&approvals, creator.clone(), address(name));
        let _ = factory.add_manager(&approvals, creator.clone(), address(name));
        if round % 3 == 2 {
            let _ = scorer.remove_manager(&approvals, creator.clone(), address("GB"));
            let _ = factory.remove_manager(&approvals, creator.clone(), address("GB"));
        }
        for managers in [scorer.get_managers().unwrap(), factory.get_managers().unwrap()] {
            for (i, first) in managers.iter().enumerate() {
                for second in managers.iter().skip(i + 1) {
                    assert_ne!(first, second);
                }
            }
        }
    }
    let expected = vec![creator.clone(), address("GA"), address("GC")];
    assert_eq!(scorer.get_managers().unwrap(), expected);
    assert_eq!(factory.get_managers().unwrap(), expected);
}
