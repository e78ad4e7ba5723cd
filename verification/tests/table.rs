use trustful_stellar::{Address, Approvals, BadgeId, Bytes32, Plain, Table, Value};

fn address(id: &str) -> Address {
    Address::from_bytes(id.as_bytes())
}

#[test]
fn table_holds_one_value_for_each_key() {
    let mut table: Table<Address, u32> = Table::new();
    assert_eq!(table.len(), 0);
    assert_eq!(table.get(&address("A")), None);
    assert!(!table.contains_key(&address("A")));

    table.set(address("A"), 1);
    table.set(address("B"), 2);
    table.set(address("A"), 3);
    assert_eq!(table.len(), 2);
    assert_eq!(table.get(&address("A")), Some(3));
    assert_eq!(table.get(&address("B")), Some(2));

    assert_eq!(table.remove(&address("A")), Some(3));
    assert_eq!(table.remove(&address("A")), None);
    assert_eq!(table.len(), 1);
    assert!(!table.contains_key(&address("A")));
    assert!(table.contains_key(&address("B")));
}

#[test]
fn table_entries_list_each_key_once_in_order() {
    let mut table: Table<Address, bool> = Table::new();
    table.set(address("C"), true);
    table.set(address("A"), false);
    table.set(address("B"), true);
    table.set(address("A"), true);
    let entries = table.entries();
    assert_eq!(entries, vec![(address("C"), true), (address("A"), true), (address("B"), true)]);

    let copy = table.clone();
    table.remove(&address("C"));
    assert_eq!(copy.len(), 3);
    assert_eq!(copy.get(&address("C")), Some(true));
    assert_eq!(table.len(), 2);
}

#[test]
fn badge_keys_differ_by_name_or_issuer() {
    let a = BadgeId { name: String::from("Badge"), issuer: address("I") };
    let same = BadgeId { name: String::from("Badge"), issuer: address("I") };
    let other_name = BadgeId { name: String::from("Badge2"), issuer: address("I") };
    let other_issuer = BadgeId { name: String::from("Badge"), issuer: address("J") };
    assert!(a.same(&same));
    assert!(!a.same(&other_name));
    assert!(!a.same(&other_issuer));
    assert_eq!(a.duplicate(), a);
    assert_eq!(a.clone(), a);

    let mut table: Table<BadgeId, u32> = Table::new();
    table.set(a.clone(), 1);
    table.set(other_name, 2);
    table.set(other_issuer, 3);
    table.set(same, 4);
    assert_eq!(table.len(), 3);
    assert_eq!(table.get(&a), Some(4));
}

#[test]
fn addresses_are_equal_by_their_bytes() {
    assert_eq!(address("GABC"), address("GABC"));
    assert_ne!(address("GABC"), address("GABD"));
    assert_ne!(address("GABC"), address("GAB"));
    assert_ne!(address(""), address("G"));
    assert_eq!(address("GABC").as_bytes(), b"GABC");
    assert_eq!(address("GABC").clone(), address("GABC"));
    assert_eq!(address("GA").extended(b"BC"), address("GABC"));
    assert_eq!(address("GA").extended(b""), address("GA"));
    assert!(address("GABC").same(&address("GABC")));
    assert!(!address("GABC").same(&address("GABc")));
}

#[test]
fn words_are_equal_by_their_bytes() {
    let mut bytes = [0u8; 32];
    bytes[31] = 1;
    let word = Bytes32::from_array(bytes);
    assert_eq!(word.to_array(), bytes);
    assert_eq!(word.as_bytes(), &bytes[..]);
    assert!(word.same(&Bytes32::from_array(bytes)));
    assert!(!word.same(&Bytes32::from_array([0u8; 32])));
    assert!(word.duplicate().same(&word));
}

#[test]
fn approvals_hold_who_approved() {
    let a = address("A");
    let b = address("B");
    let none = Approvals::none();
    assert!(!none.includes(&a));

    let one = Approvals::of(&a);
    assert!(one.includes(&a));
    assert!(!one.includes(&b));

    let mut both = Approvals::of(&a);
    both.add(&b);
    both.add(&a);
    assert!(both.includes(&a));
    assert!(both.includes(&b));
    assert!(!both.includes(&address("C")));
}

#[test]
fn only_a_text_value_gives_a_text() {
    assert_eq!(Value::Text(String::from("name")).as_text(), Some(String::from("name")));
    assert_eq!(Value::Text(String::new()).as_text(), Some(String::new()));
    assert_eq!(Value::Void.as_text(), None);
    assert_eq!(Value::Bool(true).as_text(), None);
    assert_eq!(Value::U32(1).as_text(), None);
    assert_eq!(Value::Address(address("A")).as_text(), None);
    assert_eq!(Value::Bytes(Bytes32::from_array([0u8; 32])).as_text(), None);
    assert_eq!(Value::Opaque.as_text(), None);
    assert!(Value::Void.is_void());
    assert!(!Value::Opaque.is_void());
}
