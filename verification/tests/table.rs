use stockswap::identity::Pubkey;
use stockswap::ledger::Holder;
use stockswap::table::{Key, Table};

#[test]
fn empty_table_holds_nothing() {
    let table: Table<String, u64> = Table::new();
    assert_eq!(table.get(&"a".to_string()), None);
    assert_eq!(table.get(&String::new()), None);
}

#[test]
fn inserted_values_are_found_under_their_keys() {
    let mut table: Table<String, u64> = Table::new();
    table.insert("a".to_string(), 1);
    table.insert("b".to_string(), 2);
    table.insert(String::new(), 3);
    assert_eq!(table.get(&"a".to_string()), Some(&1));
    assert_eq!(table.get(&"b".to_string()), Some(&2));
    assert_eq!(table.get(&String::new()), Some(&3));
    assert_eq!(table.get(&"c".to_string()), None);
    assert_eq!(table.get(&"A".to_string()), None);
}

#[test]
fn insert_replaces_the_value_under_a_key() {
    let mut table: Table<String, u64> = Table::new();
    table.insert("a".to_string(), 1);
    table.insert("b".to_string(), 2);
    table.insert("a".to_string(), 10);
    assert_eq!(table.get(&"a".to_string()), Some(&10));
    assert_eq!(table.get(&"b".to_string()), Some(&2));
    table.insert("b".to_string(), 20);
    table.insert("a".to_string(), 100);
    assert_eq!(table.get(&"a".to_string()), Some(&100));
    assert_eq!(table.get(&"b".to_string()), Some(&20));
}

#[test]
fn identities_and_holders_serve_as_keys() {
    let a = Pubkey::new_from_array([1; 32]);
    let b = Pubkey::new_from_array([2; 32]);
    assert!(a.same(&a));
    assert!(!a.same(&b));
    assert!("x".to_string().same(&"x".to_string()));
    assert!(!"x".to_string().same(&"y".to_string()));
    let holder = |owner: Pubkey, symbol: &str| Holder { owner, stock_symbol: symbol.to_string() };
    assert!(holder(a, "ACME").same(&holder(a, "ACME")));
    assert!(!holder(a, "ACME").same(&holder(b, "ACME")));
    assert!(!holder(a, "ACME").same(&holder(a, "BETA")));

    let mut table: Table<Holder, u64> = Table::new();
    table.insert(holder(a, "ACME"), 1);
    table.insert(holder(b, "ACME"), 2);
    table.insert(holder(a, "BETA"), 3);
    table.insert(holder(a, "ACME"), 4);
    assert_eq!(table.get(&holder(a, "ACME")), Some(&4));
    assert_eq!(table.get(&holder(b, "ACME")), Some(&2));
    assert_eq!(table.get(&holder(a, "BETA")), Some(&3));
    assert_eq!(table.get(&holder(b, "BETA")), None);
}
