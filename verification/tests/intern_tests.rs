use std::collections::HashSet;

use rlox::intern_string::{Symbol, SymbolTable};

#[test]
fn it_works() {
    let mut table = SymbolTable::new();
    let msg = "Hello world!";
    let symbol = table.intern(String::from(msg));
    assert_eq!(msg, symbol.as_str());
}

#[test]
fn more_strings() {
    let mut table = SymbolTable::new();
    let strs = vec!["Hello", "42", "1337", "\"'$$%&\"", "World"];
    let strings = strs
        .iter()
        .map(|s| String::from(*s))
        .collect::<Vec<String>>();
    let interned = strings
        .iter()
        .map(|s| table.intern(s.clone()))
        .collect::<HashSet<Symbol>>();
    assert_eq!(strs.len(), interned.len());

    assert_eq!(
        strs.iter()
            .rev()
            .map(|s| String::from(*s))
            .map(|s| table.intern(s))
            .collect::<HashSet<Symbol>>(),
        interned
    );

    assert_eq!(
        interned
            .iter()
            .map(|s| s.as_str().to_string())
            .collect::<HashSet<String>>(),
        strings.iter().cloned().collect::<HashSet<String>>()
    );
}

#[test]
fn equal_texts_give_equal_symbols() {
    let mut table = SymbolTable::new();
    let a = table.intern(String::from("name"));
    let b = table.intern(String::from("name"));
    let c = table.intern(String::from("other"));
    assert!(a.same(&b));
    assert!(!a.same(&c));
    assert!(a.clone().same(&a));
}

#[test]
fn a_symbol_survives_its_table_entry() {
    let mut table = SymbolTable::new();
    {
        let gone = table.intern(String::from("short lived"));
        assert_eq!(gone.as_str(), "short lived");
    }
    let again = table.intern(String::from("short lived"));
    assert_eq!(again.as_str(), "short lived");
}

#[test]
fn equal_texts_share_one_string() {
    let mut table = SymbolTable::new();
    let first = table.intern(String::from("shared"));
    let second = table.intern(String::from("shared"));
    let other = table.intern(String::from("shared too"));
    assert_eq!(first.as_str().as_ptr(), second.as_str().as_ptr());
    assert_ne!(first.as_str().as_ptr(), other.as_str().as_ptr());
}
