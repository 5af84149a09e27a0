use rand::RngExt;
use shaderfront::symbol::{Interner, Symbol};

fn random_str(len: usize) -> String {
    let mut rng = rand::rng();
    String::from_iter((0..len).map(|_| rng.sample(rand::distr::Alphanumeric) as char))
}

fn symbol_index() -> u32 {
    rand::rng().random_range(0..u32::MAX - 1)
}

#[test]
fn test_symbol_from_str_and_to_str_equals() {
    let mut interner = Interner::new();
    let symbol = Symbol::from_str(&mut interner, "test");
    assert_eq!(symbol.to_str(&interner), "test");

    let symbol = Symbol::from_str(&mut interner, "");
    assert_eq!(symbol.to_str(&interner), "");

    let str = random_str(4096);
    let symbol = Symbol::from_str(&mut interner, &str);
    assert_eq!(symbol.to_str(&interner), &str);
}

#[test]
fn test_symbol_index_equals() {
    let mut interner = Interner::new();
    let symbol = Symbol::from_str(&mut interner, "test");
    let symbol2 = Symbol::from_str(&mut interner, "test");
    assert_eq!(symbol.index(), symbol2.index());
}

#[test]
fn test_symbol_new() {
    let index = symbol_index();
    let symbol = Symbol::new(index);
    assert_eq!(symbol.index(), index);
}

#[test]
fn test_symbol_distinct_texts_distinct_indices() {
    let mut interner = Interner::new();
    let a = Symbol::from_str(&mut interner, "alpha");
    let b = Symbol::from_str(&mut interner, "beta");
    assert_ne!(a.index(), b.index());
    let a2 = Symbol::from_str(&mut interner, "alpha");
    assert_eq!(a.index(), a2.index());
    assert_eq!(a2.to_str(&interner), "alpha");
}
