use euclid::router::register_vlp;
use euclid::store::Store;
use euclid::token::{Pair, Token};

fn token(id: &str) -> Token {
    Token::create(id.to_string()).unwrap()
}

#[test]
fn vlp_round_trip() {
    let mut store = Store::new();
    let (a, b) = (token("a"), token("b"));
    assert_eq!(store.vlp(&a, &b), None);
    let text = "pool \"one\"\n\u{1}\\é".to_string();
    register_vlp(&mut store, &Pair::new(b.clone(), a.clone()).unwrap(), &text).unwrap();
    assert_eq!(store.vlp(&a, &b), Some(text));
    assert_eq!(store.vlp(&b, &a), None);
}
