use mini_omaha::token::{generate_id, ID_LENGTH};

#[test]
fn a_token_has_twenty_five_characters_of_the_charset() {
    for _ in 0..200 {
        let id = generate_id();
        assert_eq!(id.chars().count(), 25);
        assert_eq!(id.chars().count(), ID_LENGTH);
        assert!(id.chars().all(|c| "0123456789abcdefghijklmnopqrstuvwxyz".contains(c)));
    }
}

#[test]
fn tokens_differ_from_one_another() {
    let a = generate_id();
    let b = generate_id();
    let c = generate_id();
    assert_ne!(a, b);
    assert_ne!(b, c);
    assert_ne!(a, c);
}
