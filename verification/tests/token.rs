use now_playing::token::{covers_scopes, has_scope, Token, EXPIRY_MARGIN_SECS};

fn scopes(names: &[&str]) -> Vec<String> {
    names.iter().map(|name| String::from(*name)).collect()
}

fn token(expires_at: Option<u64>, granted: &[&str]) -> Token {
    Token { expires_at, scopes: scopes(granted) }
}

#[test]
fn margin_is_ten_seconds() {
    assert_eq!(EXPIRY_MARGIN_SECS, 10);
}

#[test]
fn token_expires_a_margin_ahead_of_time() {
    let t = token(Some(1_000), &[]);
    assert!(!t.is_expired(0));
    assert!(!t.is_expired(989));
    assert!(t.is_expired(990));
    assert!(t.is_expired(999));
    assert!(t.is_expired(1_000));
    assert!(t.is_expired(1_001));
    assert!(t.is_expired(u64::MAX));
}

#[test]
fn token_without_expiry_counts_as_expired() {
    let t = token(None, &["user-read-currently-playing"]);
    assert!(t.is_expired(0));
    assert!(!t.is_usable(0, &scopes(&["user-read-currently-playing"])));
}

#[test]
fn expiry_at_the_ends_of_the_clock() {
    assert!(token(Some(0), &[]).is_expired(0));
    assert!(token(Some(5), &[]).is_expired(0));
    assert!(token(Some(10), &[]).is_expired(0));
    assert!(!token(Some(11), &[]).is_expired(0));
    assert!(!token(Some(u64::MAX), &[]).is_expired(0));
    assert!(!token(Some(u64::MAX), &[]).is_expired(u64::MAX - 11));
    assert!(token(Some(u64::MAX), &[]).is_expired(u64::MAX - 10));
    assert!(token(Some(u64::MAX), &[]).is_expired(u64::MAX));
}

#[test]
fn scope_is_found_by_its_exact_name() {
    let granted = scopes(&["user-read-email", "user-read-currently-playing"]);
    assert!(has_scope(&granted, &String::from("user-read-currently-playing")));
    assert!(has_scope(&granted, &String::from("user-read-email")));
    assert!(!has_scope(&granted, &String::from("user-read")));
    assert!(!has_scope(&granted, &String::from("")));
    assert!(!has_scope(&scopes(&[]), &String::from("user-read-email")));
}

#[test]
fn granted_scopes_must_cover_every_required_one() {
    let granted = scopes(&["a", "b", "c"]);
    assert!(covers_scopes(&granted, &scopes(&[])));
    assert!(covers_scopes(&granted, &scopes(&["c", "a"])));
    assert!(covers_scopes(&granted, &scopes(&["b", "b"])));
    assert!(!covers_scopes(&granted, &scopes(&["a", "d"])));
    assert!(!covers_scopes(&scopes(&[]), &scopes(&["a"])));
    assert!(covers_scopes(&scopes(&[]), &scopes(&[])));
}

#[test]
fn usable_means_fresh_and_sufficient() {
    let required = scopes(&["user-read-currently-playing"]);
    let good = token(Some(2_000), &["user-read-currently-playing", "x"]);
    assert!(good.is_usable(1_000, &required));
    assert!(!good.is_usable(1_990, &required));
    let narrow = token(Some(2_000), &["x"]);
    assert!(!narrow.is_usable(1_000, &required));
    assert!(narrow.has_scopes(&scopes(&["x"])));
    assert!(!narrow.has_scopes(&required));
}
