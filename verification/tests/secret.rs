use lockdown::secret::get_random_password;

#[test]
fn generated_secret_is_twelve_alphanumeric_chars() {
    let s = get_random_password();
    assert_eq!(s.len(), 12);
    assert!(s.chars().all(|c| c.is_ascii_alphanumeric()));
}

#[test]
fn consecutive_secrets_are_independent_draws() {
    let a = get_random_password();
    let b = get_random_password();
    assert_eq!(a.len(), 12);
    assert_eq!(b.len(), 12);
    assert_ne!(a, b);
}
