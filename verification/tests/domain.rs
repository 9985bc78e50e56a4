use api::domain::SubscriberEmail;

#[test]
fn valid_addresses_are_accepted() {
    let email = SubscriberEmail::parse("ursula_le_guin@gmail.com".to_string()).unwrap();
    assert_eq!(email.as_str(), "ursula_le_guin@gmail.com");
    // The shortest accepted shape: one character on each side of the '@'.
    assert!(SubscriberEmail::parse("a@b".to_string()).is_ok());
}

#[test]
fn missing_at_symbol_is_rejected() {
    let message = SubscriberEmail::parse("ursuladomain.com".to_string()).unwrap_err();
    assert_eq!(message, "ursuladomain.com is not a valid subscriber email.");
}

#[test]
fn empty_string_is_rejected() {
    assert!(SubscriberEmail::parse("".to_string()).is_err());
}

#[test]
fn empty_local_part_is_rejected() {
    assert!(SubscriberEmail::parse("@domain.com".to_string()).is_err());
}

#[test]
fn empty_domain_is_rejected() {
    assert!(SubscriberEmail::parse("ursula@".to_string()).is_err());
}

#[test]
fn two_at_symbols_are_rejected() {
    assert!(SubscriberEmail::parse("ursula@le@guin.com".to_string()).is_err());
}

#[test]
fn spaces_are_rejected() {
    assert!(SubscriberEmail::parse("ursula le guin@gmail.com".to_string()).is_err());
}

#[test]
fn cloned_addresses_carry_the_same_text() {
    let email = SubscriberEmail::parse("clone@example.com".to_string()).unwrap();
    let copy = email.clone();
    assert_eq!(copy.as_str(), email.as_str());
}
