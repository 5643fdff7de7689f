use ssh_blog::error::ValidationError;
use ssh_blog::registration::{
    parse_bio, validate_key, validate_registration, validate_username, NewAccount,
    MIN_USERNAME_LEN,
};

#[test]
fn username_of_two_characters_is_refused() {
    assert_eq!(MIN_USERNAME_LEN, 3);
    assert_eq!(validate_username("ab"), Err(ValidationError::UsernameTooShort));
    assert_eq!(validate_username("a"), Err(ValidationError::UsernameTooShort));
    assert_eq!(validate_username(""), Err(ValidationError::UsernameTooShort));
    assert_eq!(validate_username("  ab  \n"), Err(ValidationError::UsernameTooShort));
}

#[test]
fn username_of_three_characters_is_accepted() {
    assert_eq!(validate_username("abc"), Ok("abc".to_string()));
    assert_eq!(validate_username(" abc\n"), Ok("abc".to_string()));
    assert_eq!(validate_username("alice\n"), Ok("alice".to_string()));
    assert_eq!(validate_username("a c"), Ok("a c".to_string()));
}

#[test]
fn username_length_counts_characters() {
    assert_eq!(validate_username("éé"), Err(ValidationError::UsernameTooShort));
    assert_eq!(validate_username("ééé"), Ok("ééé".to_string()));
}

#[test]
fn key_must_begin_with_the_marker() {
    assert_eq!(validate_key("ssh-ed25519 AAAA me\n"), Ok("ssh-ed25519 AAAA me".to_string()));
    assert_eq!(validate_key("  ssh-rsa BBBB  "), Ok("ssh-rsa BBBB".to_string()));
    assert_eq!(validate_key("ssh-"), Ok("ssh-".to_string()));
    assert_eq!(validate_key("ecdsa-sha2-nistp256 AAAA"), Err(ValidationError::InvalidKeyFormat));
    assert_eq!(validate_key("key ssh-rsa AAAA"), Err(ValidationError::InvalidKeyFormat));
    assert_eq!(validate_key("SSH-rsa AAAA"), Err(ValidationError::InvalidKeyFormat));
    assert_eq!(validate_key("ssh"), Err(ValidationError::InvalidKeyFormat));
    assert_eq!(validate_key(""), Err(ValidationError::InvalidKeyFormat));
}

#[test]
fn empty_bio_is_not_set() {
    assert_eq!(parse_bio(""), None);
    assert_eq!(parse_bio("\n"), None);
    assert_eq!(parse_bio("   \t\n"), None);
    assert_eq!(parse_bio(" I write. \n"), Some("I write.".to_string()));
}

#[test]
fn registration_judges_the_username_first() {
    assert_eq!(
        validate_registration("al\n", "not a key\n", "\n"),
        Err(ValidationError::UsernameTooShort)
    );
    assert_eq!(
        validate_registration("alice\n", "not a key\n", "\n"),
        Err(ValidationError::InvalidKeyFormat)
    );
    assert_eq!(
        validate_registration("alice\n", "ssh-rsa AAAA alice@host\n", "\n"),
        Ok(NewAccount {
            username: "alice".to_string(),
            ssh_key: "ssh-rsa AAAA alice@host".to_string(),
            bio: None,
        })
    );
    assert_eq!(
        validate_registration(" bob ", " ssh-rsa BBBB ", " hello "),
        Ok(NewAccount {
            username: "bob".to_string(),
            ssh_key: "ssh-rsa BBBB".to_string(),
            bio: Some("hello".to_string()),
        })
    );
}
