//! The rules of registration.
//!
//! A new identity is a username, a public key and an optional biography,
//! each read from one line of input. A username has at least three
//! characters, a key begins with the key marker, and a biography that is
//! empty is not set.

use crate::error::ValidationError;
use crate::signals::{key_marker, key_marker_chars};
use crate::text::{chars_of, copy_range, has_prefix, starts_with, text_of, trim_bounds, trimmed};
use vstd::prelude::*;

verus! {

/// The least number of characters of a username.
pub const MIN_USERNAME_LEN: usize = 3;

/// An identity that has passed the rules and is not stored yet.
#[derive(Clone, Debug, PartialEq, Eq)]
pub struct NewAccount {
    pub username: String,
    pub ssh_key: String,
    pub bio: Option<String>,
}

/// An identity that is not stored yet, as mathematical values.
pub struct NewAccountView {
    pub username: Seq<char>,
    pub ssh_key: Seq<char>,
    pub bio: Option<Seq<char>>,
}

impl View for NewAccount {
    type V = NewAccountView;

    open spec fn view(&self) -> NewAccountView {
        NewAccountView {
            username: self.username@,
            ssh_key: self.ssh_key@,
            bio: text_of(self.bio),
        }
    }
}

/// The username that a line of input gives: the line trimmed, where that has
/// at least three characters.
pub open spec fn username_of(line: Seq<char>) -> Result<Seq<char>, ValidationError> {
    if trimmed(line).len() < MIN_USERNAME_LEN {
        Err(ValidationError::UsernameTooShort)
    } else {
        Ok(trimmed(line))
    }
}

/// The key that a line of input gives: the line trimmed, where that begins
/// with the key marker.
pub open spec fn key_of(line: Seq<char>) -> Result<Seq<char>, ValidationError> {
    if has_prefix(trimmed(line), key_marker()) {
        Ok(trimmed(line))
    } else {
        Err(ValidationError::InvalidKeyFormat)
    }
}

/// The biography that a line of input gives: the line trimmed, or none
/// where that is empty.
pub open spec fn bio_of(line: Seq<char>) -> Option<Seq<char>> {
    if trimmed(line).len() == 0 {
        None
    } else {
        Some(trimmed(line))
    }
}

/// The identity that three lines of input give. The username is judged
/// first, then the key.
pub open spec fn account_of(
    username_line: Seq<char>,
    key_line: Seq<char>,
    bio_line: Seq<char>,
) -> Result<NewAccountView, ValidationError> {
    match username_of(username_line) {
        Err(rule) => Err(rule),
        Ok(username) => match key_of(key_line) {
            Err(rule) => Err(rule),
            Ok(ssh_key) => Ok(NewAccountView { username, ssh_key, bio: bio_of(bio_line) }),
        },
    }
}

/// The text of a string or the rule that refused it.
pub open spec fn checked_text(r: Result<String, ValidationError>) -> Result<
    Seq<char>,
    ValidationError,
> {
    match r {
        Ok(s) => Ok(s@),
        Err(rule) => Err(rule),
    }
}

/// The username that `line` gives, or the rule that it breaks.
pub fn validate_username(line: &str) -> (r: Result<String, ValidationError>)
    ensures
        checked_text(r) == username_of(line@),
{
    let v = chars_of(line);
    let (from, to) = trim_bounds(&v);
    if to - from < MIN_USERNAME_LEN {
        Err(ValidationError::UsernameTooShort)
    } else {
        Ok(line.substring_char(from, to).to_owned())
    }
}

/// The key that `line` gives, or the rule that it breaks.
pub fn validate_key(line: &str) -> (r: Result<String, ValidationError>)
    ensures
        checked_text(r) == key_of(line@),
{
    let v = chars_of(line);
    let (from, to) = trim_bounds(&v);
    let key = copy_range(&v, from, to);
    let marker = key_marker_chars();
    if starts_with(&key, &marker) {
        Ok(line.substring_char(from, to).to_owned())
    } else {
        Err(ValidationError::InvalidKeyFormat)
    }
}

/// The biography that `line` gives, if any.
pub fn parse_bio(line: &str) -> (r: Option<String>)
    ensures
        text_of(r) == bio_of(line@),
{
    let v = chars_of(line);
    let (from, to) = trim_bounds(&v);
    if from == to {
        None
    } else {
        Some(line.substring_char(from, to).to_owned())
    }
}

/// The account or the rule that refused it, as mathematical values.
pub open spec fn checked_account(r: Result<NewAccount, ValidationError>) -> Result<
    NewAccountView,
    ValidationError,
> {
    match r {
        Ok(account) => Ok(account@),
        Err(rule) => Err(rule),
    }
}

/// The identity that the three lines of input give, or the first rule that
/// they break.
pub fn validate_registration(username_line: &str, key_line: &str, bio_line: &str) -> (r: Result<
    NewAccount,
    ValidationError,
>)
    ensures
        checked_account(r) == account_of(username_line@, key_line@, bio_line@),
{
    match validate_username(username_line) {
        Err(rule) => Err(rule),
        Ok(username) => match validate_key(key_line) {
            Err(rule) => Err(rule),
            Ok(ssh_key) => Ok(NewAccount { username, ssh_key, bio: parse_bio(bio_line) }),
        },
    }
}

/// A username of two characters or fewer is refused and one of three or
/// more is accepted; a key is accepted exactly when it begins with the key
/// marker; an empty biography is not set, and never the empty text.
pub proof fn law_registration_rules(line: Seq<char>)
    ensures
        trimmed(line).len() <= 2 ==> username_of(line) == Err::<Seq<char>, _>(
            ValidationError::UsernameTooShort,
        ),
        trimmed(line).len() >= 3 ==> username_of(line) == Ok::<_, ValidationError>(trimmed(line)),
        has_prefix(trimmed(line), key_marker()) ==> key_of(line) == Ok::<_, ValidationError>(
            trimmed(line),
        ),
        !has_prefix(trimmed(line), key_marker()) ==> key_of(line) == Err::<Seq<char>, _>(
            ValidationError::InvalidKeyFormat,
        ),
        trimmed(line).len() == 0 ==> bio_of(line) is None,
        bio_of(line) != Some(Seq::<char>::empty()),
{
}

} // verus!
