//! The ways in which authentication and registration fail.

use crate::text::text_of;
use vstd::prelude::*;

verus! {

/// The rule that an input to registration breaks.
#[derive(Clone, Copy, Debug, PartialEq, Eq, Structural)]
pub enum ValidationError {
    /// The username has fewer than three characters.
    UsernameTooShort,
    /// The key does not begin with the key marker.
    InvalidKeyFormat,
}

/// Why no strategy resolved an account.
#[derive(Clone, Copy, Debug, PartialEq, Eq, Structural)]
pub enum Declined {
    /// A signal that a strategy needs was not to be had.
    SignalUnavailable,
    /// No account stands under the name.
    AccountNotFound,
    /// The presented key is not the key of the account.
    KeyMismatch,
    /// The offer to register was not taken.
    RegistrationRefused,
    /// An answer came that the pending request did not ask for.
    OutOfTurn,
}

/// A failure of the account store.
#[derive(Clone, Debug, PartialEq, Eq)]
pub enum StorageError {
    /// A value that must be unique is taken; `field` names it.
    Conflict { field: String },
    /// The store could not complete the operation.
    Unavailable { detail: String },
}

/// A failure of the account store, as mathematical values.
pub enum StorageErrorView {
    Conflict { field: Seq<char> },
    Unavailable { detail: Seq<char> },
}

impl View for StorageError {
    type V = StorageErrorView;

    open spec fn view(&self) -> StorageErrorView {
        match self {
            StorageError::Conflict { field } => StorageErrorView::Conflict { field: field@ },
            StorageError::Unavailable { detail } => StorageErrorView::Unavailable {
                detail: detail@,
            },
        }
    }
}

/// The failure of an attempt to authenticate or to register.
#[derive(Clone, Debug, PartialEq, Eq)]
pub enum AuthError {
    /// Every avenue was tried and none resolved an account. `username` is
    /// the name that was attempted, where one was found.
    AuthenticationExhausted { username: Option<String>, cause: Declined },
    /// An input to registration broke a rule.
    Validation(ValidationError),
    /// The account store failed.
    Storage(StorageError),
}

/// The failure of an attempt, as mathematical values.
pub enum AuthErrorView {
    AuthenticationExhausted { username: Option<Seq<char>>, cause: Declined },
    Validation(ValidationError),
    Storage(StorageErrorView),
}

impl View for AuthError {
    type V = AuthErrorView;

    open spec fn view(&self) -> AuthErrorView {
        match self {
            AuthError::AuthenticationExhausted { username, cause } => {
                AuthErrorView::AuthenticationExhausted {
                    username: text_of(*username),
                    cause: *cause,
                }
            },
            AuthError::Validation(rule) => AuthErrorView::Validation(*rule),
            AuthError::Storage(error) => AuthErrorView::Storage(error@),
        }
    }
}

/// What is said to the user of a broken rule.
pub open spec fn validation_text(rule: ValidationError) -> Seq<char> {
    match rule {
        ValidationError::UsernameTooShort => "Username must be at least 3 characters long"@,
        ValidationError::InvalidKeyFormat => "Invalid SSH key format"@,
    }
}

/// What is said to the user of a failure of the store.
pub open spec fn storage_text(error: StorageErrorView) -> Seq<char> {
    match error {
        StorageErrorView::Conflict { field } => "A value that must be unique is taken: "@ + field,
        StorageErrorView::Unavailable { detail } => detail,
    }
}

/// What is said to the user of a failure.
pub open spec fn message_text(error: AuthErrorView) -> Seq<char> {
    match error {
        AuthErrorView::AuthenticationExhausted { username, cause } => {
            if cause == Declined::RegistrationRefused || cause == Declined::OutOfTurn {
                "Authentication failed. Please register first or contact admin."@
            } else if username is Some {
                "User '"@ + username->0
                    + "' not found or SSH key verification failed. Please register first."@
            } else {
                "Could not determine current user"@
            }
        },
        AuthErrorView::Validation(rule) => validation_text(rule),
        AuthErrorView::Storage(error) => storage_text(error),
    }
}

impl ValidationError {
    /// What is said to the user of the broken rule.
    pub fn message(&self) -> (r: String)
        ensures
            r@ == validation_text(*self),
    {
        match self {
            ValidationError::UsernameTooShort => String::from_str(
                "Username must be at least 3 characters long",
            ),
            ValidationError::InvalidKeyFormat => String::from_str("Invalid SSH key format"),
        }
    }
}

impl StorageError {
    /// What is said to the user of the failure.
    pub fn message(&self) -> (r: String)
        ensures
            r@ == storage_text(self@),
    {
        match self {
            StorageError::Conflict { field } => String::from_str(
                "A value that must be unique is taken: ",
            ).concat(field.as_str()),
            StorageError::Unavailable { detail } => detail.clone(),
        }
    }
}

impl AuthError {
    /// What is said to the user of the failure.
    pub fn message(&self) -> (r: String)
        ensures
            r@ == message_text(self@),
    {
        match self {
            AuthError::AuthenticationExhausted { username, cause } => {
                match cause {
                    Declined::RegistrationRefused | Declined::OutOfTurn => String::from_str(
                        "Authentication failed. Please register first or contact admin.",
                    ),
                    _ => match username {
                        Some(name) => String::from_str("User '").concat(name.as_str()).concat(
                            "' not found or SSH key verification failed. Please register first.",
                        ),
                        None => String::from_str("Could not determine current user"),
                    },
                }
            },
            AuthError::Validation(rule) => rule.message(),
            AuthError::Storage(error) => error.message(),
        }
    }
}

} // verus!
