//! Identity resolution: from the signals of a session to one account.
//!
//! The strategies are tried in a fixed order. The key that the client
//! presents is looked up as it stands; then the name under which it connects,
//! with the key compared against the account's; then, where the account
//! exists but the key could not be verified, a remote session is trusted.
//! The full cascade goes on to look the name up once more without any key,
//! and at last offers registration.
//!
//! The account store and the terminal are not in this library. Resolution
//! is therefore a conversation: each step names the one thing it needs from
//! outside, an `Action`, and is resumed with the answer, an `Event`.

use crate::error::{AuthError, AuthErrorView, Declined, StorageError, StorageErrorView};
use crate::keys::{keys_match, same_key};
use crate::models::{User, UserView};
use crate::registration::{
    bio_of, key_of, parse_bio, username_of, validate_key, validate_username, NewAccount,
    NewAccountView,
};
use crate::signals::{
    client_key, current_username, fingerprint, first_authorized, first_authorized_among,
    looks_remote, optional_texts, resolve_client_key, resolve_current_username,
    resolve_fingerprint, session_looks_remote, SessionSignals, SignalsView,
};
use crate::text::{chars_of, text_of, trim_bounds, trimmed};
use vstd::prelude::*;

verus! {

/// Which avenues an attempt may take.
#[derive(Clone, Copy, Debug, PartialEq, Eq, Structural)]
pub enum Mode {
    /// The automated strategies alone.
    Automated,
    /// The automated strategies, then the name alone, then the offer to
    /// register.
    Cascade,
    /// The name alone, and an account made on the spot where none exists.
    Development,
    /// Registration alone.
    Registration,
}

/// A question put to the user.
#[derive(Clone, Copy, Debug, PartialEq, Eq, Structural)]
pub enum Prompt {
    /// Whether to register, yes or no.
    Register,
    /// The desired username.
    Username,
    /// The public key.
    Key,
    /// The biography, which may be left empty.
    Bio,
}

/// Where an attempt stands: what it is waiting for.
#[derive(Clone, Debug, PartialEq, Eq)]
pub enum Stage {
    /// For the account under the presented key.
    ByKey,
    /// For the account under the current name, to verify its key.
    ByUsername,
    /// For the account under the current name, key or no key.
    Recheck,
    /// For the answer to the offer to register.
    Offer,
    /// For the username.
    AskUsername,
    /// For the key.
    AskKey { username: String },
    /// For the biography.
    AskBio { username: String, ssh_key: String },
    /// For the store to create the account.
    Creating,
    /// For nothing: the attempt has ended.
    Finished,
}

/// Where an attempt stands, as mathematical values.
pub enum StageView {
    ByKey,
    ByUsername,
    Recheck,
    Offer,
    AskUsername,
    AskKey { username: Seq<char> },
    AskBio { username: Seq<char>, ssh_key: Seq<char> },
    Creating,
    Finished,
}

impl View for Stage {
    type V = StageView;

    open spec fn view(&self) -> StageView {
        match self {
            Stage::ByKey => StageView::ByKey,
            Stage::ByUsername => StageView::ByUsername,
            Stage::Recheck => StageView::Recheck,
            Stage::Offer => StageView::Offer,
            Stage::AskUsername => StageView::AskUsername,
            Stage::AskKey { username } => StageView::AskKey { username: username@ },
            Stage::AskBio { username, ssh_key } => StageView::AskBio {
                username: username@,
                ssh_key: ssh_key@,
            },
            Stage::Creating => StageView::Creating,
            Stage::Finished => StageView::Finished,
        }
    }
}

/// One attempt to resolve an account.
#[derive(Clone, Debug, PartialEq, Eq)]
pub struct Session {
    pub mode: Mode,
    pub stage: Stage,
    /// Why the automated strategies declined, once they have.
    pub declined: Option<Declined>,
}

/// One attempt, as mathematical values.
pub struct SessionView {
    pub mode: Mode,
    pub stage: StageView,
    pub declined: Option<Declined>,
}

impl View for Session {
    type V = SessionView;

    open spec fn view(&self) -> SessionView {
        SessionView { mode: self.mode, stage: self.stage@, declined: self.declined }
    }
}

/// What the outside answers to an action.
#[derive(Clone, Debug, PartialEq, Eq)]
pub enum Event {
    /// The store holds this account under the key or name asked for.
    Found(User),
    /// The store holds no account under the key or name asked for.
    Missing,
    /// The store failed.
    Failed(StorageError),
    /// The user entered this line.
    Line(String),
    /// The store created this account.
    Created(User),
}

/// What the outside answers, as mathematical values.
pub enum EventView {
    Found(UserView),
    Missing,
    Failed(StorageErrorView),
    Line(Seq<char>),
    Created(UserView),
}

impl View for Event {
    type V = EventView;

    open spec fn view(&self) -> EventView {
        match self {
            Event::Found(user) => EventView::Found(user@),
            Event::Missing => EventView::Missing,
            Event::Failed(error) => EventView::Failed(error@),
            Event::Line(line) => EventView::Line(line@),
            Event::Created(user) => EventView::Created(user@),
        }
    }
}

/// What an attempt needs from outside, or how it ended.
#[derive(Debug, PartialEq, Eq)]
pub enum Action {
    /// Look up the account whose stored key is exactly this text.
    LookupByKey(String),
    /// Look up the account with this username.
    LookupByUsername(String),
    /// Put this question to the user and read one line.
    Ask(Prompt),
    /// Create this account in the store.
    Create(NewAccount),
    /// Nothing more: this is the outcome.
    Done(Result<User, AuthError>),
}

/// What an attempt needs or how it ended, as mathematical values.
pub enum ActionView {
    LookupByKey(Seq<char>),
    LookupByUsername(Seq<char>),
    Ask(Prompt),
    Create(NewAccountView),
    Done(Result<UserView, AuthErrorView>),
}

/// An outcome as mathematical values.
pub open spec fn outcome_view(r: Result<User, AuthError>) -> Result<UserView, AuthErrorView> {
    match r {
        Ok(user) => Ok(user@),
        Err(error) => Err(error@),
    }
}

impl View for Action {
    type V = ActionView;

    open spec fn view(&self) -> ActionView {
        match self {
            Action::LookupByKey(key) => ActionView::LookupByKey(key@),
            Action::LookupByUsername(name) => ActionView::LookupByUsername(name@),
            Action::Ask(prompt) => ActionView::Ask(*prompt),
            Action::Create(account) => ActionView::Create(account@),
            Action::Done(outcome) => ActionView::Done(outcome_view(*outcome)),
        }
    }
}

/// The failure of an attempt on which every avenue declined, the last for
/// `cause`.
pub open spec fn exhausted(s: SignalsView, cause: Declined) -> AuthErrorView {
    AuthErrorView::AuthenticationExhausted { username: current_username(s), cause }
}

/// The end of an attempt with the given outcome.
pub open spec fn ended(
    mode: Mode,
    declined: Option<Declined>,
    outcome: Result<UserView, AuthErrorView>,
) -> (SessionView, ActionView) {
    (SessionView { mode, stage: StageView::Finished, declined }, ActionView::Done(outcome))
}

/// What follows when the automated strategies have declined for `cause`:
/// the end, or in the cascade the lookup by name alone, or, without a name,
/// the offer to register.
pub open spec fn after_declined(s: SignalsView, mode: Mode, cause: Declined) -> (
    SessionView,
    ActionView,
) {
    if mode == Mode::Cascade {
        match current_username(s) {
            Some(name) => (
                SessionView { mode, stage: StageView::Recheck, declined: Some(cause) },
                ActionView::LookupByUsername(name),
            ),
            None => (
                SessionView { mode, stage: StageView::Offer, declined: Some(cause) },
                ActionView::Ask(Prompt::Register),
            ),
        }
    } else {
        ended(mode, Some(cause), Err(exhausted(s, cause)))
    }
}

/// What follows when the key resolved no account: the lookup by the
/// current name, or, without a name, what follows a decline.
pub open spec fn after_key(s: SignalsView, mode: Mode) -> (SessionView, ActionView) {
    match current_username(s) {
        Some(name) => (
            SessionView { mode, stage: StageView::ByUsername, declined: None },
            ActionView::LookupByUsername(name),
        ),
        None => after_declined(s, mode, Declined::SignalUnavailable),
    }
}

/// Whether the presented key is verified against the account's stored key.
pub open spec fn key_verified(s: SignalsView, account: UserView) -> bool {
    client_key(s) is Some && same_key(account.ssh_key, client_key(s)->0)
}

/// Why an account that was found under the current name is not accepted on
/// its key.
pub open spec fn unverified_cause(s: SignalsView) -> Declined {
    if client_key(s) is Some {
        Declined::KeyMismatch
    } else {
        Declined::SignalUnavailable
    }
}

/// Whether a line says yes to the offer to register: trimmed it is `y`, in
/// either case.
pub open spec fn accepts(line: Seq<char>) -> bool {
    trimmed(line) == seq!['y'] || trimmed(line) == seq!['Y']
}

/// The account that development mode makes where the current name has none.
pub open spec fn dev_account(s: SignalsView) -> NewAccountView {
    NewAccountView {
        username: match current_username(s) {
            Some(name) => name,
            None => "dev_user"@,
        },
        ssh_key: "ssh-rsa AAAAB3NzaC1yc2EAAAADAQABAAABAQC7... dev-key"@,
        bio: Some("Development user"@),
    }
}

/// The first step of an attempt: the state it is in and what it needs.
pub open spec fn begin(s: SignalsView, mode: Mode) -> (SessionView, ActionView) {
    match mode {
        Mode::Automated | Mode::Cascade => match client_key(s) {
            Some(key) => (
                SessionView { mode, stage: StageView::ByKey, declined: None },
                ActionView::LookupByKey(key),
            ),
            None => after_key(s, mode),
        },
        Mode::Development => match current_username(s) {
            Some(name) => (
                SessionView { mode, stage: StageView::Recheck, declined: None },
                ActionView::LookupByUsername(name),
            ),
            None => (
                SessionView { mode, stage: StageView::Creating, declined: None },
                ActionView::Create(dev_account(s)),
            ),
        },
        Mode::Registration => (
            SessionView { mode, stage: StageView::AskUsername, declined: None },
            ActionView::Ask(Prompt::Username),
        ),
    }
}

/// The end of an attempt that was answered out of turn.
pub open spec fn out_of_turn(s: SignalsView, session: SessionView) -> (SessionView, ActionView) {
    ended(session.mode, session.declined, Err(exhausted(s, Declined::OutOfTurn)))
}

/// The next step of an attempt: from the state it is in and the answer to
/// what it asked for, the state it moves to and what it needs next.
pub open spec fn step(s: SignalsView, session: SessionView, event: EventView) -> (
    SessionView,
    ActionView,
) {
    let mode = session.mode;
    let declined = session.declined;
    match (session.stage, event) {
        (StageView::ByKey, EventView::Found(account)) => ended(mode, declined, Ok(account)),
        (StageView::ByKey, EventView::Missing) => after_key(s, mode),
        (StageView::ByUsername, EventView::Found(account)) => {
            if key_verified(s, account) || looks_remote(s) {
                ended(mode, declined, Ok(account))
            } else {
                after_declined(s, mode, unverified_cause(s))
            }
        },
        (StageView::ByUsername, EventView::Missing) => after_declined(
            s,
            mode,
            Declined::AccountNotFound,
        ),
        (StageView::Recheck, EventView::Found(account)) => ended(mode, declined, Ok(account)),
        (StageView::Recheck, EventView::Missing) => {
            if mode == Mode::Development {
                (
                    SessionView { mode, stage: StageView::Creating, declined },
                    ActionView::Create(dev_account(s)),
                )
            } else {
                (
                    SessionView { mode, stage: StageView::Offer, declined },
                    ActionView::Ask(Prompt::Register),
                )
            }
        },
        (StageView::ByKey, EventView::Failed(error))
        | (StageView::ByUsername, EventView::Failed(error))
        | (StageView::Recheck, EventView::Failed(error))
        | (StageView::Creating, EventView::Failed(error)) => ended(
            mode,
            declined,
            Err(AuthErrorView::Storage(error)),
        ),
        (StageView::Offer, EventView::Line(line)) => {
            if accepts(line) {
                (
                    SessionView { mode, stage: StageView::AskUsername, declined },
                    ActionView::Ask(Prompt::Username),
                )
            } else {
                ended(mode, declined, Err(exhausted(s, Declined::RegistrationRefused)))
            }
        },
        (StageView::AskUsername, EventView::Line(line)) => match username_of(line) {
            Ok(username) => (
                SessionView { mode, stage: StageView::AskKey { username }, declined },
                ActionView::Ask(Prompt::Key),
            ),
            Err(rule) => ended(mode, declined, Err(AuthErrorView::Validation(rule))),
        },
        (StageView::AskKey { username }, EventView::Line(line)) => match key_of(line) {
            Ok(ssh_key) => (
                SessionView { mode, stage: StageView::AskBio { username, ssh_key }, declined },
                ActionView::Ask(Prompt::Bio),
            ),
            Err(rule) => ended(mode, declined, Err(AuthErrorView::Validation(rule))),
        },
        (StageView::AskBio { username, ssh_key }, EventView::Line(line)) => (
            SessionView { mode, stage: StageView::Creating, declined },
            ActionView::Create(NewAccountView { username, ssh_key, bio: bio_of(line) }),
        ),
        (StageView::Creating, EventView::Created(account)) => ended(mode, declined, Ok(account)),
        _ => out_of_turn(s, session),
    }
}

/// The resolver of one session. It holds the signals of the session as they
/// were gathered, and reads every strategy's inputs from them.
#[derive(Clone, Debug, PartialEq, Eq)]
pub struct UserManager {
    pub signals: SessionSignals,
}

impl View for UserManager {
    type V = SignalsView;

    open spec fn view(&self) -> SignalsView {
        self.signals@
    }
}

/// Whether `line` says yes to the offer to register.
pub fn says_yes(line: &str) -> (r: bool)
    ensures
        r == accepts(line@),
{
    let v = chars_of(line);
    let (from, to) = trim_bounds(&v);
    if to - from == 1 {
        assert(v@.subrange(from as int, to as int) =~= seq![v@[from as int]]);
        assert(seq!['y'][0] == 'y' && seq!['Y'][0] == 'Y');
        v[from] == 'y' || v[from] == 'Y'
    } else {
        assert(seq!['y'].len() == 1 && seq!['Y'].len() == 1);
        false
    }
}

impl Session {
    /// The end of an attempt with the given outcome.
    fn finished(mode: Mode, declined: Option<Declined>, outcome: Result<User, AuthError>) -> (r: (
        Session,
        Action,
    ))
        ensures
            (r.0@, r.1@) == ended(mode, declined, outcome_view(outcome)),
    {
        (Session { mode, stage: Stage::Finished, declined }, Action::Done(outcome))
    }

    /// Whether the attempt has ended.
    pub fn is_finished(&self) -> (r: bool)
        ensures
            r == (self@.stage == StageView::Finished),
    {
        match self.stage {
            Stage::Finished => true,
            _ => false,
        }
    }
}

impl UserManager {
    /// The resolver of the session that showed `signals`.
    pub fn new(signals: SessionSignals) -> (r: UserManager)
        ensures
            r.signals == signals,
    {
        UserManager { signals }
    }

    /// The fingerprint of the client's key, where the session shows one.
    pub fn get_ssh_key_fingerprint(&self) -> (r: Option<String>)
        ensures
            text_of(r) == fingerprint(self@),
    {
        resolve_fingerprint(&self.signals)
    }

    /// The key that the client presents; `SignalUnavailable` where no source
    /// shows one.
    pub fn get_client_ssh_key(&self) -> (r: Result<String, Declined>)
        ensures
            match r {
                Ok(key) => client_key(self@) == Some(key@),
                Err(cause) => cause == Declined::SignalUnavailable && client_key(self@) is None,
            },
    {
        match resolve_client_key(&self.signals) {
            Some(key) => Ok(key),
            None => Err(Declined::SignalUnavailable),
        }
    }

    /// The name under which the client connects; `SignalUnavailable` where
    /// no source shows one.
    pub fn get_current_username(&self) -> (r: Result<String, Declined>)
        ensures
            match r {
                Ok(name) => current_username(self@) == Some(name@),
                Err(cause) => cause == Declined::SignalUnavailable && current_username(self@)
                    is None,
            },
    {
        match resolve_current_username(&self.signals) {
            Some(name) => Ok(name),
            None => Err(Declined::SignalUnavailable),
        }
    }

    /// Whether `presented_key` is the key of `account`. Without an account
    /// nothing is verified.
    pub fn verify_ssh_key(account: &Option<User>, presented_key: &str) -> (r: bool)
        ensures
            r == (account is Some && same_key(account->0@.ssh_key, presented_key@)),
    {
        match account {
            Some(user) => keys_match(user.ssh_key.as_str(), presented_key),
            None => false,
        }
    }

    /// The first key among the files of authorized keys of a user. Each of
    /// `files` is the contents of the file at one of `authorized_keys_paths`,
    /// in that order, or nothing where it could not be read.
    pub fn get_user_from_authorized_keys(files: &Vec<Option<String>>) -> (r: Option<String>)
        ensures
            text_of(r) == first_authorized(optional_texts(files@)),
    {
        first_authorized_among(files)
    }

    /// Records on `user` what the store answered to its creation: the
    /// identifier it assigned, or its failure, which leaves the account as it
    /// was.
    pub fn create_user_direct(user: &mut User, assigned: Result<i64, StorageError>) -> (r: Result<
        (),
        StorageError,
    >)
        ensures
            match assigned {
                Ok(id) => r is Ok && *final(user) == (User { id: Some(id), ..*old(user) }),
                Err(error) => r == Err::<(), _>(error) && *final(user) == *old(user),
            },
    {
        match assigned {
            Ok(id) => {
                user.id = Some(id);
                Ok(())
            },
            Err(error) => Err(error),
        }
    }

    /// The failure of an attempt on which every avenue declined.
    fn exhausted(&self, cause: Declined) -> (e: AuthError)
        ensures
            e@ == exhausted(self@, cause),
    {
        AuthError::AuthenticationExhausted {
            username: resolve_current_username(&self.signals),
            cause,
        }
    }

    /// What follows when the automated strategies have declined.
    fn after_declined(&self, mode: Mode, cause: Declined) -> (r: (Session, Action))
        ensures
            (r.0@, r.1@) == after_declined(self@, mode, cause),
    {
        match mode {
            Mode::Cascade => match resolve_current_username(&self.signals) {
                Some(name) => (
                    Session { mode, stage: Stage::Recheck, declined: Some(cause) },
                    Action::LookupByUsername(name),
                ),
                None => (
                    Session { mode, stage: Stage::Offer, declined: Some(cause) },
                    Action::Ask(Prompt::Register),
                ),
            },
            _ => Session::finished(mode, Some(cause), Err(self.exhausted(cause))),
        }
    }

    /// What follows when the key resolved no account.
    fn after_key(&self, mode: Mode) -> (r: (Session, Action))
        ensures
            (r.0@, r.1@) == after_key(self@, mode),
    {
        match resolve_current_username(&self.signals) {
            Some(name) => (
                Session { mode, stage: Stage::ByUsername, declined: None },
                Action::LookupByUsername(name),
            ),
            None => self.after_declined(mode, Declined::SignalUnavailable),
        }
    }

    /// The account that development mode makes.
    fn dev_account(&self) -> (r: NewAccount)
        ensures
            r@ == dev_account(self@),
    {
        let username = match resolve_current_username(&self.signals) {
            Some(name) => name,
            None => String::from_str("dev_user"),
        };
        NewAccount {
            username,
            ssh_key: String::from_str("ssh-rsa AAAAB3NzaC1yc2EAAAADAQABAAABAQC7... dev-key"),
            bio: Some(String::from_str("Development user")),
        }
    }

    /// Begins an attempt in the given mode: the state it is in and what it
    /// needs first.
    pub fn begin(&self, mode: Mode) -> (r: (Session, Action))
        ensures
            (r.0@, r.1@) == begin(self@, mode),
    {
        match mode {
            Mode::Automated | Mode::Cascade => match resolve_client_key(&self.signals) {
                Some(key) => (
                    Session { mode, stage: Stage::ByKey, declined: None },
                    Action::LookupByKey(key),
                ),
                None => self.after_key(mode),
            },
            Mode::Development => match resolve_current_username(&self.signals) {
                Some(name) => (
                    Session { mode, stage: Stage::Recheck, declined: None },
                    Action::LookupByUsername(name),
                ),
                None => (
                    Session { mode, stage: Stage::Creating, declined: None },
                    Action::Create(self.dev_account()),
                ),
            },
            Mode::Registration => (
                Session { mode, stage: Stage::AskUsername, declined: None },
                Action::Ask(Prompt::Username),
            ),
        }
    }

    /// Begins the automated strategies: by key, by name with the key
    /// verified, by name in a remote session.
    pub fn authenticate_from_ssh(&self) -> (r: (Session, Action))
        ensures
            (r.0@, r.1@) == begin(self@, Mode::Automated),
    {
        self.begin(Mode::Automated)
    }

    /// Begins the full cascade: the automated strategies, then the name
    /// alone, then the offer to register.
    pub fn authenticate_with_fallback(&self) -> (r: (Session, Action))
        ensures
            (r.0@, r.1@) == begin(self@, Mode::Cascade),
    {
        self.begin(Mode::Cascade)
    }

    /// Begins development mode: the name alone, and an account made on the
    /// spot where none exists.
    pub fn authenticate_dev_mode(&self) -> (r: (Session, Action))
        ensures
            (r.0@, r.1@) == begin(self@, Mode::Development),
    {
        self.begin(Mode::Development)
    }

    /// Begins registration.
    pub fn register_user_with_ssh(&self) -> (r: (Session, Action))
        ensures
            (r.0@, r.1@) == begin(self@, Mode::Registration),
    {
        self.begin(Mode::Registration)
    }

    /// Resumes an attempt with the answer to what it asked for: the state it
    /// moves to and what it needs next. An answer that the pending request
    /// did not ask for ends the attempt in failure.
    pub fn advance(&self, session: Session, event: Event) -> (r: (Session, Action))
        ensures
            (r.0@, r.1@) == step(self@, session@, event@),
    {
        let Session { mode, stage, declined } = session;
        match stage {
            Stage::ByKey => match event {
                Event::Found(account) => Session::finished(mode, declined, Ok(account)),
                Event::Missing => self.after_key(mode),
                Event::Failed(error) => Session::finished(
                    mode,
                    declined,
                    Err(AuthError::Storage(error)),
                ),
                _ => Session::finished(mode, declined, Err(self.exhausted(Declined::OutOfTurn))),
            },
            Stage::ByUsername => match event {
                Event::Found(account) => {
                    let key = resolve_client_key(&self.signals);
                    let verified = match &key {
                        Some(presented) => keys_match(
                            account.ssh_key.as_str(),
                            presented.as_str(),
                        ),
                        None => false,
                    };
                    if verified || session_looks_remote(&self.signals) {
                        Session::finished(mode, declined, Ok(account))
                    } else if key.is_some() {
                        self.after_declined(mode, Declined::KeyMismatch)
                    } else {
                        self.after_declined(mode, Declined::SignalUnavailable)
                    }
                },
                Event::Missing => self.after_declined(mode, Declined::AccountNotFound),
                Event::Failed(error) => Session::finished(
                    mode,
                    declined,
                    Err(AuthError::Storage(error)),
                ),
                _ => Session::finished(mode, declined, Err(self.exhausted(Declined::OutOfTurn))),
            },
            Stage::Recheck => match event {
                Event::Found(account) => Session::finished(mode, declined, Ok(account)),
                Event::Missing => match mode {
                    Mode::Development => (
                        Session { mode, stage: Stage::Creating, declined },
                        Action::Create(self.dev_account()),
                    ),
                    _ => (
                        Session { mode, stage: Stage::Offer, declined },
                        Action::Ask(Prompt::Register),
                    ),
                },
                Event::Failed(error) => Session::finished(
                    mode,
                    declined,
                    Err(AuthError::Storage(error)),
                ),
                _ => Session::finished(mode, declined, Err(self.exhausted(Declined::OutOfTurn))),
            },
            Stage::Offer => match event {
                Event::Line(line) => {
                    if says_yes(line.as_str()) {
                        (
                            Session { mode, stage: Stage::AskUsername, declined },
                            Action::Ask(Prompt::Username),
                        )
                    } else {
                        Session::finished(
                            mode,
                            declined,
                            Err(self.exhausted(Declined::RegistrationRefused)),
                        )
                    }
                },
                _ => Session::finished(mode, declined, Err(self.exhausted(Declined::OutOfTurn))),
            },
            Stage::AskUsername => match event {
                Event::Line(line) => match validate_username(line.as_str()) {
                    Ok(username) => (
                        Session { mode, stage: Stage::AskKey { username }, declined },
                        Action::Ask(Prompt::Key),
                    ),
                    Err(rule) => Session::finished(mode, declined, Err(AuthError::Validation(rule))),
                },
                _ => Session::finished(mode, declined, Err(self.exhausted(Declined::OutOfTurn))),
            },
            Stage::AskKey { username } => match event {
                Event::Line(line) => match validate_key(line.as_str()) {
                    Ok(ssh_key) => (
                        Session { mode, stage: Stage::AskBio { username, ssh_key }, declined },
                        Action::Ask(Prompt::Bio),
                    ),
                    Err(rule) => Session::finished(mode, declined, Err(AuthError::Validation(rule))),
                },
                _ => Session::finished(mode, declined, Err(self.exhausted(Declined::OutOfTurn))),
            },
            Stage::AskBio { username, ssh_key } => match event {
                Event::Line(line) => (
                    Session { mode, stage: Stage::Creating, declined },
                    Action::Create(NewAccount { username, ssh_key, bio: parse_bio(line.as_str()) }),
                ),
                _ => Session::finished(mode, declined, Err(self.exhausted(Declined::OutOfTurn))),
            },
            Stage::Creating => match event {
                Event::Created(account) => Session::finished(mode, declined, Ok(account)),
                Event::Failed(error) => Session::finished(
                    mode,
                    declined,
                    Err(AuthError::Storage(error)),
                ),
                _ => Session::finished(mode, declined, Err(self.exhausted(Declined::OutOfTurn))),
            },
            Stage::Finished => Session::finished(
                mode,
                declined,
                Err(self.exhausted(Declined::OutOfTurn)),
            ),
        }
    }
}

} // verus!
