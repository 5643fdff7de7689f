use ssh_blog::error::{AuthError, Declined, StorageError, ValidationError};
use ssh_blog::models::{Timestamp, User};
use ssh_blog::resolution::resolve;
use ssh_blog::signals::SessionSignals;
use ssh_blog::store::AccountStore;
use ssh_blog::user::{Mode, UserManager};

const ALICE_KEY: &str = "ssh-ed25519 AAAA... alice@host";
const BOB_KEY: &str = "ssh-rsa BBBB bob@host";

fn now() -> Timestamp {
    Timestamp { secs: 1_700_000_000, nanos: 0 }
}

fn nothing() -> SessionSignals {
    SessionSignals {
        original_command: None,
        agent_output: None,
        client_key_file: None,
        user: None,
        ssh_user: None,
        logname: None,
        username: None,
        whoami: None,
        ssh_client: false,
        ssh_connection: false,
        key_fingerprint: None,
        key_fp: None,
    }
}

fn session(user: Option<&str>, key: Option<&str>, remote: bool) -> UserManager {
    let mut s = nothing();
    s.user = user.map(|u| u.to_string());
    s.agent_output = key.map(|k| format!("{}\n", k));
    s.ssh_client = remote;
    UserManager::new(s)
}

fn stored(username: &str, ssh_key: &str) -> User {
    User {
        id: None,
        username: username.to_string(),
        ssh_key: ssh_key.to_string(),
        bio: None,
        created_at: Timestamp { secs: 1_600_000_000, nanos: 0 },
    }
}

fn store_with_alice_and_bob() -> (AccountStore, User, User) {
    let mut store = AccountStore::new();
    let alice = store.create(stored("alice", ALICE_KEY)).unwrap();
    let bob = store.create(stored("bob", BOB_KEY)).unwrap();
    (store, alice, bob)
}

fn lines(entered: &[&str]) -> Vec<String> {
    entered.iter().map(|l| l.to_string()).collect()
}

fn exhausted(username: Option<&str>, cause: Declined) -> AuthError {
    AuthError::AuthenticationExhausted { username: username.map(|n| n.to_string()), cause }
}

#[test]
fn the_stored_key_resolves_its_account_whatever_the_name() {
    for mode in [Mode::Automated, Mode::Cascade] {
        for user in [None, Some("alice"), Some("bob"), Some("carol")] {
            let (mut store, alice, _) = store_with_alice_and_bob();
            let manager = session(user, Some(ALICE_KEY), false);
            assert_eq!(resolve(&manager, mode, &mut store, &lines(&[]), now()), Ok(alice));
            assert_eq!(store.len(), 2);
        }
    }
}

#[test]
fn a_remote_session_is_trusted_without_a_key() {
    for mode in [Mode::Automated, Mode::Cascade] {
        let (mut store, alice, _) = store_with_alice_and_bob();
        let manager = session(Some("alice"), None, true);
        assert_eq!(resolve(&manager, mode, &mut store, &lines(&[]), now()), Ok(alice));
    }
}

#[test]
fn a_verified_key_resolves_the_named_account() {
    let (mut store, alice, _) = store_with_alice_and_bob();
    let manager = session(Some("alice"), Some("ssh-ed25519 AAAA... laptop"), false);
    assert_eq!(resolve(&manager, Mode::Automated, &mut store, &lines(&[]), now()), Ok(alice));
}

#[test]
fn a_mismatched_key_exhausts_the_automated_strategies() {
    let (mut store, _, _) = store_with_alice_and_bob();
    let manager = session(Some("alice"), Some("ssh-ed25519 ZZZZ alice@host"), false);
    assert_eq!(
        resolve(&manager, Mode::Automated, &mut store, &lines(&[]), now()),
        Err(exhausted(Some("alice"), Declined::KeyMismatch))
    );
    assert_eq!(store.len(), 2);
}

#[test]
fn a_key_of_another_account_resolves_that_account() {
    let (mut store, _, bob) = store_with_alice_and_bob();
    let manager = session(Some("alice"), Some(BOB_KEY), false);
    assert_eq!(resolve(&manager, Mode::Automated, &mut store, &lines(&[]), now()), Ok(bob));
}

#[test]
fn no_key_and_no_remote_session_exhaust_the_automated_strategies() {
    let (mut store, _, _) = store_with_alice_and_bob();
    let manager = session(Some("alice"), None, false);
    assert_eq!(
        resolve(&manager, Mode::Automated, &mut store, &lines(&[]), now()),
        Err(exhausted(Some("alice"), Declined::SignalUnavailable))
    );
}

#[test]
fn the_cascade_accepts_the_name_alone() {
    let (mut store, alice, _) = store_with_alice_and_bob();
    let manager = session(Some("alice"), None, false);
    assert_eq!(
        resolve(&manager, Mode::Cascade, &mut store, &lines(&[]), now()),
        Ok(User { id: Some(1), ..stored("alice", ALICE_KEY) })
    );
    let manager = session(Some("alice"), Some("ssh-ed25519 ZZZZ alice@host"), false);
    assert_eq!(resolve(&manager, Mode::Cascade, &mut store, &lines(&[]), now()), Ok(alice));
}

#[test]
fn an_unknown_name_is_exhausted_or_offered_registration() {
    let (mut store, _, _) = store_with_alice_and_bob();
    let manager = session(Some("carol"), None, true);
    assert_eq!(
        resolve(&manager, Mode::Automated, &mut store, &lines(&[]), now()),
        Err(exhausted(Some("carol"), Declined::AccountNotFound))
    );
    assert_eq!(
        resolve(&manager, Mode::Cascade, &mut store, &lines(&["n\n"]), now()),
        Err(exhausted(Some("carol"), Declined::RegistrationRefused))
    );
    assert_eq!(
        resolve(&manager, Mode::Cascade, &mut store, &lines(&["maybe\n"]), now()),
        Err(exhausted(Some("carol"), Declined::RegistrationRefused))
    );
    assert_eq!(
        resolve(&manager, Mode::Cascade, &mut store, &lines(&[]), now()),
        Err(exhausted(Some("carol"), Declined::RegistrationRefused))
    );
    assert_eq!(store.len(), 2);
}

#[test]
fn the_cascade_registers_on_yes() {
    let (mut store, _, _) = store_with_alice_and_bob();
    let manager = session(Some("carol"), None, false);
    let entered = lines(&["Y\n", "carol\n", "ssh-rsa CCCC carol@host\n", "Writes.\n"]);
    assert_eq!(
        resolve(&manager, Mode::Cascade, &mut store, &entered, now()),
        Ok(User {
            id: Some(3),
            username: "carol".to_string(),
            ssh_key: "ssh-rsa CCCC carol@host".to_string(),
            bio: Some("Writes.".to_string()),
            created_at: now(),
        })
    );
    assert_eq!(store.len(), 3);
    assert_eq!(
        resolve(&manager, Mode::Automated, &mut store, &lines(&[]), now()),
        Err(exhausted(Some("carol"), Declined::SignalUnavailable))
    );
}

#[test]
fn registration_stores_what_was_entered() {
    let mut store = AccountStore::new();
    let manager = session(None, None, false);
    let entered = lines(&["  dave \n", " ssh-ed25519 DDDD \n", "\n"]);
    let dave = User {
        id: Some(1),
        username: "dave".to_string(),
        ssh_key: "ssh-ed25519 DDDD".to_string(),
        bio: None,
        created_at: now(),
    };
    assert_eq!(
        resolve(&manager, Mode::Registration, &mut store, &entered, now()),
        Ok(User { ..dave.clone() })
    );
    assert_eq!(store.lookup_by_username("dave"), Some(dave));
}

#[test]
fn registration_refuses_what_breaks_a_rule() {
    let mut store = AccountStore::new();
    let manager = session(None, None, false);
    assert_eq!(
        resolve(&manager, Mode::Registration, &mut store, &lines(&["ab\n", "ssh-rsa A\n", "\n"]), now()),
        Err(AuthError::Validation(ValidationError::UsernameTooShort))
    );
    assert_eq!(
        resolve(&manager, Mode::Registration, &mut store, &lines(&["abc\n", "rsa A\n", "\n"]), now()),
        Err(AuthError::Validation(ValidationError::InvalidKeyFormat))
    );
    assert_eq!(
        resolve(&manager, Mode::Registration, &mut store, &lines(&[]), now()),
        Err(AuthError::Validation(ValidationError::UsernameTooShort))
    );
    assert_eq!(store.len(), 0);
    assert!(resolve(&manager, Mode::Registration, &mut store, &lines(&["abc\n", "ssh-rsa A\n"]), now())
        .is_ok());
    assert_eq!(store.len(), 1);
}

#[test]
fn two_registrations_for_one_username_do_not_both_succeed() {
    let mut store = AccountStore::new();
    let manager = session(None, None, false);
    let first = lines(&["erin\n", "ssh-rsa EEEE erin@one\n", "first\n"]);
    let second = lines(&[" erin \n", "ssh-rsa FFFF erin@two\n", "second\n"]);
    let erin = resolve(&manager, Mode::Registration, &mut store, &first, now()).unwrap();
    assert_eq!(
        resolve(&manager, Mode::Registration, &mut store, &second, now()),
        Err(AuthError::Storage(StorageError::Conflict { field: "username".to_string() }))
    );
    assert_eq!(store.len(), 1);
    assert_eq!(store.lookup_by_username("erin"), Some(erin));
    assert_eq!(store.lookup_by_key("ssh-rsa FFFF erin@two"), None);
}

#[test]
fn development_mode_resolves_or_creates() {
    let (mut store, alice, _) = store_with_alice_and_bob();
    let manager = session(Some("alice"), Some("ssh-rsa WRONG"), false);
    assert_eq!(resolve(&manager, Mode::Development, &mut store, &lines(&[]), now()), Ok(alice));
    let manager = session(Some("frank"), None, false);
    assert_eq!(
        resolve(&manager, Mode::Development, &mut store, &lines(&[]), now()),
        Ok(User {
            id: Some(3),
            username: "frank".to_string(),
            ssh_key: "ssh-rsa AAAAB3NzaC1yc2EAAAADAQABAAABAQC7... dev-key".to_string(),
            bio: Some("Development user".to_string()),
            created_at: now(),
        })
    );
    let manager = session(Some("grace"), None, false);
    assert_eq!(
        resolve(&manager, Mode::Development, &mut store, &lines(&[]), now()),
        Err(AuthError::Storage(StorageError::Conflict { field: "ssh_key".to_string() }))
    );
}

#[test]
fn scenario_no_key_signals_user_alice_not_remote() {
    let mut store = AccountStore::new();
    let alice = store.create(stored("alice", "ssh-ed25519 AAAA... alice@host")).unwrap();
    let mut signals = nothing();
    signals.user = Some("alice".to_string());
    let manager = UserManager::new(signals);
    assert_eq!(manager.get_client_ssh_key(), Err(Declined::SignalUnavailable));
    assert_eq!(
        resolve(&manager, Mode::Automated, &mut store, &lines(&[]), now()),
        Err(AuthError::AuthenticationExhausted {
            username: Some("alice".to_string()),
            cause: Declined::SignalUnavailable,
        })
    );
    assert_eq!(resolve(&manager, Mode::Cascade, &mut store, &lines(&[]), now()), Ok(alice));
}
