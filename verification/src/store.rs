//! The account store, held in memory.
//!
//! A store answers three questions: which account stands under a username,
//! which under a key, and whether a new account can be created. Usernames
//! and keys are each unique across its accounts. The store here keeps its
//! accounts in memory; it is the measure for any other store.

use crate::error::{StorageError, StorageErrorView};
use crate::models::{User, UserView};
use crate::text::same_text;
use vstd::prelude::*;

verus! {

/// The first of `accounts` with the username `name`.
pub open spec fn by_username(accounts: Seq<UserView>, name: Seq<char>) -> Option<UserView>
    decreases accounts.len(),
{
    if accounts.len() == 0 {
        None
    } else if accounts[0].username == name {
        Some(accounts[0])
    } else {
        by_username(accounts.drop_first(), name)
    }
}

/// The first of `accounts` whose stored key is exactly `key`.
pub open spec fn by_key(accounts: Seq<UserView>, key: Seq<char>) -> Option<UserView>
    decreases accounts.len(),
{
    if accounts.len() == 0 {
        None
    } else if accounts[0].ssh_key == key {
        Some(accounts[0])
    } else {
        by_key(accounts.drop_first(), key)
    }
}

/// How many of `accounts` have the username `name`.
pub open spec fn count_named(accounts: Seq<UserView>, name: Seq<char>) -> nat
    decreases accounts.len(),
{
    if accounts.len() == 0 {
        0
    } else {
        count_named(accounts.drop_last(), name) + if accounts.last().username == name {
            1nat
        } else {
            0nat
        }
    }
}

/// The name of the field that holds usernames.
pub open spec fn username_field() -> Seq<char> {
    "username"@
}

/// The name of the field that holds keys.
pub open spec fn key_field() -> Seq<char> {
    "ssh_key"@
}

/// What is said when no identifier is left.
pub open spec fn exhausted_detail() -> Seq<char> {
    "no identifier is left"@
}

/// The accounts of a store and the identifier that it assigns next.
pub struct StoreView {
    pub accounts: Seq<UserView>,
    pub next_id: i64,
}

/// `account` as the store keeps it: under the identifier `id`.
pub open spec fn stored(account: UserView, id: i64) -> UserView {
    UserView { id: Some(id), ..account }
}

/// What the store answers to the creation of `account`: the account as it
/// is stored, or the conflict that prevents it. The username is judged
/// first, then the key.
pub open spec fn creation(store: StoreView, account: UserView) -> Result<
    UserView,
    StorageErrorView,
> {
    if by_username(store.accounts, account.username) is Some {
        Err(StorageErrorView::Conflict { field: username_field() })
    } else if by_key(store.accounts, account.ssh_key) is Some {
        Err(StorageErrorView::Conflict { field: key_field() })
    } else if store.next_id == i64::MAX {
        Err(StorageErrorView::Unavailable { detail: exhausted_detail() })
    } else {
        Ok(stored(account, store.next_id))
    }
}

/// The store after the creation of `account` was asked for: with the new
/// account at its end, or, where creation failed, unchanged.
pub open spec fn after_creation(store: StoreView, account: UserView) -> StoreView {
    match creation(store, account) {
        Ok(user) => StoreView {
            accounts: store.accounts.push(user),
            next_id: (store.next_id + 1) as i64,
        },
        Err(_) => store,
    }
}

/// Whether the store is sound: no username and no key occurs twice, and
/// every account has an identifier below the next one.
pub open spec fn sound(store: StoreView) -> bool {
    &&& store.next_id >= 1
    &&& forall|i: int, j: int|
        0 <= i < j < store.accounts.len() ==> (#[trigger] store.accounts[i]).username != (
        #[trigger] store.accounts[j]).username
    &&& forall|i: int, j: int|
        0 <= i < j < store.accounts.len() ==> (#[trigger] store.accounts[i]).ssh_key != (
        #[trigger] store.accounts[j]).ssh_key
    &&& forall|i: int|
        0 <= i < store.accounts.len() ==> (#[trigger] store.accounts[i]).id is Some
            && store.accounts[i].id->0 < store.next_id
}

/// A lookup by username finds an account of the store with that username,
/// and finds none only where none has it.
pub proof fn lemma_by_username(accounts: Seq<UserView>, name: Seq<char>)
    ensures
        match by_username(accounts, name) {
            Some(user) => user.username == name && accounts.contains(user),
            None => forall|i: int| 0 <= i < accounts.len() ==> (#[trigger] accounts[i]).username
                != name,
        },
    decreases accounts.len(),
{
    if accounts.len() == 0 {
    } else if accounts[0].username == name {
        assert(accounts.contains(accounts[0]));
    } else {
        let rest = accounts.drop_first();
        lemma_by_username(rest, name);
        match by_username(rest, name) {
            Some(user) => {
                let k = choose|k: int| 0 <= k < rest.len() && rest[k] == user;
                assert(accounts[k + 1] == user);
            },
            None => {
                assert forall|i: int| 0 <= i < accounts.len() implies (
                #[trigger] accounts[i]).username != name by {
                    if i > 0 {
                        assert(accounts[i] == rest[i - 1]);
                    }
                }
            },
        }
    }
}

/// A lookup by key finds an account of the store with that key, and finds
/// none only where none has it.
pub proof fn lemma_by_key(accounts: Seq<UserView>, key: Seq<char>)
    ensures
        match by_key(accounts, key) {
            Some(user) => user.ssh_key == key && accounts.contains(user),
            None => forall|i: int| 0 <= i < accounts.len() ==> (#[trigger] accounts[i]).ssh_key
                != key,
        },
    decreases accounts.len(),
{
    if accounts.len() == 0 {
    } else if accounts[0].ssh_key == key {
        assert(accounts.contains(accounts[0]));
    } else {
        let rest = accounts.drop_first();
        lemma_by_key(rest, key);
        match by_key(rest, key) {
            Some(user) => {
                let k = choose|k: int| 0 <= k < rest.len() && rest[k] == user;
                assert(accounts[k + 1] == user);
            },
            None => {
                assert forall|i: int| 0 <= i < accounts.len() implies (
                #[trigger] accounts[i]).ssh_key != key by {
                    if i > 0 {
                        assert(accounts[i] == rest[i - 1]);
                    }
                }
            },
        }
    }
}

/// Where no account has the name, none is counted.
pub proof fn lemma_count_none(accounts: Seq<UserView>, name: Seq<char>)
    requires
        forall|i: int| 0 <= i < accounts.len() ==> (#[trigger] accounts[i]).username != name,
    ensures
        count_named(accounts, name) == 0,
    decreases accounts.len(),
{
    if accounts.len() > 0 {
        lemma_count_none(accounts.drop_last(), name);
    }
}

/// Creation keeps a sound store sound.
pub proof fn lemma_creation_keeps_sound(store: StoreView, account: UserView)
    requires
        sound(store),
    ensures
        sound(after_creation(store, account)),
{
    let after = after_creation(store, account);
    if creation(store, account) is Ok {
        lemma_by_username(store.accounts, account.username);
        lemma_by_key(store.accounts, account.ssh_key);
        let n = store.accounts.len() as int;
        assert forall|i: int, j: int| 0 <= i < j < after.accounts.len() implies (
        #[trigger] after.accounts[i]).username != (#[trigger] after.accounts[j]).username by {
            if j < n {
                assert(after.accounts[i] == store.accounts[i]);
                assert(after.accounts[j] == store.accounts[j]);
            } else {
                assert(after.accounts[i] == store.accounts[i]);
            }
        }
        assert forall|i: int, j: int| 0 <= i < j < after.accounts.len() implies (
        #[trigger] after.accounts[i]).ssh_key != (#[trigger] after.accounts[j]).ssh_key by {
            if j < n {
                assert(after.accounts[i] == store.accounts[i]);
                assert(after.accounts[j] == store.accounts[j]);
            } else {
                assert(after.accounts[i] == store.accounts[i]);
            }
        }
        assert forall|i: int| 0 <= i < after.accounts.len() implies (
        #[trigger] after.accounts[i]).id is Some && after.accounts[i].id->0 < after.next_id by {
            if i < n {
                assert(after.accounts[i] == store.accounts[i]);
            }
        }
    }
}

/// The first account with the name is the one that the lookup finds.
proof fn lemma_first_named(accounts: Seq<UserView>, name: Seq<char>, i: int)
    requires
        0 <= i < accounts.len(),
        accounts[i].username == name,
        forall|j: int| 0 <= j < i ==> (#[trigger] accounts[j]).username != name,
    ensures
        by_username(accounts, name) == Some(accounts[i]),
    decreases i,
{
    if i > 0 {
        let rest = accounts.drop_first();
        assert(accounts[0].username != name);
        assert(rest[i - 1] == accounts[i]);
        assert forall|j: int| 0 <= j < i - 1 implies (#[trigger] rest[j]).username != name by {
            assert(rest[j] == accounts[j + 1]);
        }
        lemma_first_named(rest, name, i - 1);
    }
}

/// The first account with the key is the one that the lookup finds.
proof fn lemma_first_keyed(accounts: Seq<UserView>, key: Seq<char>, i: int)
    requires
        0 <= i < accounts.len(),
        accounts[i].ssh_key == key,
        forall|j: int| 0 <= j < i ==> (#[trigger] accounts[j]).ssh_key != key,
    ensures
        by_key(accounts, key) == Some(accounts[i]),
    decreases i,
{
    if i > 0 {
        let rest = accounts.drop_first();
        assert(accounts[0].ssh_key != key);
        assert(rest[i - 1] == accounts[i]);
        assert forall|j: int| 0 <= j < i - 1 implies (#[trigger] rest[j]).ssh_key != key by {
            assert(rest[j] == accounts[j + 1]);
        }
        lemma_first_keyed(rest, key, i - 1);
    }
}

/// In a sound store each account is the one that stands under its
/// username, and the one that stands under its key: a lookup by either
/// resolves to that account and no other.
pub proof fn law_lookups_resolve_to_one(store: StoreView, i: int)
    requires
        sound(store),
        0 <= i < store.accounts.len(),
    ensures
        by_username(store.accounts, store.accounts[i].username) == Some(store.accounts[i]),
        by_key(store.accounts, store.accounts[i].ssh_key) == Some(store.accounts[i]),
{
    lemma_first_named(store.accounts, store.accounts[i].username, i);
    lemma_first_keyed(store.accounts, store.accounts[i].ssh_key, i);
}

/// Of two creations under one username the second fails with a conflict
/// that names the username, whatever else it brings, and the store then
/// holds exactly one account under that name.
pub proof fn law_username_taken_once(store: StoreView, first: UserView, second: UserView)
    requires
        creation(store, first) is Ok,
        second.username == first.username,
    ensures
        creation(after_creation(store, first), second) == Err::<UserView, _>(
            StorageErrorView::Conflict { field: username_field() },
        ),
        count_named(
            after_creation(after_creation(store, first), second).accounts,
            first.username,
        ) == 1,
{
    let name = first.username;
    let middle = after_creation(store, first);
    lemma_by_username(store.accounts, name);
    lemma_count_none(store.accounts, name);
    assert(middle.accounts.drop_last() == store.accounts);
    lemma_by_username(middle.accounts, name);
    assert(middle.accounts[store.accounts.len() as int].username == name);
}

/// The accounts of a vector, as mathematical values.
pub open spec fn views(users: Seq<User>) -> Seq<UserView> {
    users.map_values(|user: User| user@)
}

/// A copy of `user`.
pub fn copy_of(user: &User) -> (r: User)
    ensures
        r == *user,
{
    User {
        id: user.id,
        username: user.username.clone(),
        ssh_key: user.ssh_key.clone(),
        bio: match &user.bio {
            Some(bio) => Some(bio.clone()),
            None => None,
        },
        created_at: user.created_at,
    }
}

/// An account store held in memory.
#[derive(Debug)]
pub struct AccountStore {
    accounts: Vec<User>,
    next_id: i64,
}

impl View for AccountStore {
    type V = StoreView;

    closed spec fn view(&self) -> StoreView {
        StoreView { accounts: views(self.accounts@), next_id: self.next_id }
    }
}

impl AccountStore {
    /// A store without accounts, whose first identifier is 1.
    pub fn new() -> (store: AccountStore)
        ensures
            store@.accounts == Seq::<UserView>::empty(),
            store@.next_id == 1,
            sound(store@),
    {
        let store = AccountStore { accounts: Vec::new(), next_id: 1 };
        assert(store@.accounts =~= Seq::<UserView>::empty());
        store
    }

    /// How many accounts the store holds.
    pub fn len(&self) -> (n: usize)
        ensures
            n == self@.accounts.len(),
    {
        self.accounts.len()
    }

    /// The account with the username `name`, if there is one.
    pub fn lookup_by_username(&self, name: &str) -> (r: Option<User>)
        ensures
            match r {
                Some(user) => by_username(self@.accounts, name@) == Some(user@),
                None => by_username(self@.accounts, name@) is None,
            },
    {
        let mut i: usize = 0;
        assert(self@.accounts.skip(0) == self@.accounts);
        while i < self.accounts.len()
            invariant
                i <= self.accounts.len(),
                self@.accounts == views(self.accounts@),
                by_username(self@.accounts, name@) == by_username(
                    self@.accounts.skip(i as int),
                    name@,
                ),
            decreases self.accounts.len() - i,
        {
            let ghost rest = self@.accounts.skip(i as int);
            assert(rest[0] == self.accounts@[i as int]@);
            assert(rest.drop_first() == self@.accounts.skip(i + 1));
            if same_text(self.accounts[i].username.as_str(), name) {
                return Some(copy_of(&self.accounts[i]));
            }
            i = i + 1;
        }
        None
    }

    /// The account whose stored key is exactly `key`, if there is one.
    pub fn lookup_by_key(&self, key: &str) -> (r: Option<User>)
        ensures
            match r {
                Some(user) => by_key(self@.accounts, key@) == Some(user@),
                None => by_key(self@.accounts, key@) is None,
            },
    {
        let mut i: usize = 0;
        assert(self@.accounts.skip(0) == self@.accounts);
        while i < self.accounts.len()
            invariant
                i <= self.accounts.len(),
                self@.accounts == views(self.accounts@),
                by_key(self@.accounts, key@) == by_key(self@.accounts.skip(i as int), key@),
            decreases self.accounts.len() - i,
        {
            let ghost rest = self@.accounts.skip(i as int);
            assert(rest[0] == self.accounts@[i as int]@);
            assert(rest.drop_first() == self@.accounts.skip(i + 1));
            if same_text(self.accounts[i].ssh_key.as_str(), key) {
                return Some(copy_of(&self.accounts[i]));
            }
            i = i + 1;
        }
        None
    }

    /// Creates `account` under the next identifier and returns it as it is
    /// stored. Where its username or its key is taken, or no identifier is
    /// left, nothing is stored and the failure says which.
    pub fn create(&mut self, account: User) -> (r: Result<User, StorageError>)
        ensures
            match r {
                Ok(user) => creation(old(self)@, account@) == Ok::<_, StorageErrorView>(user@),
                Err(error) => creation(old(self)@, account@) == Err::<UserView, _>(error@),
            },
            final(self)@ == after_creation(old(self)@, account@),
            sound(old(self)@) ==> sound(final(self)@),
    {
        proof {
            if sound(self@) {
                lemma_creation_keeps_sound(self@, account@);
            }
        }
        if self.lookup_by_username(account.username.as_str()).is_some() {
            return Err(StorageError::Conflict { field: String::from_str("username") });
        }
        if self.lookup_by_key(account.ssh_key.as_str()).is_some() {
            return Err(StorageError::Conflict { field: String::from_str("ssh_key") });
        }
        if self.next_id == i64::MAX {
            return Err(
                StorageError::Unavailable { detail: String::from_str("no identifier is left") },
            );
        }
        let User { id: _, username, ssh_key, bio, created_at } = account;
        let user = User { id: Some(self.next_id), username, ssh_key, bio, created_at };
        let kept = copy_of(&user);
        let ghost before = self.accounts@;
        self.accounts.push(kept);
        self.next_id = self.next_id + 1;
        assert(views(self.accounts@) =~= views(before).push(user@));
        Ok(user)
    }
}

} // verus!
