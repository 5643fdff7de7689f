//! Resolution from its first request to its outcome.
//!
//! An attempt is a conversation with a store and a user. Here the two are
//! given as values: the accounts of a store, and the lines that the user
//! will enter. With them an attempt is a function, and what holds of every
//! attempt can be stated and proved.

use crate::error::{AuthError, AuthErrorView, Declined, StorageErrorView};
use crate::keys::same_key;
use crate::models::{Timestamp, User, UserView};
use crate::registration::{account_of, NewAccountView};
use crate::signals::{client_key, current_username, looks_remote, texts, SignalsView};
use crate::store::{
    after_creation, by_key, by_username, count_named, creation, law_username_taken_once,
    username_field, AccountStore, StoreView,
};
use crate::user::{
    begin, exhausted, outcome_view, step, Action, ActionView, Event, EventView, Mode,
    SessionView, StageView, UserManager,
};
use vstd::prelude::*;

verus! {

/// What an attempt meets outside: a store, the lines that the user will
/// enter, and the time.
pub struct World {
    pub store: StoreView,
    pub lines: Seq<Seq<char>>,
    pub now: Timestamp,
}

/// The answer of a lookup as an event.
pub open spec fn looked_up(found: Option<UserView>) -> EventView {
    match found {
        Some(account) => EventView::Found(account),
        None => EventView::Missing,
    }
}

/// The account that is handed to the store for `account` at the instant
/// `now`: without an identifier yet.
pub open spec fn fresh(account: NewAccountView, now: Timestamp) -> UserView {
    UserView {
        id: None,
        username: account.username,
        ssh_key: account.ssh_key,
        bio: account.bio,
        created_at: now,
    }
}

/// What the world answers to an action, and the world after it. A question
/// put when no line is left is answered with an empty line.
pub open spec fn reply(w: World, action: ActionView) -> (EventView, World) {
    match action {
        ActionView::LookupByKey(key) => (looked_up(by_key(w.store.accounts, key)), w),
        ActionView::LookupByUsername(name) => (looked_up(by_username(w.store.accounts, name)), w),
        ActionView::Ask(_) => {
            if w.lines.len() > 0 {
                (EventView::Line(w.lines[0]), World { lines: w.lines.drop_first(), ..w })
            } else {
                (EventView::Line(Seq::empty()), w)
            }
        },
        ActionView::Create(account) => (
            match creation(w.store, fresh(account, w.now)) {
                Ok(user) => EventView::Created(user),
                Err(error) => EventView::Failed(error),
            },
            World { store: after_creation(w.store, fresh(account, w.now)), ..w },
        ),
        ActionView::Done(_) => (EventView::Missing, w),
    }
}

/// How many steps an attempt at this stage may still take.
pub open spec fn rank(stage: StageView) -> nat {
    match stage {
        StageView::ByKey => 8,
        StageView::ByUsername => 7,
        StageView::Recheck => 6,
        StageView::Offer => 5,
        StageView::AskUsername => 4,
        StageView::AskKey { .. } => 3,
        StageView::AskBio { .. } => 2,
        StageView::Creating => 1,
        StageView::Finished => 0,
    }
}

/// Whether an action still waits for an answer, as a number.
pub open spec fn pending(action: ActionView) -> nat {
    if action is Done {
        0
    } else {
        1
    }
}

/// Every step brings an attempt nearer to its end, and an attempt that has
/// ended asks for nothing.
pub proof fn lemma_step_descends(s: SignalsView, session: SessionView, event: EventView)
    ensures
        rank(step(s, session, event).0.stage) < rank(session.stage) || (rank(session.stage) == 0
            && rank(step(s, session, event).0.stage) == 0 && step(s, session, event).1 is Done),
{
}

/// An attempt from one of its states to its end: its outcome, the world it
/// leaves, and the actions it asked for on the way.
pub struct Run {
    pub outcome: Result<UserView, AuthErrorView>,
    pub world: World,
    pub asked: Seq<ActionView>,
}

/// The attempt that stands at `session` and needs `action`, run in the
/// world `w` to its end.
pub open spec fn run(s: SignalsView, session: SessionView, action: ActionView, w: World) -> Run
    decreases rank(session.stage), pending(action),
    via run_decreases
{
    match action {
        ActionView::Done(outcome) => Run { outcome, world: w, asked: Seq::empty() },
        _ => {
            let (event, after) = reply(w, action);
            let (next, needed) = step(s, session, event);
            let rest = run(s, next, needed, after);
            Run { asked: seq![action] + rest.asked, ..rest }
        },
    }
}

#[via_fn]
proof fn run_decreases(s: SignalsView, session: SessionView, action: ActionView, w: World) {
    if !(action is Done) {
        lemma_step_descends(s, session, reply(w, action).0);
    }
}

/// An attempt in the given mode, run in the world `w` from its first
/// request to its end.
pub open spec fn attempt(s: SignalsView, mode: Mode, w: World) -> Run {
    run(s, begin(s, mode).0, begin(s, mode).1, w)
}

/// Whether the mode begins with the automated strategies.
pub open spec fn is_automated(mode: Mode) -> bool {
    mode == Mode::Automated || mode == Mode::Cascade
}

/// Whether the lookup by the presented key resolves no account: no key is
/// presented, or the store holds none under it.
pub open spec fn key_resolves_nothing(s: SignalsView, w: World) -> bool {
    client_key(s) is None || by_key(w.store.accounts, client_key(s)->0) is None
}

/// An account that the store holds under the presented key is resolved by
/// that lookup alone: the name is never looked up.
pub proof fn law_key_resolves_first(s: SignalsView, mode: Mode, w: World, account: UserView)
    requires
        is_automated(mode),
        client_key(s) is Some,
        by_key(w.store.accounts, client_key(s)->0) == Some(account),
    ensures
        attempt(s, mode, w).outcome == Ok::<_, AuthErrorView>(account),
        attempt(s, mode, w).asked == seq![ActionView::LookupByKey(client_key(s)->0)],
        attempt(s, mode, w).world == w,
{
    reveal_with_fuel(run, 3);
    assert(attempt(s, mode, w).asked =~= seq![ActionView::LookupByKey(client_key(s)->0)]);
}

/// Where the key resolves nothing and the store holds an account under the
/// current name, a session that looks remote is trusted: the account is
/// resolved, whether or not a key was presented.
pub proof fn law_remote_session_is_trusted(
    s: SignalsView,
    mode: Mode,
    w: World,
    account: UserView,
)
    requires
        is_automated(mode),
        key_resolves_nothing(s, w),
        current_username(s) is Some,
        by_username(w.store.accounts, current_username(s)->0) == Some(account),
        looks_remote(s),
    ensures
        attempt(s, mode, w).outcome == Ok::<_, AuthErrorView>(account),
        attempt(s, mode, w).world == w,
{
    reveal_with_fuel(run, 4);
}

/// A presented key that is verified against the account under the current
/// name resolves that account.
pub proof fn law_verified_key_resolves(s: SignalsView, mode: Mode, w: World, account: UserView)
    requires
        is_automated(mode),
        client_key(s) is Some,
        by_key(w.store.accounts, client_key(s)->0) is None,
        current_username(s) is Some,
        by_username(w.store.accounts, current_username(s)->0) == Some(account),
        same_key(account.ssh_key, client_key(s)->0),
    ensures
        attempt(s, mode, w).outcome == Ok::<_, AuthErrorView>(account),
        attempt(s, mode, w).world == w,
{
    reveal_with_fuel(run, 4);
}

/// A presented key that is not the key of the account under the current
/// name is never accepted by the automated strategies outside a remote
/// session: they end exhausted, for the mismatch.
pub proof fn law_mismatched_key_is_refused(s: SignalsView, w: World, account: UserView)
    requires
        client_key(s) is Some,
        by_key(w.store.accounts, client_key(s)->0) is None,
        current_username(s) is Some,
        by_username(w.store.accounts, current_username(s)->0) == Some(account),
        !same_key(account.ssh_key, client_key(s)->0),
        !looks_remote(s),
    ensures
        attempt(s, Mode::Automated, w).outcome == Err::<UserView, _>(
            exhausted(s, Declined::KeyMismatch),
        ),
        attempt(s, Mode::Automated, w).world == w,
{
    reveal_with_fuel(run, 4);
}

/// Without a presented key, and outside a remote session, the automated
/// strategies end exhausted even where the store holds an account under the
/// current name.
pub proof fn law_absent_key_is_refused(s: SignalsView, w: World, account: UserView)
    requires
        client_key(s) is None,
        current_username(s) is Some,
        by_username(w.store.accounts, current_username(s)->0) == Some(account),
        !looks_remote(s),
    ensures
        attempt(s, Mode::Automated, w).outcome == Err::<UserView, _>(
            exhausted(s, Declined::SignalUnavailable),
        ),
        attempt(s, Mode::Automated, w).world == w,
{
    reveal_with_fuel(run, 4);
}

/// In the cascade the name alone suffices: where the key resolves nothing
/// and the store holds an account under the current name, that account is
/// resolved, whatever key was presented and wherever the session runs.
pub proof fn law_name_alone_suffices(s: SignalsView, w: World, account: UserView)
    requires
        key_resolves_nothing(s, w),
        current_username(s) is Some,
        by_username(w.store.accounts, current_username(s)->0) == Some(account),
    ensures
        attempt(s, Mode::Cascade, w).outcome == Ok::<_, AuthErrorView>(account),
        attempt(s, Mode::Cascade, w).world == w,
{
    reveal_with_fuel(run, 5);
}

/// The automated strategies write nothing: whatever they end in, the
/// store is as it was.
pub proof fn law_automated_reads_only(s: SignalsView, w: World)
    ensures
        attempt(s, Mode::Automated, w).world == w,
{
    reveal_with_fuel(run, 4);
}

/// What the three lines of a registration give: the account they describe,
/// as the store creates it, or the rule they break, or the failure of the
/// store.
pub open spec fn registered(w: World) -> Result<UserView, AuthErrorView> {
    match account_of(w.lines[0], w.lines[1], w.lines[2]) {
        Err(rule) => Err(AuthErrorView::Validation(rule)),
        Ok(account) => match creation(w.store, fresh(account, w.now)) {
            Ok(user) => Ok(user),
            Err(error) => Err(AuthErrorView::Storage(error)),
        },
    }
}

/// Registration ends in what its three lines give, and stores an account
/// only where it ends in one.
pub proof fn law_registration(s: SignalsView, w: World)
    requires
        w.lines.len() >= 3,
    ensures
        attempt(s, Mode::Registration, w).outcome == registered(w),
        registered(w) is Err ==> attempt(s, Mode::Registration, w).world.store == w.store,
        registered(w) is Ok ==> attempt(s, Mode::Registration, w).world.store.accounts
            == w.store.accounts.push(registered(w)->Ok_0),
{
    reveal_with_fuel(run, 6);
    let w1 = World { lines: w.lines.drop_first(), ..w };
    let w2 = World { lines: w1.lines.drop_first(), ..w };
    assert(w1.lines[0] == w.lines[1]);
    assert(w2.lines[0] == w.lines[2]);
}

/// Of two registrations under one username the second fails with a
/// conflict that names the username, and the store then holds exactly one
/// account under that name.
pub proof fn law_second_registration_fails(
    s: SignalsView,
    w: World,
    other: SignalsView,
    later: World,
)
    requires
        w.lines.len() >= 3,
        later.lines.len() >= 3,
        attempt(s, Mode::Registration, w).outcome is Ok,
        later.store == attempt(s, Mode::Registration, w).world.store,
        account_of(later.lines[0], later.lines[1], later.lines[2]) is Ok,
        account_of(later.lines[0], later.lines[1], later.lines[2])->Ok_0.username == account_of(
            w.lines[0],
            w.lines[1],
            w.lines[2],
        )->Ok_0.username,
    ensures
        attempt(other, Mode::Registration, later).outcome == Err::<UserView, _>(
            AuthErrorView::Storage(StorageErrorView::Conflict { field: username_field() }),
        ),
        count_named(
            attempt(other, Mode::Registration, later).world.store.accounts,
            account_of(w.lines[0], w.lines[1], w.lines[2])->Ok_0.username,
        ) == 1,
{
    law_registration(s, w);
    law_registration(other, later);
    let first = fresh(account_of(w.lines[0], w.lines[1], w.lines[2])->Ok_0, w.now);
    let second = fresh(
        account_of(later.lines[0], later.lines[1], later.lines[2])->Ok_0,
        later.now,
    );
    law_username_taken_once(w.store, first, second);
    reveal_with_fuel(run, 6);
    let w1 = World { lines: w.lines.drop_first(), ..w };
    let w2 = World { lines: w1.lines.drop_first(), ..w };
    assert(w1.lines[0] == w.lines[1]);
    assert(w2.lines[0] == w.lines[2]);
    assert(attempt(s, Mode::Registration, w).world.store == after_creation(w.store, first));
}

/// Runs an attempt in the given mode to its end, against a store held in
/// memory and with the lines that the user will enter. An account that the
/// attempt creates is created at the instant `now`.
pub fn resolve(
    manager: &UserManager,
    mode: Mode,
    store: &mut AccountStore,
    lines: &Vec<String>,
    now: Timestamp,
) -> (r: Result<User, AuthError>)
    ensures
        outcome_view(r) == attempt(
            manager@,
            mode,
            World { store: old(store)@, lines: texts(lines@), now },
        ).outcome,
        final(store)@ == attempt(
            manager@,
            mode,
            World { store: old(store)@, lines: texts(lines@), now },
        ).world.store,
{
    let ghost whole = attempt(manager@, mode, World { store: store@, lines: texts(lines@), now });
    let (first, needed) = manager.begin(mode);
    let mut session = first;
    let mut action = needed;
    let mut used: usize = 0;
    assert(texts(lines@).skip(0) == texts(lines@));
    loop
        invariant
            used <= lines.len(),
            whole == attempt(
                manager@,
                mode,
                World { store: old(store)@, lines: texts(lines@), now },
            ),
            run(
                manager@,
                session@,
                action@,
                World { store: store@, lines: texts(lines@).skip(used as int), now },
            ).outcome == whole.outcome,
            run(
                manager@,
                session@,
                action@,
                World { store: store@, lines: texts(lines@).skip(used as int), now },
            ).world.store == whole.world.store,
        decreases rank(session@.stage), pending(action@),
    {
        let ghost w = World { store: store@, lines: texts(lines@).skip(used as int), now };
        let ghost asked = action@;
        let ghost stood = session@;
        let event = match action {
            Action::Done(outcome) => {
                assert(run(manager@, stood, asked, w).outcome == outcome_view(outcome));
                assert(run(manager@, stood, asked, w).world == w);
                return outcome;
            },
            Action::LookupByKey(key) => match store.lookup_by_key(key.as_str()) {
                Some(account) => Event::Found(account),
                None => Event::Missing,
            },
            Action::LookupByUsername(name) => match store.lookup_by_username(name.as_str()) {
                Some(account) => Event::Found(account),
                None => Event::Missing,
            },
            Action::Ask(_) => {
                if used < lines.len() {
                    let line = lines[used].clone();
                    assert(w.lines[0] == line@);
                    assert(w.lines.drop_first() == texts(lines@).skip(used + 1));
                    used = used + 1;
                    Event::Line(line)
                } else {
                    Event::Line(String::new())
                }
            },
            Action::Create(account) => {
                let user = User {
                    id: None,
                    username: account.username,
                    ssh_key: account.ssh_key,
                    bio: account.bio,
                    created_at: now,
                };
                assert(user@ == fresh(asked->Create_0, now));
                match store.create(user) {
                    Ok(created) => Event::Created(created),
                    Err(error) => Event::Failed(error),
                }
            },
        };
        proof {
            assert(event@ == reply(w, asked).0);
            assert(World { store: store@, lines: texts(lines@).skip(used as int), now } == reply(
                w,
                asked,
            ).1);
            lemma_step_descends(manager@, stood, event@);
        }
        let (next, needed) = manager.advance(session, event);
        session = next;
        action = needed;
    }
}

} // verus!
