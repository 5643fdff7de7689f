//! The records of the platform: accounts, posts and the instants they carry.

use crate::text::text_of;
use vstd::prelude::*;

verus! {

/// An instant: the seconds since the Unix epoch, and the nanoseconds into
/// that second.
#[derive(Clone, Copy, Debug, PartialEq, Eq, Structural)]
pub struct Timestamp {
    pub secs: i64,
    pub nanos: u32,
}

/// The error of `chrono` for text that is no date and time.
#[verifier::external_type_specification]
#[verifier::external_body]
pub struct ExParseError(chrono::format::ParseError);

/// The instant that `chrono::DateTime::parse_from_rfc3339` reads from `text`,
/// as seconds and nanoseconds; `None` where it rejects the text.
pub uninterp spec fn rfc3339_instant(text: Seq<char>) -> Option<(i64, u32)>;

/// The text that `chrono::DateTime::to_rfc3339` writes for the instant in
/// UTC; `None` where `chrono` has no date for the instant.
pub uninterp spec fn rfc3339_text(secs: i64, nanos: u32) -> Option<Seq<char>>;

/// `chrono::Utc::now`, as seconds and nanoseconds. Nothing is claimed of the
/// clock. `chrono` does not return where the clock stands before the epoch.
#[verifier::external_body]
fn utc_now() -> (t: Timestamp) {
    let now = chrono::Utc::now();
    Timestamp { secs: now.timestamp(), nanos: now.timestamp_subsec_nanos() }
}

/// `chrono::DateTime::parse_from_rfc3339`, its result moved to UTC and taken
/// as seconds and nanoseconds. The contract names the result: the same text
/// gives the same instant, or is rejected.
#[verifier::external_body]
fn parse_rfc3339(text: &str) -> (r: Result<Timestamp, chrono::format::ParseError>)
    ensures
        match r {
            Ok(t) => rfc3339_instant(text@) == Some((t.secs, t.nanos)),
            Err(_) => rfc3339_instant(text@) is None,
        },
{
    let t = chrono::DateTime::parse_from_rfc3339(text)?.with_timezone(&chrono::Utc);
    Ok(Timestamp { secs: t.timestamp(), nanos: t.timestamp_subsec_nanos() })
}

/// `chrono::DateTime::to_rfc3339` on the instant that
/// `chrono::DateTime::from_timestamp` makes of the seconds and nanoseconds.
/// The contract names the result: the same instant gives the same text.
#[verifier::external_body]
fn write_rfc3339(secs: i64, nanos: u32) -> (r: Option<String>)
    ensures
        match r {
            Some(text) => rfc3339_text(secs, nanos) == Some(text@),
            None => rfc3339_text(secs, nanos) is None,
        },
{
    chrono::DateTime::from_timestamp(secs, nanos).map(|t| t.to_rfc3339())
}

impl Timestamp {
    /// The instant that `text` states; `None` where the text is no date and
    /// time.
    pub fn parse_from_rfc3339(text: &str) -> (r: Option<Timestamp>)
        ensures
            r == Timestamp::of_parsed(rfc3339_instant(text@)),
    {
        match parse_rfc3339(text) {
            Ok(t) => Some(t),
            Err(_) => None,
        }
    }

    /// The instant of a parsed pair of seconds and nanoseconds.
    pub open spec fn of_parsed(parsed: Option<(i64, u32)>) -> Option<Timestamp> {
        match parsed {
            Some(p) => Some(Timestamp { secs: p.0, nanos: p.1 }),
            None => None,
        }
    }

    /// The text of the instant; `None` where no date stands for it.
    pub fn to_rfc3339(&self) -> (r: Option<String>)
        ensures
            match r {
                Some(text) => rfc3339_text(self.secs, self.nanos) == Some(text@),
                None => rfc3339_text(self.secs, self.nanos) is None,
            },
    {
        write_rfc3339(self.secs, self.nanos)
    }
}

/// An account: a registered identity with its public key.
#[derive(Clone, Debug, PartialEq, Eq)]
pub struct User {
    /// Assigned by the store when the account is created.
    pub id: Option<i64>,
    pub username: String,
    pub ssh_key: String,
    pub bio: Option<String>,
    pub created_at: Timestamp,
}

/// What an account holds, as mathematical values.
pub struct UserView {
    pub id: Option<i64>,
    pub username: Seq<char>,
    pub ssh_key: Seq<char>,
    pub bio: Option<Seq<char>>,
    pub created_at: Timestamp,
}

impl View for User {
    type V = UserView;

    open spec fn view(&self) -> UserView {
        UserView {
            id: self.id,
            username: self.username@,
            ssh_key: self.ssh_key@,
            bio: text_of(self.bio),
            created_at: self.created_at,
        }
    }
}

impl User {
    /// A new account that no store has seen yet: without an identifier, and
    /// created now.
    pub fn new(username: String, ssh_key: String, bio: Option<String>) -> (user: User)
        ensures
            user.id is None,
            user.username == username,
            user.ssh_key == ssh_key,
            user.bio == bio,
    {
        User { id: None, username, ssh_key, bio, created_at: utc_now() }
    }

    /// The account that a stored row holds, its creation time already read.
    pub fn from_parts(
        id: i64,
        username: String,
        ssh_key: String,
        bio: Option<String>,
        created_at: Timestamp,
    ) -> (user: User)
        ensures
            user == (User { id: Some(id), username, ssh_key, bio, created_at }),
    {
        User { id: Some(id), username, ssh_key, bio, created_at }
    }

    /// The account that a stored row holds; `None` where the row's creation
    /// time is no date and time.
    pub fn from_row(
        id: i64,
        username: String,
        ssh_key: String,
        bio: Option<String>,
        created_at: &str,
    ) -> (r: Option<User>)
        ensures
            r == match Timestamp::of_parsed(rfc3339_instant(created_at@)) {
                Some(t) => Some(User { id: Some(id), username, ssh_key, bio, created_at: t }),
                None => None,
            },
    {
        match Timestamp::parse_from_rfc3339(created_at) {
            Some(t) => Some(User::from_parts(id, username, ssh_key, bio, t)),
            None => None,
        }
    }
}

/// A post of an account.
#[derive(Clone, Debug, PartialEq, Eq)]
pub struct Post {
    /// Assigned by the store when the post is created.
    pub id: Option<i64>,
    pub user_id: i64,
    pub title: String,
    pub content: String,
    pub created_at: Timestamp,
    pub updated_at: Timestamp,
    /// The author's name, where the post was read together with it.
    pub author_username: Option<String>,
}

impl Post {
    /// A new post that no store has seen yet: without an identifier or an
    /// author's name, created and last updated now.
    pub fn new(user_id: i64, title: String, content: String) -> (post: Post)
        ensures
            post.id is None,
            post.user_id == user_id,
            post.title == title,
            post.content == content,
            post.updated_at == post.created_at,
            post.author_username is None,
    {
        let now = utc_now();
        Post {
            id: None,
            user_id,
            title,
            content,
            created_at: now,
            updated_at: now,
            author_username: None,
        }
    }

    /// The post that a stored row holds, its times already read.
    pub fn from_parts(
        id: i64,
        user_id: i64,
        title: String,
        content: String,
        created_at: Timestamp,
        updated_at: Timestamp,
        author_username: Option<String>,
    ) -> (post: Post)
        ensures
            post == (Post {
                id: Some(id),
                user_id,
                title,
                content,
                created_at,
                updated_at,
                author_username,
            }),
    {
        Post { id: Some(id), user_id, title, content, created_at, updated_at, author_username }
    }

    /// The post that a stored row holds; `None` where either of the row's
    /// times is no date and time.
    pub fn from_row(
        id: i64,
        user_id: i64,
        title: String,
        content: String,
        created_at: &str,
        updated_at: &str,
        author_username: Option<String>,
    ) -> (r: Option<Post>)
        ensures
            r == match (
                Timestamp::of_parsed(rfc3339_instant(created_at@)),
                Timestamp::of_parsed(rfc3339_instant(updated_at@)),
            ) {
                (Some(created), Some(updated)) => Some(
                    Post {
                        id: Some(id),
                        user_id,
                        title,
                        content,
                        created_at: created,
                        updated_at: updated,
                        author_username,
                    },
                ),
                _ => None,
            },
    {
        match Timestamp::parse_from_rfc3339(created_at) {
            Some(created) => match Timestamp::parse_from_rfc3339(updated_at) {
                Some(updated) => Some(
                    Post::from_parts(
                        id,
                        user_id,
                        title,
                        content,
                        created,
                        updated,
                        author_username,
                    ),
                ),
                None => None,
            },
            None => None,
        }
    }
}

} // verus!
