use ssh_blog::models::{Post, Timestamp, User};

#[test]
fn new_user_has_no_identifier_and_is_created_now() {
    let before = chrono::Utc::now().timestamp();
    let user = User::new("alice".to_string(), "ssh-rsa AAAA".to_string(), None);
    let after = chrono::Utc::now().timestamp();
    assert_eq!(user.id, None);
    assert_eq!(user.username, "alice");
    assert_eq!(user.ssh_key, "ssh-rsa AAAA");
    assert_eq!(user.bio, None);
    assert!(before <= user.created_at.secs && user.created_at.secs <= after);
    assert!(user.created_at.nanos < 2_000_000_000);
}

#[test]
fn new_post_is_created_and_updated_at_once() {
    let before = chrono::Utc::now().timestamp();
    let post = Post::new(7, "Title".to_string(), "Body".to_string());
    let after = chrono::Utc::now().timestamp();
    assert_eq!(post.id, None);
    assert_eq!(post.user_id, 7);
    assert_eq!(post.title, "Title");
    assert_eq!(post.content, "Body");
    assert_eq!(post.author_username, None);
    assert_eq!(post.created_at, post.updated_at);
    assert!(before <= post.created_at.secs && post.created_at.secs <= after);
}

#[test]
fn timestamp_is_read_from_rfc3339() {
    assert_eq!(
        Timestamp::parse_from_rfc3339("1970-01-01T00:00:00+00:00"),
        Some(Timestamp { secs: 0, nanos: 0 })
    );
    assert_eq!(
        Timestamp::parse_from_rfc3339("1996-12-19T16:39:57-08:00"),
        Some(Timestamp { secs: 851042397, nanos: 0 })
    );
    assert_eq!(
        Timestamp::parse_from_rfc3339("2015-05-15T00:00:00.250Z"),
        Some(Timestamp { secs: 1431648000, nanos: 250_000_000 })
    );
}

#[test]
fn text_that_is_no_date_is_refused() {
    assert_eq!(Timestamp::parse_from_rfc3339(""), None);
    assert_eq!(Timestamp::parse_from_rfc3339("yesterday"), None);
    assert_eq!(Timestamp::parse_from_rfc3339("2015-05-15"), None);
    assert_eq!(Timestamp::parse_from_rfc3339("2015-13-15T00:00:00Z"), None);
}

#[test]
fn timestamp_is_written_as_rfc3339() {
    assert_eq!(
        Timestamp { secs: 0, nanos: 0 }.to_rfc3339(),
        Some("1970-01-01T00:00:00+00:00".to_string())
    );
    assert_eq!(
        Timestamp { secs: 1431648000, nanos: 250_000_000 }.to_rfc3339(),
        Some("2015-05-15T00:00:00.250+00:00".to_string())
    );
    assert_eq!(Timestamp { secs: i64::MAX, nanos: 0 }.to_rfc3339(), None);
    assert_eq!(Timestamp { secs: 0, nanos: 2_000_000_000 }.to_rfc3339(), None);
}

#[test]
fn written_timestamp_is_read_back() {
    let now = User::new("a".to_string(), "b".to_string(), None).created_at;
    let text = now.to_rfc3339().unwrap();
    assert_eq!(Timestamp::parse_from_rfc3339(&text), Some(now));
    assert_eq!(
        chrono::DateTime::from_timestamp(now.secs, now.nanos).unwrap().to_rfc3339(),
        text
    );
}

#[test]
fn user_is_read_from_a_row() {
    let user = User::from_row(
        3,
        "alice".to_string(),
        "ssh-rsa AAAA".to_string(),
        Some("bio".to_string()),
        "2015-05-15T00:00:00+00:00",
    );
    assert_eq!(
        user,
        Some(User {
            id: Some(3),
            username: "alice".to_string(),
            ssh_key: "ssh-rsa AAAA".to_string(),
            bio: Some("bio".to_string()),
            created_at: Timestamp { secs: 1431648000, nanos: 0 },
        })
    );
    assert_eq!(
        User::from_row(3, "alice".to_string(), "ssh-rsa AAAA".to_string(), None, "soon"),
        None
    );
    assert_eq!(
        User::from_parts(
            4,
            "bob".to_string(),
            "ssh-rsa BBBB".to_string(),
            None,
            Timestamp { secs: 5, nanos: 6 }
        ),
        User {
            id: Some(4),
            username: "bob".to_string(),
            ssh_key: "ssh-rsa BBBB".to_string(),
            bio: None,
            created_at: Timestamp { secs: 5, nanos: 6 },
        }
    );
}

#[test]
fn post_is_read_from_a_row() {
    let post = Post::from_row(
        9,
        3,
        "Title".to_string(),
        "Body".to_string(),
        "2015-05-15T00:00:00+00:00",
        "2015-05-15T00:00:01+00:00",
        Some("alice".to_string()),
    );
    assert_eq!(
        post,
        Some(Post {
            id: Some(9),
            user_id: 3,
            title: "Title".to_string(),
            content: "Body".to_string(),
            created_at: Timestamp { secs: 1431648000, nanos: 0 },
            updated_at: Timestamp { secs: 1431648001, nanos: 0 },
            author_username: Some("alice".to_string()),
        })
    );
    assert_eq!(
        Post::from_row(
            9,
            3,
            "Title".to_string(),
            "Body".to_string(),
            "2015-05-15T00:00:00+00:00",
            "never",
            None
        ),
        None
    );
    assert_eq!(
        Post::from_row(
            9,
            3,
            "Title".to_string(),
            "Body".to_string(),
            "never",
            "2015-05-15T00:00:00+00:00",
            None
        ),
        None
    );
}
