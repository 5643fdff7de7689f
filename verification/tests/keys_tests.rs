use ssh_blog::keys::{keys_match, normalize};

fn normal(s: &str) -> String {
    normalize(s).iter().collect()
}

#[test]
fn normalize_trims_and_spaces_line_feeds() {
    assert_eq!(normal("  ssh-rsa AAAA\ncomment \n"), "ssh-rsa AAAA comment");
    assert_eq!(normal("a\n\nb"), "a  b");
    assert_eq!(normal("\n"), "");
    assert_eq!(normal("a\r\nb"), "a\r b");
    for s in ["", " x ", "ssh-ed25519 AAAA alice@host\n", "\ta\nb\n c\n"] {
        assert_eq!(normal(s), s.trim().replace('\n', " "));
    }
}

#[test]
fn same_type_and_body_match_whatever_the_comment() {
    assert!(keys_match("ssh-ed25519 AAAA alice@host", "ssh-ed25519 AAAA bob@elsewhere"));
    assert!(keys_match("ssh-ed25519 AAAA alice@host", "ssh-ed25519 AAAA"));
    assert!(keys_match("ssh-ed25519 AAAA", "ssh-ed25519 AAAA a comment of many words"));
    assert!(keys_match("ssh-rsa BBBB one", "ssh-rsa BBBB two"));
}

#[test]
fn formatting_never_causes_a_mismatch() {
    assert!(keys_match("ssh-ed25519 AAAA alice@host", "  ssh-ed25519   AAAA   alice@host \n"));
    assert!(keys_match("ssh-ed25519 AAAA alice@host", "ssh-ed25519\nAAAA\nalice@host"));
    assert!(keys_match("ssh-ed25519\tAAAA", "ssh-ed25519 AAAA"));
}

#[test]
fn different_type_or_body_never_match() {
    assert!(!keys_match("ssh-ed25519 AAAA alice@host", "ssh-rsa AAAA alice@host"));
    assert!(!keys_match("ssh-ed25519 AAAA alice@host", "ssh-ed25519 AAAB alice@host"));
    assert!(!keys_match("ssh-ed25519 AAAA same", "ssh-ed25519 BBBB same"));
    assert!(!keys_match("ssh-ed25519 AAAA", "ssh-ed25519 aaaa"));
    assert!(!keys_match("ssh-ed25519 AAAA", "AAAA ssh-ed25519"));
}

#[test]
fn short_keys_are_compared_whole() {
    assert!(keys_match("token", "token"));
    assert!(keys_match(" token\n", "token"));
    assert!(!keys_match("token", "other"));
    assert!(!keys_match("token", "token extra"));
    assert!(!keys_match("ssh-ed25519 AAAA", "ssh-ed25519"));
    assert!(keys_match("", ""));
    assert!(keys_match("", "  \n"));
    assert!(!keys_match("", "x"));
}
