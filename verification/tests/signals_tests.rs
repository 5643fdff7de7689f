use ssh_blog::signals::{
    authorized_keys_paths, first_authorized_among, first_authorized_key, first_key_line,
    key_marker_chars, resolve_client_key, resolve_current_username, resolve_fingerprint,
    session_looks_remote, SessionSignals,
};

fn quiet() -> SessionSignals {
    SessionSignals {
        original_command: None,
        agent_output: None,
        client_key_file: None,
        user: None,
        ssh_user: None,
        logname: None,
        username: None,
        whoami: None,
        ssh_client: false,
        ssh_connection: false,
        key_fingerprint: None,
        key_fp: None,
    }
}

fn some(s: &str) -> Option<String> {
    Some(s.to_string())
}

#[test]
fn key_marker_is_ssh_dash() {
    assert_eq!(key_marker_chars(), vec!['s', 's', 'h', '-']);
}

#[test]
fn no_signal_gives_no_key() {
    assert_eq!(resolve_client_key(&quiet()), None);
}

#[test]
fn command_with_marker_is_taken_whole() {
    let mut s = quiet();
    s.original_command = some("  run ssh-ed25519 AAAA me  ");
    s.agent_output = some("ssh-rsa BBBB agent\n");
    s.client_key_file = some("ssh-rsa CCCC file\n");
    assert_eq!(resolve_client_key(&s), some("  run ssh-ed25519 AAAA me  "));
}

#[test]
fn command_without_marker_is_passed_over() {
    let mut s = quiet();
    s.original_command = some("ls -la");
    s.agent_output = some("The agent has no identities.\nssh-rsa BBBB agent\nssh-rsa DDDD second\n");
    s.client_key_file = some("ssh-rsa CCCC file\n");
    assert_eq!(resolve_client_key(&s), some("ssh-rsa BBBB agent"));
}

#[test]
fn agent_without_key_line_is_passed_over() {
    let mut s = quiet();
    s.agent_output = some("The agent has no identities.\n");
    s.client_key_file = some("  ssh-rsa CCCC file \n");
    assert_eq!(resolve_client_key(&s), some("ssh-rsa CCCC file"));
    s.client_key_file = None;
    assert_eq!(resolve_client_key(&s), None);
}

#[test]
fn key_file_is_trimmed_and_taken_as_it_is() {
    let mut s = quiet();
    s.client_key_file = some("\n not a key \n");
    assert_eq!(resolve_client_key(&s), some("not a key"));
    s.client_key_file = some("");
    assert_eq!(resolve_client_key(&s), some(""));
}

#[test]
fn first_key_line_exact_values() {
    assert_eq!(first_key_line("ssh-rsa AAAA a\nssh-rsa BBBB b\n"), some("ssh-rsa AAAA a"));
    assert_eq!(first_key_line("junk\r\nssh-ed25519 CCCC c\r\n"), some("ssh-ed25519 CCCC c"));
    assert_eq!(first_key_line(" ssh-rsa AAAA\n"), None);
    assert_eq!(first_key_line("ecdsa-sha2-nistp256 AAAA\n"), None);
    assert_eq!(first_key_line(""), None);
    assert_eq!(first_key_line("ssh-"), some("ssh-"));
}

#[test]
fn username_sources_in_order() {
    let mut s = quiet();
    assert_eq!(resolve_current_username(&s), None);
    s.whoami = some("who\n");
    assert_eq!(resolve_current_username(&s), some("who"));
    s.username = some("windows");
    assert_eq!(resolve_current_username(&s), some("windows"));
    s.logname = some("log");
    assert_eq!(resolve_current_username(&s), some("log"));
    s.ssh_user = some("remote");
    assert_eq!(resolve_current_username(&s), some("remote"));
    s.user = some("alice");
    assert_eq!(resolve_current_username(&s), some("alice"));
}

#[test]
fn empty_username_sources_are_passed_over() {
    let mut s = quiet();
    s.user = some("");
    s.ssh_user = some("");
    s.logname = some("log");
    assert_eq!(resolve_current_username(&s), some("log"));
    s.logname = some("");
    s.username = some("");
    s.whoami = some("  \n");
    assert_eq!(resolve_current_username(&s), None);
    s.whoami = some(" bob \n");
    assert_eq!(resolve_current_username(&s), some("bob"));
}

#[test]
fn variables_are_taken_untrimmed() {
    let mut s = quiet();
    s.user = some(" alice ");
    assert_eq!(resolve_current_username(&s), some(" alice "));
}

#[test]
fn either_indicator_makes_the_session_remote() {
    let mut s = quiet();
    assert!(!session_looks_remote(&s));
    s.ssh_client = true;
    assert!(session_looks_remote(&s));
    s.ssh_client = false;
    s.ssh_connection = true;
    assert!(session_looks_remote(&s));
    s.ssh_client = true;
    assert!(session_looks_remote(&s));
}

#[test]
fn fingerprint_sources_in_order() {
    let mut s = quiet();
    assert_eq!(resolve_fingerprint(&s), None);
    s.key_fp = some("SHA256:short");
    assert_eq!(resolve_fingerprint(&s), some("SHA256:short"));
    s.key_fingerprint = some("SHA256:long");
    assert_eq!(resolve_fingerprint(&s), some("SHA256:long"));
}

#[test]
fn authorized_keys_paths_exact_values() {
    assert_eq!(
        authorized_keys_paths("alice"),
        vec![
            "/home/alice/.ssh/authorized_keys".to_string(),
            "/Users/alice/.ssh/authorized_keys".to_string(),
            "C:\\Users\\alice\\.ssh\\authorized_keys".to_string(),
        ]
    );
}

#[test]
fn first_authorized_key_trims_each_line() {
    assert_eq!(
        first_authorized_key("# comment\n   ssh-rsa AAAA me  \nssh-rsa BBBB you\n"),
        some("ssh-rsa AAAA me")
    );
    assert_eq!(first_authorized_key("\n\n"), None);
    assert_eq!(first_authorized_key("command=\"x\" ssh-rsa AAAA\n"), None);
    assert_eq!(first_authorized_key("\tssh-ed25519 CCCC\r\n"), some("ssh-ed25519 CCCC"));
}

#[test]
fn first_authorized_among_takes_the_first_file_with_a_key() {
    let files = vec![None, some("# nothing here\n"), some(" ssh-rsa BBBB b\n"), some("ssh-rsa CCCC c\n")];
    assert_eq!(first_authorized_among(&files), some("ssh-rsa BBBB b"));
    assert_eq!(first_authorized_among(&vec![None, None, None]), None);
    assert_eq!(first_authorized_among(&Vec::new()), None);
}
