//! What a session shows of the connecting user, and what is read from it.
//!
//! The signals are gathered once per attempt and handed over as plain
//! values. From them come the key that the client presents, the name under
//! which it connects, and whether the session looks remote. A source that
//! shows nothing never fails the attempt: the next source is tried.

use crate::text::{
    chars_of, contains, copy_range, has_infix, has_prefix, line_spans, lines_of, pieces,
    spans_within, starts_with, text_of, trim, trim_bounds, trimmed,
};
use vstd::prelude::*;

verus! {

/// The signals of one session, each as it was found.
#[derive(Clone, Debug, PartialEq, Eq)]
pub struct SessionSignals {
    /// The command the client asked for (`SSH_ORIGINAL_COMMAND`).
    pub original_command: Option<String>,
    /// What the local agent printed when asked for its keys (`ssh-add -L`).
    pub agent_output: Option<String>,
    /// The contents of the file named by `SSH_CLIENT_KEY_FILE`.
    pub client_key_file: Option<String>,
    /// `USER`.
    pub user: Option<String>,
    /// `SSH_USER`.
    pub ssh_user: Option<String>,
    /// `LOGNAME`.
    pub logname: Option<String>,
    /// `USERNAME`.
    pub username: Option<String>,
    /// What the system printed when asked who is logged in (`whoami`).
    pub whoami: Option<String>,
    /// Whether `SSH_CLIENT` is set.
    pub ssh_client: bool,
    /// Whether `SSH_CONNECTION` is set.
    pub ssh_connection: bool,
    /// `SSH_KEY_FINGERPRINT`.
    pub key_fingerprint: Option<String>,
    /// `SSH_KEY_FP`.
    pub key_fp: Option<String>,
}

/// The signals of one session, as mathematical values.
pub struct SignalsView {
    pub original_command: Option<Seq<char>>,
    pub agent_output: Option<Seq<char>>,
    pub client_key_file: Option<Seq<char>>,
    pub user: Option<Seq<char>>,
    pub ssh_user: Option<Seq<char>>,
    pub logname: Option<Seq<char>>,
    pub username: Option<Seq<char>>,
    pub whoami: Option<Seq<char>>,
    pub ssh_client: bool,
    pub ssh_connection: bool,
    pub key_fingerprint: Option<Seq<char>>,
    pub key_fp: Option<Seq<char>>,
}

impl View for SessionSignals {
    type V = SignalsView;

    open spec fn view(&self) -> SignalsView {
        SignalsView {
            original_command: text_of(self.original_command),
            agent_output: text_of(self.agent_output),
            client_key_file: text_of(self.client_key_file),
            user: text_of(self.user),
            ssh_user: text_of(self.ssh_user),
            logname: text_of(self.logname),
            username: text_of(self.username),
            whoami: text_of(self.whoami),
            ssh_client: self.ssh_client,
            ssh_connection: self.ssh_connection,
            key_fingerprint: text_of(self.key_fingerprint),
            key_fp: text_of(self.key_fp),
        }
    }
}

/// The marker with which the text of a public key begins: `ssh-`.
pub open spec fn key_marker() -> Seq<char> {
    seq!['s', 's', 'h', '-']
}

/// The characters of the key marker.
pub fn key_marker_chars() -> (r: Vec<char>)
    ensures
        r@ == key_marker(),
{
    let r: Vec<char> = vec!['s', 's', 'h', '-'];
    assert(r@ =~= key_marker());
    r
}

/// The first of `ls` that begins with `prefix`.
pub open spec fn first_with_prefix(ls: Seq<Seq<char>>, prefix: Seq<char>) -> Option<Seq<char>>
    decreases ls.len(),
{
    if ls.len() == 0 {
        None
    } else if has_prefix(ls[0], prefix) {
        Some(ls[0])
    } else {
        first_with_prefix(ls.drop_first(), prefix)
    }
}

/// The first line of the agent's output that looks like a public key.
pub open spec fn agent_key(output: Seq<char>) -> Option<Seq<char>> {
    first_with_prefix(lines_of(output), key_marker())
}

/// The key that the client presents. The sources are tried in a fixed
/// order, and the first that shows a value decides: the command, taken
/// whole, where it holds the key marker; the first line of the agent's
/// output that begins with the marker; the contents of the key file,
/// trimmed.
pub open spec fn client_key(s: SignalsView) -> Option<Seq<char>> {
    if s.original_command is Some && has_infix(s.original_command->0, key_marker()) {
        s.original_command
    } else if s.agent_output is Some && agent_key(s.agent_output->0) is Some {
        agent_key(s.agent_output->0)
    } else if s.client_key_file is Some {
        Some(trimmed(s.client_key_file->0))
    } else {
        None
    }
}

/// Whether a source shows a name: it is set and not empty.
pub open spec fn shows_name(source: Option<Seq<char>>) -> bool {
    source is Some && source->0.len() > 0
}

/// The name under which the client connects: the first of `USER`,
/// `SSH_USER`, `LOGNAME` and `USERNAME` that is set and not empty, else what
/// the system printed, trimmed, where that is not empty.
pub open spec fn current_username(s: SignalsView) -> Option<Seq<char>> {
    if shows_name(s.user) {
        s.user
    } else if shows_name(s.ssh_user) {
        s.ssh_user
    } else if shows_name(s.logname) {
        s.logname
    } else if shows_name(s.username) {
        s.username
    } else if s.whoami is Some && trimmed(s.whoami->0).len() > 0 {
        Some(trimmed(s.whoami->0))
    } else {
        None
    }
}

/// Whether the session shows either sign of a remote connection.
pub open spec fn looks_remote(s: SignalsView) -> bool {
    s.ssh_client || s.ssh_connection
}

/// The fingerprint of the client's key, where the session shows one.
pub open spec fn fingerprint(s: SignalsView) -> Option<Seq<char>> {
    if s.key_fingerprint is Some {
        s.key_fingerprint
    } else {
        s.key_fp
    }
}

/// The first line of `output` that begins with the key marker.
pub fn first_key_line(output: &str) -> (r: Option<String>)
    ensures
        text_of(r) == agent_key(output@),
{
    let v = chars_of(output);
    let marker = key_marker_chars();
    let spans = line_spans(&v);
    let mut k: usize = 0;
    assert(pieces(v@, spans@).skip(0) == pieces(v@, spans@));
    while k < spans.len()
        invariant
            k <= spans.len(),
            v@ == output@,
            marker@ == key_marker(),
            spans_within(spans@, v@.len()),
            pieces(v@, spans@) == lines_of(v@),
            agent_key(output@) == first_with_prefix(
                pieces(v@, spans@).skip(k as int),
                key_marker(),
            ),
        decreases spans.len() - k,
    {
        let (from, to) = spans[k];
        let ghost rest = pieces(v@, spans@).skip(k as int);
        assert(rest[0] == v@.subrange(from as int, to as int));
        assert(rest.drop_first() == pieces(v@, spans@).skip(k + 1));
        let line = copy_range(&v, from, to);
        if starts_with(&line, &marker) {
            return Some(output.substring_char(from, to).to_owned());
        }
        k = k + 1;
    }
    None
}

/// The key that the client presents, where a source shows one.
pub fn resolve_client_key(signals: &SessionSignals) -> (r: Option<String>)
    ensures
        text_of(r) == client_key(signals@),
{
    match &signals.original_command {
        Some(command) => {
            let v = chars_of(command.as_str());
            let marker = key_marker_chars();
            if contains(&v, &marker) {
                return Some(command.clone());
            }
        },
        None => {},
    }
    match &signals.agent_output {
        Some(output) => {
            let found = first_key_line(output.as_str());
            if found.is_some() {
                return found;
            }
        },
        None => {},
    }
    match &signals.client_key_file {
        Some(contents) => Some(trim(contents.as_str()).to_owned()),
        None => None,
    }
}

/// The name that a source shows, where it shows one.
fn shown_name(source: &Option<String>) -> (r: Option<String>)
    ensures
        shows_name(text_of(*source)) ==> text_of(r) == text_of(*source),
        !shows_name(text_of(*source)) ==> r is None,
{
    match source {
        Some(name) => {
            if name.as_str().is_empty() {
                None
            } else {
                Some(name.clone())
            }
        },
        None => None,
    }
}

/// The name under which the client connects, where a source shows one.
pub fn resolve_current_username(signals: &SessionSignals) -> (r: Option<String>)
    ensures
        text_of(r) == current_username(signals@),
{
    let user = shown_name(&signals.user);
    if user.is_some() {
        return user;
    }
    let ssh_user = shown_name(&signals.ssh_user);
    if ssh_user.is_some() {
        return ssh_user;
    }
    let logname = shown_name(&signals.logname);
    if logname.is_some() {
        return logname;
    }
    let username = shown_name(&signals.username);
    if username.is_some() {
        return username;
    }
    match &signals.whoami {
        Some(printed) => {
            let name = trim(printed.as_str());
            if name.is_empty() {
                None
            } else {
                Some(name.to_owned())
            }
        },
        None => None,
    }
}

/// Whether the session shows either sign of a remote connection.
pub fn session_looks_remote(signals: &SessionSignals) -> (r: bool)
    ensures
        r == looks_remote(signals@),
{
    signals.ssh_client || signals.ssh_connection
}

/// The fingerprint of the client's key, where the session shows one.
pub fn resolve_fingerprint(signals: &SessionSignals) -> (r: Option<String>)
    ensures
        text_of(r) == fingerprint(signals@),
{
    match &signals.key_fingerprint {
        Some(f) => Some(f.clone()),
        None => match &signals.key_fp {
            Some(f) => Some(f.clone()),
            None => None,
        },
    }
}

/// The lines of `text`, each trimmed.
pub open spec fn trimmed_lines(text: Seq<char>) -> Seq<Seq<char>> {
    lines_of(text).map_values(|line: Seq<char>| trimmed(line))
}

/// The first key in the contents of a file of authorized keys: its first
/// line that, trimmed, begins with the key marker.
pub open spec fn authorized_key(contents: Seq<char>) -> Option<Seq<char>> {
    first_with_prefix(trimmed_lines(contents), key_marker())
}

/// The first key in the first of `files` that was read and holds one.
pub open spec fn first_authorized(files: Seq<Option<Seq<char>>>) -> Option<Seq<char>>
    decreases files.len(),
{
    if files.len() == 0 {
        None
    } else if files[0] is Some && authorized_key(files[0]->0) is Some {
        authorized_key(files[0]->0)
    } else {
        first_authorized(files.drop_first())
    }
}

/// Where the authorized keys of `username` are looked for, in this order.
pub open spec fn key_locations(username: Seq<char>) -> Seq<Seq<char>> {
    seq![
        "/home/"@ + username + "/.ssh/authorized_keys"@,
        "/Users/"@ + username + "/.ssh/authorized_keys"@,
        "C:\\Users\\"@ + username + "\\.ssh\\authorized_keys"@,
    ]
}

/// The texts of a vector of strings.
pub open spec fn texts(lines: Seq<String>) -> Seq<Seq<char>> {
    lines.map_values(|line: String| line@)
}

/// The texts of a vector of optional strings.
pub open spec fn optional_texts(files: Seq<Option<String>>) -> Seq<Option<Seq<char>>> {
    files.map_values(|file: Option<String>| text_of(file))
}

/// The paths at which the authorized keys of `username` are looked for.
pub fn authorized_keys_paths(username: &str) -> (r: Vec<String>)
    ensures
        texts(r@) == key_locations(username@),
{
    let home = String::from_str("/home/").concat(username).concat("/.ssh/authorized_keys");
    let users = String::from_str("/Users/").concat(username).concat("/.ssh/authorized_keys");
    let windows = String::from_str("C:\\Users\\").concat(username).concat(
        "\\.ssh\\authorized_keys",
    );
    let r: Vec<String> = vec![home, users, windows];
    assert(texts(r@) =~= key_locations(username@));
    r
}

/// The first key in the contents of a file of authorized keys.
pub fn first_authorized_key(contents: &str) -> (r: Option<String>)
    ensures
        text_of(r) == authorized_key(contents@),
{
    let v = chars_of(contents);
    let marker = key_marker_chars();
    let spans = line_spans(&v);
    let mut k: usize = 0;
    assert(trimmed_lines(v@).skip(0) == trimmed_lines(v@));
    while k < spans.len()
        invariant
            k <= spans.len(),
            v@ == contents@,
            marker@ == key_marker(),
            spans_within(spans@, v@.len()),
            pieces(v@, spans@) == lines_of(v@),
            authorized_key(contents@) == first_with_prefix(
                trimmed_lines(v@).skip(k as int),
                key_marker(),
            ),
        decreases spans.len() - k,
    {
        let (from, to) = spans[k];
        let line = copy_range(&v, from, to);
        let (start, end) = trim_bounds(&line);
        let key = copy_range(&line, start, end);
        proof {
            let rest = trimmed_lines(v@).skip(k as int);
            assert(pieces(v@, spans@)[k as int] == line@);
            assert(rest[0] == trimmed(line@));
            assert(rest.drop_first() == trimmed_lines(v@).skip(k + 1));
            assert(key@ == v@.subrange(from + start, from + end));
        }
        if starts_with(&key, &marker) {
            return Some(contents.substring_char(from + start, from + end).to_owned());
        }
        k = k + 1;
    }
    None
}

/// The first key in the first of `files` that was read and holds one. Each
/// of `files` is the contents of one file, or nothing where it could not be
/// read.
pub fn first_authorized_among(files: &Vec<Option<String>>) -> (r: Option<String>)
    ensures
        text_of(r) == first_authorized(optional_texts(files@)),
{
    let mut k: usize = 0;
    assert(optional_texts(files@).skip(0) == optional_texts(files@));
    while k < files.len()
        invariant
            k <= files.len(),
            first_authorized(optional_texts(files@)) == first_authorized(
                optional_texts(files@).skip(k as int),
            ),
        decreases files.len() - k,
    {
        proof {
            let rest = optional_texts(files@).skip(k as int);
            assert(rest[0] == text_of(files@[k as int]));
            assert(rest.drop_first() == optional_texts(files@).skip(k + 1));
        }
        match &files[k] {
            Some(contents) => {
                let found = first_authorized_key(contents.as_str());
                if found.is_some() {
                    return found;
                }
            },
            None => {},
        }
        k = k + 1;
    }
    None
}

} // verus!
