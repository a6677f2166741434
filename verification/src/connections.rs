//! Remote machines: the saved ones, and the one typed into the quick-connect
//! dialog.

use vstd::prelude::*;
use vstd::string::StrSliceExecFns;

verus! {

/// The modal response of the first button of an alert, here "Connect".
pub const FIRST_BUTTON: isize = 1000;

/// How to reach a remote machine and what to launch there.
#[derive(Debug, PartialEq, Eq)]
pub struct Connection {
    /// The name shown in the menu.
    pub name: String,
    /// The kind of transport, such as `ssh`.
    pub conn_type: String,
    /// The host name or address.
    pub host: Option<String>,
    /// The user to log in as.
    pub user: Option<String>,
    /// The port, where it is not the default one.
    pub port: Option<u16>,
    /// The identity file.
    pub identity: Option<String>,
    /// The socket to connect through.
    pub socket: Option<String>,
    /// The application to launch.
    pub app: Option<String>,
    /// The password; a key is used without one.
    pub password: Option<String>,
    /// Where waypipe is found on the remote machine.
    pub waypipe_path: Option<String>,
}

/// The mathematical model of a [`Connection`].
pub struct ConnectionView {
    pub name: Seq<char>,
    pub conn_type: Seq<char>,
    pub host: Option<Seq<char>>,
    pub user: Option<Seq<char>>,
    pub port: Option<u16>,
    pub identity: Option<Seq<char>>,
    pub socket: Option<Seq<char>>,
    pub app: Option<Seq<char>>,
    pub password: Option<Seq<char>>,
    pub waypipe_path: Option<Seq<char>>,
}

/// The text of an optional string.
pub open spec fn text_of(s: Option<String>) -> Option<Seq<char>> {
    match s {
        Some(s) => Some(s@),
        None => None,
    }
}

impl View for Connection {
    type V = ConnectionView;

    open spec fn view(&self) -> ConnectionView {
        ConnectionView {
            name: self.name@,
            conn_type: self.conn_type@,
            host: text_of(self.host),
            user: text_of(self.user),
            port: self.port,
            identity: text_of(self.identity),
            socket: text_of(self.socket),
            app: text_of(self.app),
            password: text_of(self.password),
            waypipe_path: text_of(self.waypipe_path),
        }
    }
}

/// Whether `text` reads as `user@host`, the user ending at the first `@`, or,
/// without a user, as a host alone.
pub open spec fn reads_as(text: Seq<char>, user: Option<Seq<char>>, host: Seq<char>) -> bool {
    match user {
        Some(user) => !user.contains('@') && text == user + seq!['@'] + host,
        None => !text.contains('@') && text == host,
    }
}

/// A field of the dialog that was left blank asks for nothing.
pub open spec fn unless_blank(text: Seq<char>) -> Option<Seq<char>> {
    if text.len() == 0 {
        None
    } else {
        Some(text)
    }
}

/// Whether the dialog asks for a connection: it was confirmed and names a host.
pub open spec fn asks_to_connect(response: isize, target: Seq<char>) -> bool {
    response == FIRST_BUTTON && target.len() > 0
}

/// Whether `conn` is the SSH connection that the dialog's three fields describe.
pub open spec fn is_quick_connection(
    conn: ConnectionView,
    target: Seq<char>,
    password: Seq<char>,
    app: Seq<char>,
) -> bool {
    &&& conn.name == target
    &&& conn.conn_type == "ssh"@
    &&& conn.host is Some
    &&& reads_as(target, conn.user, conn.host->0)
    &&& conn.port is None
    &&& conn.identity is None
    &&& conn.socket is None
    &&& conn.app == unless_blank(app)
    &&& conn.password == unless_blank(password)
    &&& conn.waypipe_path is None
}

/// Splits `user@host` at its first `@`.
pub fn split_target(target: &str) -> (parts: (Option<String>, String))
    ensures
        reads_as(target@, text_of(parts.0), parts.1@),
{
    let len: usize = target.unicode_len();
    let mut i: usize = 0;
    while i < len
        invariant
            i <= len,
            len == target@.len(),
            forall|j: int| 0 <= j < i ==> target@[j] != '@',
        decreases len - i,
    {
        if target.get_char(i) == '@' {
            let user = target.substring_char(0, i).to_owned();
            let host = target.substring_char(i + 1, len).to_owned();
            assert(target@ =~= user@ + seq!['@'] + host@);
            return (Some(user), host);
        }
        i = i + 1;
    }
    (None, target.to_owned())
}

/// The text of a dialog field, unless it was left blank.
fn filled_in(text: String) -> (filled: Option<String>)
    ensures
        text_of(filled) == unless_blank(text@),
{
    if text.as_str().is_empty() {
        None
    } else {
        Some(text)
    }
}

/// The connection that the quick-connect dialog asks for when it closes with
/// `response` and its fields hold `target` (`user@host` or a host alone),
/// `password` and `app`.
pub fn quick_connect(response: isize, target: String, password: String, app: String) -> (conn:
    Option<Connection>)
    ensures
        conn is Some <==> asks_to_connect(response, target@),
        conn matches Some(conn) ==> is_quick_connection(conn@, target@, password@, app@),
{
    if response == FIRST_BUTTON && !target.as_str().is_empty() {
        let (user, host) = split_target(target.as_str());
        Some(
            Connection {
                name: target,
                conn_type: "ssh".to_owned(),
                host: Some(host),
                user,
                port: None,
                identity: None,
                socket: None,
                app: filled_in(app),
                password: filled_in(password),
                waypipe_path: None,
            },
        )
    } else {
        None
    }
}

/// The text of an environment variable; one that is not set counts as empty.
pub open spec fn variable_text(value: Option<String>) -> Seq<char> {
    match value {
        Some(value) => value@,
        None => Seq::empty(),
    }
}

/// What it takes to launch the application of a connection.
#[derive(Debug, PartialEq, Eq)]
pub struct Launch {
    pub conn: Connection,
    /// The directory of the compositor's socket.
    pub runtime_dir: String,
    /// The name of the compositor's socket.
    pub display: String,
}

/// Prepares to launch the application of a connection. `runtime_dir` and
/// `display` are the environment variables that name the compositor's socket.
pub fn launch(conn: Connection, runtime_dir: Option<String>, display: Option<String>) -> (launch:
    Launch)
    ensures
        launch.conn == conn,
        launch.runtime_dir@ == variable_text(runtime_dir),
        launch.display@ == variable_text(display),
{
    let runtime_dir = match runtime_dir {
        Some(text) => text,
        None => String::new(),
    };
    let display = match display {
        Some(text) => text,
        None => String::new(),
    };
    Launch { conn, runtime_dir, display }
}

/// Prepares to launch the application of the saved connection at index `i`, if
/// the list is that long.
pub fn launch_saved(
    connections: Vec<Connection>,
    i: usize,
    runtime_dir: Option<String>,
    display: Option<String>,
) -> (prepared: Option<Launch>)
    ensures
        prepared is Some <==> i < connections@.len(),
        prepared matches Some(prepared) ==> {
            &&& prepared.conn == connections@[i as int]
            &&& prepared.runtime_dir@ == variable_text(runtime_dir)
            &&& prepared.display@ == variable_text(display)
        },
{
    if i < connections.len() {
        let mut connections = connections;
        Some(launch(connections.swap_remove(i), runtime_dir, display))
    } else {
        None
    }
}

/// A text reads as user and host in exactly one way.
pub proof fn law_target_reads_one_way(
    text: Seq<char>,
    user1: Option<Seq<char>>,
    host1: Seq<char>,
    user2: Option<Seq<char>>,
    host2: Seq<char>,
)
    requires
        reads_as(text, user1, host1),
        reads_as(text, user2, host2),
    ensures
        user1 == user2,
        host1 == host2,
{
    if let Some(u1) = user1 {
        assert(text[u1.len() as int] == '@');
        if let Some(u2) = user2 {
            assert(text[u2.len() as int] == '@');
            assert(u1.len() == u2.len()) by {
                if u1.len() < u2.len() {
                    assert(u2[u1.len() as int] == text[u1.len() as int]);
                }
                if u2.len() < u1.len() {
                    assert(u1[u2.len() as int] == text[u2.len() as int]);
                }
            }
            assert(u1 =~= text.take(u1.len() as int));
            assert(u2 =~= text.take(u1.len() as int));
            assert(host1 =~= text.skip((u1.len() + 1) as int));
            assert(host2 =~= text.skip((u1.len() + 1) as int));
        }
    } else if let Some(u2) = user2 {
        assert(text[u2.len() as int] == '@');
    }
}

/// The dialog's fields determine the connection.
pub proof fn law_dialog_determines_connection(
    conn1: ConnectionView,
    conn2: ConnectionView,
    target: Seq<char>,
    password: Seq<char>,
    app: Seq<char>,
)
    requires
        is_quick_connection(conn1, target, password, app),
        is_quick_connection(conn2, target, password, app),
    ensures
        conn1 == conn2,
{
    law_target_reads_one_way(target, conn1.user, conn1.host->0, conn2.user, conn2.host->0);
}

/// What was typed before the first `@` is the user and what was typed after it is
/// the host; without an `@` all of it is the host.
pub proof fn law_first_at_sign_splits(
    text: Seq<char>,
    user: Option<Seq<char>>,
    host: Seq<char>,
    i: int,
)
    requires
        reads_as(text, user, host),
    ensures
        0 <= i < text.len() && text[i] == '@' && (forall|j: int|
            0 <= j < i ==> text[j] != '@') ==> user == Some(text.take(i)) && host == text.skip(
            i + 1,
        ),
        !text.contains('@') ==> user is None && host == text,
{
    if 0 <= i < text.len() && text[i] == '@' && (forall|j: int| 0 <= j < i ==> text[j] != '@') {
        assert(text =~= text.take(i) + seq!['@'] + text.skip(i + 1));
        law_target_reads_one_way(text, user, host, Some(text.take(i)), text.skip(i + 1));
    }
    if !text.contains('@') {
        if let Some(user) = user {
            assert(text[user.len() as int] == '@');
        }
    }
}

/// The dialog connects exactly when its first button was pressed and a host was
/// typed.
pub proof fn law_dialog_connects_when_confirmed(response: isize, target: Seq<char>)
    ensures
        asks_to_connect(response, target) <==> response == 1000 && target.len() > 0,
{
}

/// The connection says what was typed and nothing else: its name is the whole
/// target, its user and host are the parts of it, its password and application
/// are those typed, where something was, and all the rest is left open.
pub proof fn law_connection_says_what_was_typed(
    conn: ConnectionView,
    target: Seq<char>,
    password: Seq<char>,
    app: Seq<char>,
)
    requires
        is_quick_connection(conn, target, password, app),
    ensures
        conn.name == target,
        conn.conn_type == "ssh"@,
        conn.host is Some,
        conn.user is Some <==> target.contains('@'),
        conn.user is Some ==> !conn.user->0.contains('@') && conn.user->0 + seq!['@']
            + conn.host->0 == target,
        conn.user is None ==> conn.host->0 == target,
        conn.password is None <==> password.len() == 0,
        conn.password is Some ==> conn.password->0 == password,
        conn.app is None <==> app.len() == 0,
        conn.app is Some ==> conn.app->0 == app,
        conn.port is None,
        conn.identity is None,
        conn.socket is None,
        conn.waypipe_path is None,
{
    if let Some(user) = conn.user {
        assert(target[user.len() as int] == '@');
    }
}

/// The model of a connection shows every field as it is.
pub proof fn law_model_of_a_connection(conn: Connection)
    ensures
        conn@.name == conn.name@,
        conn@.conn_type == conn.conn_type@,
        conn@.port == conn.port,
        conn.host matches Some(s) ==> conn@.host == Some(s@),
        conn.host is None ==> conn@.host is None,
        conn.user matches Some(s) ==> conn@.user == Some(s@),
        conn.user is None ==> conn@.user is None,
        conn.identity matches Some(s) ==> conn@.identity == Some(s@),
        conn.identity is None ==> conn@.identity is None,
        conn.socket matches Some(s) ==> conn@.socket == Some(s@),
        conn.socket is None ==> conn@.socket is None,
        conn.app matches Some(s) ==> conn@.app == Some(s@),
        conn.app is None ==> conn@.app is None,
        conn.password matches Some(s) ==> conn@.password == Some(s@),
        conn.password is None ==> conn@.password is None,
        conn.waypipe_path matches Some(s) ==> conn@.waypipe_path == Some(s@),
        conn.waypipe_path is None ==> conn@.waypipe_path is None,
{
}

/// The text of an optional string is there exactly if the string is, and is its
/// text.
pub proof fn law_text_of_a_string(s: String)
    ensures
        text_of(Some(s)) == Some(s@),
        text_of(None) is None,
{
}

/// A variable that is set is taken as it is; one that is not is empty.
pub proof fn law_unset_variables_are_empty(value: String)
    ensures
        variable_text(Some(value)) == value@,
        variable_text(None).len() == 0,
{
}

} // verus!
