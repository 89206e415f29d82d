//! The server's decisions: the commands it offers for its connection
//! string, the keys of its console, which session a client opens, and what
//! a shell session does with each message and each read from the terminal.
use vstd::prelude::*;
use crate::keys::{KeyCode, KeyInput, KeyKind};
use crate::protocol::{ClientMessage, ServerMessage, SessionType};
use crate::text::{concat2, concat3, chars_of, string_of, slice_chars};

verus! {

/// The commands a server prints, and copies on request, for its connection
/// string.
#[derive(Clone, Copy, Debug, PartialEq, Eq, Structural)]
pub enum CommandKind {
    Connect,
    Send,
    Pull,
    Browse,
    Relay,
    Ping,
}

/// The `kerr` subcommand of each command.
pub open spec fn command_word(kind: CommandKind) -> Seq<char> {
    match kind {
        CommandKind::Connect => "connect"@,
        CommandKind::Send => "send"@,
        CommandKind::Pull => "pull"@,
        CommandKind::Browse => "browse"@,
        CommandKind::Relay => "relay"@,
        CommandKind::Ping => "ping"@,
    }
}

/// The command line `kerr <word> <connection string>`.
pub open spec fn command_text(kind: CommandKind, connection_string: Seq<char>) -> Seq<char> {
    "kerr "@ + command_word(kind) + " "@ + connection_string
}

/// The command of `kind` for a server reachable by `connection_string`.
pub fn server_command(kind: CommandKind, connection_string: &str) -> (r: String)
    ensures
        r@ == command_text(kind, connection_string@),
{
    let word = match kind {
        CommandKind::Connect => "connect",
        CommandKind::Send => "send",
        CommandKind::Pull => "pull",
        CommandKind::Browse => "browse",
        CommandKind::Relay => "relay",
        CommandKind::Ping => "ping",
    };
    let head = concat3("kerr ", word, " ");
    concat2(head.as_str(), connection_string)
}

/// The name of each command in the console's messages.
pub open spec fn command_label(kind: CommandKind) -> Seq<char> {
    match kind {
        CommandKind::Connect => "Connect"@,
        CommandKind::Send => "Send"@,
        CommandKind::Pull => "Pull"@,
        CommandKind::Browse => "Browse"@,
        CommandKind::Relay => "Relay"@,
        CommandKind::Ping => "Ping"@,
    }
}

/// The console's confirmation that a command was copied.
pub fn copied_message(kind: CommandKind) -> (r: String)
    ensures
        r@ == "✓ "@ + command_label(kind) + " command copied to clipboard!"@,
{
    let label = match kind {
        CommandKind::Connect => "Connect",
        CommandKind::Send => "Send",
        CommandKind::Pull => "Pull",
        CommandKind::Browse => "Browse",
        CommandKind::Relay => "Relay",
        CommandKind::Ping => "Ping",
    };
    concat3("✓ ", label, " command copied to clipboard!")
}

/// What the server console does with a key.
#[derive(Clone, Copy, Debug, PartialEq, Eq, Structural)]
pub enum ConsoleAction {
    /// Copy this command to the clipboard.
    Copy(CommandKind),
    /// Shut the server down.
    Quit,
    /// Nothing.
    Nothing,
}

/// The command copied by a plain letter key.
pub open spec fn command_of_letter(c: char) -> Option<CommandKind> {
    if c == 'c' {
        Some(CommandKind::Connect)
    } else if c == 's' {
        Some(CommandKind::Send)
    } else if c == 'p' {
        Some(CommandKind::Pull)
    } else if c == 'b' {
        Some(CommandKind::Browse)
    } else if c == 'r' {
        Some(CommandKind::Relay)
    } else if c == 'i' {
        Some(CommandKind::Ping)
    } else {
        None
    }
}

/// The console's keys: a press of `c`, `s`, `p`, `b`, `r` or `i` without
/// modifiers copies the connect, send, pull, browse, relay or ping command;
/// a press of Ctrl+C quits.
pub open spec fn console_action_of(key: KeyInput) -> ConsoleAction {
    if key.kind != KeyKind::Press {
        ConsoleAction::Nothing
    } else {
        match key.code {
            KeyCode::Char(c) => if !key.ctrl && !key.alt && !key.shift {
                match command_of_letter(c) {
                    Some(k) => ConsoleAction::Copy(k),
                    None => ConsoleAction::Nothing,
                }
            } else if key.ctrl && !key.alt && !key.shift && c == 'c' {
                ConsoleAction::Quit
            } else {
                ConsoleAction::Nothing
            },
            _ => ConsoleAction::Nothing,
        }
    }
}

/// Reads a key of the server console.
pub fn console_action(key: KeyInput) -> (a: ConsoleAction)
    ensures
        a == console_action_of(key),
{
    if key.kind != KeyKind::Press {
        return ConsoleAction::Nothing;
    }
    match key.code {
        KeyCode::Char(c) => {
            if !key.ctrl && !key.alt && !key.shift {
                if c == 'c' {
                    ConsoleAction::Copy(CommandKind::Connect)
                } else if c == 's' {
                    ConsoleAction::Copy(CommandKind::Send)
                } else if c == 'p' {
                    ConsoleAction::Copy(CommandKind::Pull)
                } else if c == 'b' {
                    ConsoleAction::Copy(CommandKind::Browse)
                } else if c == 'r' {
                    ConsoleAction::Copy(CommandKind::Relay)
                } else if c == 'i' {
                    ConsoleAction::Copy(CommandKind::Ping)
                } else {
                    ConsoleAction::Nothing
                }
            } else if key.ctrl && !key.alt && !key.shift && c == 'c' {
                ConsoleAction::Quit
            } else {
                ConsoleAction::Nothing
            }
        },
        _ => ConsoleAction::Nothing,
    }
}

/// The session a client opens: the type of its first message when that
/// message is `Hello`.
pub fn session_for_hello(msg: &ClientMessage) -> (r: Option<SessionType>)
    ensures
        match *msg {
            ClientMessage::Hello { session_type } => r == Some(session_type),
            _ => r is None,
        },
{
    match msg {
        ClientMessage::Hello { session_type } => Some(*session_type),
        _ => None,
    }
}

/// Whether the first 8 characters of `s` are ASCII.
pub open spec fn ascii_head(s: Seq<char>) -> bool {
    s.len() >= 8 && forall|i: int| 0 <= i < 8 ==> (#[trigger] s[i]) as u32 <= 0x7f
}

/// The short id under which a session is logged: the first 8 characters of
/// the peer's id.
pub fn short_session_id(node_id: &str) -> (r: String)
    requires
        ascii_head(node_id@),
    ensures
        r@ == node_id@.subrange(0, 8),
{
    let v = chars_of(node_id);
    let head = slice_chars(v.as_slice(), 0, 8);
    string_of(head.as_slice())
}

/// The command that starts the remote shell: a `bash` with the prompt
/// `<user>@kerr <dir>> `, without startup files.
pub open spec fn prompt_command_text(user: Seq<char>) -> Seq<char> {
    "export PS1='"@ + user + "@kerr \\w> ' && exec bash --norc --noprofile"@
}

/// The shell command for the user named by `$USER` (`user` when unset).
pub fn shell_prompt_command(user: Option<String>) -> (r: String)
    ensures
        r@ == prompt_command_text(match user {
            Some(u) => u@,
            None => "user"@,
        }),
{
    let name = match user {
        Some(u) => u,
        None => "user".to_owned(),
    };
    concat3("export PS1='", name.as_str(), "@kerr \\w> ' && exec bash --norc --noprofile")
}

/// What a shell session does with a message from the client.
#[derive(Clone, Copy, Debug, PartialEq, Eq, Structural)]
pub enum ShellAction {
    /// Write the key data to the terminal and flush it.
    WriteInput,
    /// Resize the terminal.
    Resize { cols: u16, rows: u16 },
    /// End the session.
    Disconnect,
    /// Not a shell message: report it and go on.
    Unexpected,
}

/// Reads a message of a shell session.
pub fn shell_action(msg: &ClientMessage) -> (a: ShellAction)
    ensures
        a == match *msg {
            ClientMessage::KeyEvent { .. } => ShellAction::WriteInput,
            ClientMessage::Resize { cols, rows } => ShellAction::Resize { cols, rows },
            ClientMessage::Disconnect => ShellAction::Disconnect,
            _ => ShellAction::Unexpected,
        },
{
    match msg {
        ClientMessage::KeyEvent { data } => ShellAction::WriteInput,
        ClientMessage::Resize { cols, rows } => ShellAction::Resize { cols: *cols, rows: *rows },
        ClientMessage::Disconnect => ShellAction::Disconnect,
        _ => ShellAction::Unexpected,
    }
}

/// The message that tells the client its shell has exited.
pub open spec fn shell_ended_text() -> Seq<char> {
    "Session ended: bash exited"@
}

/// What the server sends for a read from the terminal: the bytes read, or,
/// at the end of the terminal's output (nothing read), the notice that the
/// shell exited, after which the session ends.
pub fn terminal_output(data: Vec<u8>) -> (r: (ServerMessage, bool))
    ensures
        data.len() == 0 ==> (r.0 matches ServerMessage::Error { message } && message@ == shell_ended_text() && r.1),
        data.len() > 0 ==> (r.0 matches ServerMessage::Output { data: d } && d@ == data@ && !r.1),
{
    if data.len() == 0 {
        (ServerMessage::Error { message: "Session ended: bash exited".to_owned() }, true)
    } else {
        (ServerMessage::Output { data }, false)
    }
}

/// The answer of a ping session: the request's data, echoed.
pub fn ping_reply(msg: ClientMessage) -> (r: Option<ServerMessage>)
    ensures
        match msg {
            ClientMessage::PingRequest { data } => r matches Some(ServerMessage::PingResponse { data: d }) && d@ == data@,
            _ => r is None,
        },
{
    match msg {
        ClientMessage::PingRequest { data } => Some(ServerMessage::PingResponse { data }),
        _ => None,
    }
}

/// A press of a key without Ctrl, Alt or Shift.
pub open spec fn plain_press(key: KeyInput) -> bool {
    key.kind == KeyKind::Press && !key.ctrl && !key.alt && !key.shift
}

/// The console's letters: `c` copies the connect command, `s` send, `p`
/// pull, `b` browse, `r` relay and `i` ping; any other plain key, and any
/// key that is not a press, does nothing; Ctrl+C quits.
pub proof fn law_console_keys(key: KeyInput)
    ensures
        plain_press(key) && key.code == KeyCode::Char('c') ==> console_action_of(key) == ConsoleAction::Copy(CommandKind::Connect),
        plain_press(key) && key.code == KeyCode::Char('s') ==> console_action_of(key) == ConsoleAction::Copy(CommandKind::Send),
        plain_press(key) && key.code == KeyCode::Char('p') ==> console_action_of(key) == ConsoleAction::Copy(CommandKind::Pull),
        plain_press(key) && key.code == KeyCode::Char('b') ==> console_action_of(key) == ConsoleAction::Copy(CommandKind::Browse),
        plain_press(key) && key.code == KeyCode::Char('r') ==> console_action_of(key) == ConsoleAction::Copy(CommandKind::Relay),
        plain_press(key) && key.code == KeyCode::Char('i') ==> console_action_of(key) == ConsoleAction::Copy(CommandKind::Ping),
        key.kind == KeyKind::Press && key.code == KeyCode::Char('c') && key.ctrl && !key.alt && !key.shift
            ==> console_action_of(key) == ConsoleAction::Quit,
        key.kind != KeyKind::Press ==> console_action_of(key) == ConsoleAction::Nothing,
        console_action_of(key) is Copy ==> plain_press(key),
{
}

/// Different keys copy different commands.
pub proof fn law_console_copies_distinct(a: KeyInput, b: KeyInput)
    requires
        console_action_of(a) is Copy,
        console_action_of(b) is Copy,
        a.code != b.code,
    ensures
        console_action_of(a) != console_action_of(b),
{
}

/// Each command line is `kerr`, the command's own subcommand and the
/// connection string; different commands give different lines.
pub proof fn law_command_lines(cs: Seq<char>, a: CommandKind, b: CommandKind)
    ensures
        command_text(CommandKind::Connect, cs) == "kerr connect "@ + cs,
        command_text(CommandKind::Send, cs) == "kerr send "@ + cs,
        command_text(CommandKind::Pull, cs) == "kerr pull "@ + cs,
        command_text(CommandKind::Browse, cs) == "kerr browse "@ + cs,
        command_text(CommandKind::Relay, cs) == "kerr relay "@ + cs,
        command_text(CommandKind::Ping, cs) == "kerr ping "@ + cs,
        a != b ==> command_text(a, cs) != command_text(b, cs),
{
    reveal_strlit("kerr ");
    reveal_strlit(" ");
    reveal_strlit("connect");
    reveal_strlit("send");
    reveal_strlit("pull");
    reveal_strlit("browse");
    reveal_strlit("relay");
    reveal_strlit("ping");
    reveal_strlit("kerr connect ");
    reveal_strlit("kerr send ");
    reveal_strlit("kerr pull ");
    reveal_strlit("kerr browse ");
    reveal_strlit("kerr relay ");
    reveal_strlit("kerr ping ");
    assert(command_text(CommandKind::Connect, cs) =~= "kerr connect "@ + cs);
    assert(command_text(CommandKind::Send, cs) =~= "kerr send "@ + cs);
    assert(command_text(CommandKind::Pull, cs) =~= "kerr pull "@ + cs);
    assert(command_text(CommandKind::Browse, cs) =~= "kerr browse "@ + cs);
    assert(command_text(CommandKind::Relay, cs) =~= "kerr relay "@ + cs);
    assert(command_text(CommandKind::Ping, cs) =~= "kerr ping "@ + cs);
    if a != b {
        let x = command_text(a, cs);
        let y = command_text(b, cs);
        if x == y {
            assert(x[5] == y[5]);
            assert(x[6] == y[6]);
        }
    }
}

} // verus!
