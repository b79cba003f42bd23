//! Opening one connection, and making a key to connect with.

use crate::connection::{command_line, ConnectionView, ServerConnection};
use crate::dispatch::SSH;
use crate::messages::{paint, painted, Notice, NoticeView, GREEN, RED};
use vstd::prelude::*;
use vstd::string::*;

verus! {

/// The program that opens a file transfer session on a server.
pub const SFTP: &'static str = "sftp";

/// The program that makes a key pair.
pub const KEYGEN: &'static str = "ssh-keygen";

/// The program for a connection type: `ssh` where the type says so, `sftp`
/// for anything else.
pub open spec fn program_for(connection_type: Seq<char>) -> Seq<char> {
    if connection_type == "ssh"@ {
        "ssh"@
    } else {
        "sftp"@
    }
}

/// The command line that opens the profile at index `selection` of the
/// list, if there is one.
pub open spec fn connection_command(
    records: Seq<ConnectionView>,
    selection: nat,
    connection_type: Seq<char>,
) -> Option<Seq<char>> {
    if selection < records.len() {
        Some(command_line(program_for(connection_type), records[selection as int]))
    } else {
        None
    }
}

/// The command line that opens the profile the user selected, the one at
/// index `selection` of the list: with `ssh` where `connection_type` is
/// `ssh`, with `sftp` otherwise. `None` where the index lies past the end
/// of the list.
pub fn start_connection(
    records: &Vec<ServerConnection>,
    selection: usize,
    connection_type: &str,
) -> (command: Option<String>)
    ensures
        command is Some <==> selection < records.len(),
        command matches Some(line) ==> Some(line@) == connection_command(
            records.deep_view(),
            selection as nat,
            connection_type@,
        ),
{
    if selection < records.len() {
        let program = if String::from_str(connection_type) == String::from_str(SSH) {
            SSH
        } else {
            SFTP
        };
        Some(records[selection].get_command(program))
    } else {
        None
    }
}

/// The line that says a command went to the clipboard.
pub open spec fn clipboard_text(command: Seq<char>) -> Seq<char> {
    "[OK] Sent to clipboad: "@ + command
}

/// The text that tells the user that `command` went to the clipboard: the
/// line in green where the terminal takes colours, plain where it does not.
pub fn clipboard_notice(command: &str) -> (shown: String)
    ensures
        shown@ == clipboard_text(command@) || shown@ == painted(
            clipboard_text(command@),
            "green"@,
        ),
{
    let mut msg = String::from_str("[OK] Sent to clipboad: ");
    msg.append(command);
    paint(msg.as_str(), GREEN)
}

/// The arguments that make an Ed25519 key pair named `name` in the current
/// directory: a hundred rounds of key derivation, the name as file and as
/// comment, no questions asked.
pub open spec fn keygen_line(name: Seq<char>) -> Seq<Seq<char>> {
    seq![
        "-a"@,
        "100"@,
        "-t"@,
        "ed25519"@,
        "-f"@,
        name,
        "-C"@,
        name,
        "-N"@,
        "''"@,
        "-q"@,
    ]
}

/// The arguments to hand to `ssh-keygen` for a key named `name`.
pub fn create_key(name: &str) -> (arguments: Vec<String>)
    ensures
        arguments.deep_view() == keygen_line(name@),
{
    let mut arguments: Vec<String> = Vec::new();
    arguments.push(String::from_str("-a"));
    arguments.push(String::from_str("100"));
    arguments.push(String::from_str("-t"));
    arguments.push(String::from_str("ed25519"));
    arguments.push(String::from_str("-f"));
    arguments.push(String::from_str(name));
    arguments.push(String::from_str("-C"));
    arguments.push(String::from_str(name));
    arguments.push(String::from_str("-N"));
    arguments.push(String::from_str("''"));
    arguments.push(String::from_str("-q"));
    assert(arguments.deep_view() =~= keygen_line(name@));
    arguments
}

/// The notice after an attempt to make a key.
pub open spec fn key_notice_of(name: Seq<char>, ran: bool) -> NoticeView {
    if ran {
        NoticeView { kind: "OK"@, text: "SSH key created: "@ + name, color: "green"@ }
    } else {
        NoticeView { kind: "ERROR"@, text: "Error creating SSH key"@, color: "red"@ }
    }
}

/// The notice to show once `ssh-keygen` has run for a key named `name`
/// (`ran` is true), or could not be run.
pub fn key_notice(name: &str, ran: bool) -> (notice: Notice)
    ensures
        notice@ == key_notice_of(name@, ran),
{
    if ran {
        let mut msg = String::from_str("SSH key created: ");
        msg.append(name);
        Notice::new("OK", msg, GREEN)
    } else {
        Notice::new("ERROR", String::from_str("Error creating SSH key"), RED)
    }
}

} // verus!
