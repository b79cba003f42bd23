//! Batch dispatch: one shell command sent to every selected profile.
//!
//! For each profile the command line is built as one string. Just before
//! it runs, the string is taken apart into the arguments for `ssh`; the
//! alias of the profile travels beside it, so that the outcome can be
//! reported by alias.

use crate::connection::{command_line, ConnectionView, ServerConnection};
use crate::messages::{Notice, NoticeView, GREEN, RED};
use crate::selection::{select_connections, selected, Selection};
use crate::text::{
    after_first, contains, is_first_occurrence, lemma_first_occurrence_unique,
    lemma_words_after_word, occurs_at, solid, split_once, split_whitespace, words,
};
use vstd::prelude::*;
use vstd::string::*;

verus! {

/// The program that opens a shell on a server.
pub const SSH: &'static str = "ssh";

/// The command that is sent where the user names none.
pub const DEFAULT_SSH_COMMAND: &'static str = "hostname";

/// The string that sends `ssh_command` to a profile:
/// `ssh -i key_path -p port user@ip ssh_command`.
pub open spec fn batch_command(ssh_command: Seq<char>, connection: ConnectionView) -> Seq<char> {
    command_line("ssh"@, connection) + " "@ + ssh_command
}

/// One entry of a batch: the string to execute, and the alias of the
/// profile it is for.
#[derive(Debug)]
pub struct Dispatch {
    pub alias: String,
    pub command: String,
}

/// The mathematical value of a [`Dispatch`].
pub struct DispatchView {
    pub alias: Seq<char>,
    pub command: Seq<char>,
}

impl View for Dispatch {
    type V = DispatchView;

    open spec fn view(&self) -> DispatchView {
        DispatchView { alias: self.alias@, command: self.command@ }
    }
}

impl DeepView for Dispatch {
    type V = DispatchView;

    open spec fn deep_view(&self) -> DispatchView {
        self@
    }
}

/// The entry of a batch for one profile.
pub open spec fn dispatch_of(ssh_command: Seq<char>, connection: ConnectionView) -> DispatchView {
    DispatchView { alias: connection.alias, command: batch_command(ssh_command, connection) }
}

/// The batch for a list of profiles, in its order.
pub open spec fn batch_of(ssh_command: Seq<char>, targets: Seq<ConnectionView>) -> Seq<
    DispatchView,
> {
    targets.map_values(|target: ConnectionView| dispatch_of(ssh_command, target))
}

/// One `ssh` invocation, ready to run: the alias to report under and the
/// arguments to hand to `ssh`.
#[derive(Debug)]
pub struct Invocation {
    pub alias: String,
    pub arguments: Vec<String>,
}

/// The mathematical value of an [`Invocation`].
pub struct InvocationView {
    pub alias: Seq<char>,
    pub arguments: Seq<Seq<char>>,
}

impl View for Invocation {
    type V = InvocationView;

    open spec fn view(&self) -> InvocationView {
        InvocationView { alias: self.alias@, arguments: self.arguments.deep_view() }
    }
}

impl DeepView for Invocation {
    type V = InvocationView;

    open spec fn deep_view(&self) -> InvocationView {
        self@
    }
}

/// A string can be executed: it names the program, `ssh `.
pub open spec fn runs(command: Seq<char>) -> bool {
    contains(command, "ssh "@)
}

/// The arguments of a string to execute: the words behind the first `ssh `.
pub open spec fn arguments_of(command: Seq<char>) -> Seq<Seq<char>> {
    words(after_first(command, "ssh "@))
}

/// The invocation that executes an entry of a batch.
pub open spec fn invocation_of(dispatch: DispatchView) -> InvocationView {
    InvocationView { alias: dispatch.alias, arguments: arguments_of(dispatch.command) }
}

/// The string that sends `ssh_command` to `server_connection`.
pub fn create_command(ssh_command: &str, server_connection: &ServerConnection) -> (command: String)
    ensures
        command@ == batch_command(ssh_command@, server_connection@),
{
    let mut full_command = server_connection.get_command(SSH);
    full_command.append(" ");
    full_command.append(ssh_command);
    full_command
}

/// The batch that sends `ssh_command` to the selected profiles: one entry
/// for each, in the order of the selection. Every entry can be executed.
pub fn issue_command(
    records: &Vec<ServerConnection>,
    ssh_command: &str,
    selection: &Selection,
) -> (commands: Vec<Dispatch>)
    ensures
        commands.deep_view() == batch_of(ssh_command@, selected(records.deep_view(), selection@)),
        commands.len() == selected(records.deep_view(), selection@).len(),
        forall|i: int| 0 <= i < commands.len() ==> runs(#[trigger] commands[i]@.command),
{
    let targets = select_connections(records, selection);
    let mut command_list: Vec<Dispatch> = Vec::new();
    let mut i: usize = 0;
    while i < targets.len()
        invariant
            i <= targets.len(),
            command_list.deep_view() == batch_of(ssh_command@, targets.deep_view().take(i as int)),
        decreases targets.len() - i,
    {
        let ghost before = command_list.deep_view();
        let dispatch = Dispatch {
            alias: targets[i].alias.clone(),
            command: create_command(ssh_command, targets[i]),
        };
        command_list.push(dispatch);
        assert(command_list.deep_view() =~= before.push(
            dispatch_of(ssh_command@, targets.deep_view()[i as int]),
        ));
        assert(command_list.deep_view() =~= batch_of(
            ssh_command@,
            targets.deep_view().take(i + 1),
        ));
        i += 1;
    }
    assert(targets.deep_view().take(i as int) =~= targets.deep_view());
    assert forall|k: int| 0 <= k < command_list.len() implies runs(
        #[trigger] command_list[k]@.command,
    ) by {
        assert(command_list[k]@ == command_list.deep_view()[k]);
        lemma_batch_command_runs(ssh_command@, targets.deep_view()[k]);
    }
    assert(command_list.deep_view().len() == command_list.len());
    command_list
}

/// The arguments for `ssh` in a string to execute. `None` where the string
/// does not hold `ssh `.
pub fn parse_command(command: &str) -> (arguments: Option<Vec<String>>)
    ensures
        arguments is Some <==> runs(command@),
        arguments matches Some(list) ==> list.deep_view() == arguments_of(command@),
{
    match split_once(command, "ssh ") {
        None => None,
        Some((_, ssh_command)) => {
            proof {
                let at = choose|at: int|
                    {
                        &&& is_first_occurrence(command@, "ssh "@, at)
                        &&& ssh_command@ == command@.subrange(
                            at + "ssh "@.len(),
                            command@.len() as int,
                        )
                    };
                lemma_first_occurrence_unique(command@, "ssh "@, at);
            }
            Some(split_whitespace(ssh_command))
        },
    }
}

/// The invocations that execute a batch, entry by entry in its order.
pub fn run_commands(commands: &Vec<Dispatch>) -> (invocations: Vec<Invocation>)
    requires
        forall|i: int| 0 <= i < commands.len() ==> runs(#[trigger] commands[i]@.command),
    ensures
        invocations.deep_view() == commands.deep_view().map_values(
            |dispatch: DispatchView| invocation_of(dispatch),
        ),
        invocations.len() == commands.len(),
{
    let mut invocations: Vec<Invocation> = Vec::new();
    let mut i: usize = 0;
    while i < commands.len()
        invariant
            i <= commands.len(),
            forall|k: int| 0 <= k < commands.len() ==> runs(#[trigger] commands[k]@.command),
            invocations.deep_view() == commands.deep_view().take(i as int).map_values(
                |dispatch: DispatchView| invocation_of(dispatch),
            ),
        decreases commands.len() - i,
    {
        let ghost before = invocations.deep_view();
        assert(runs(commands[i as int]@.command));
        match parse_command(commands[i].command.as_str()) {
            Some(arguments) => {
                invocations.push(Invocation { alias: commands[i].alias.clone(), arguments });
                assert(invocations.deep_view() =~= before.push(
                    invocation_of(commands[i as int]@),
                ));
            },
            None => {
                // Does not happen: every entry can be executed.
            },
        }
        assert(invocations.deep_view() =~= commands.deep_view().take(i + 1).map_values(
            |dispatch: DispatchView| invocation_of(dispatch),
        ));
        i += 1;
    }
    assert(commands.deep_view().take(i as int) =~= commands.deep_view());
    assert(invocations.deep_view().len() == invocations.len());
    assert(commands.deep_view().len() == commands.len());
    invocations
}

/// The notice after one invocation. Either way it names the alias of the
/// profile: that the command was sent to it, or that it was not, and why.
pub open spec fn dispatch_notice_of(alias: Seq<char>, failure: Option<Seq<char>>) -> NoticeView {
    match failure {
        None => NoticeView { kind: "ok"@, text: "SSH command sent to "@ + alias, color: "green"@ },
        Some(reason) => NoticeView {
            kind: "error"@,
            text: "SSH command not sent to "@ + alias + ": "@ + reason,
            color: "red"@,
        },
    }
}

/// The notice to show after the invocation for `alias` has run (`failure`
/// is `None`) or could not be run (`failure` says why).
pub fn dispatch_notice(alias: &str, failure: Option<&str>) -> (notice: Notice)
    ensures
        notice@ == dispatch_notice_of(
            alias@,
            match failure {
                None => None,
                Some(reason) => Some(reason@),
            },
        ),
{
    match failure {
        None => {
            let mut msg = String::from_str("SSH command sent to ");
            msg.append(alias);
            Notice::new("ok", msg, GREEN)
        },
        Some(reason) => {
            let mut msg = String::from_str("SSH command not sent to ");
            msg.append(alias);
            msg.append(": ");
            msg.append(reason);
            Notice::new("error", msg, RED)
        },
    }
}

/// What stands behind the program's name in the string for a profile.
pub open spec fn argument_text(ssh_command: Seq<char>, connection: ConnectionView) -> Seq<char> {
    "-i "@ + connection.key_path + " -p "@ + connection.port + " "@ + connection.user + "@"@
        + connection.ip + " "@ + ssh_command
}

/// Whatever the profile and the command, the string built for them can be
/// executed: it begins with `ssh `, and its arguments are the words of what
/// follows.
pub proof fn lemma_batch_command_runs(ssh_command: Seq<char>, connection: ConnectionView)
    ensures
        runs(batch_command(ssh_command, connection)),
        arguments_of(batch_command(ssh_command, connection)) == words(
            argument_text(ssh_command, connection),
        ),
{
    reveal_strlit("ssh");
    reveal_strlit("ssh ");
    reveal_strlit(" -i ");
    reveal_strlit("-i ");
    let command = batch_command(ssh_command, connection);
    let mark = "ssh "@;
    assert(command =~= "ssh"@ + " -i "@ + (connection.key_path + " -p "@ + connection.port + " "@
        + connection.user + "@"@ + connection.ip + " "@ + ssh_command));
    assert(command.subrange(0, 4) =~= mark);
    assert(occurs_at(command, mark, 0));
    assert(is_first_occurrence(command, mark, 0));
    lemma_first_occurrence_unique(command, mark, 0);
    assert(after_first(command, mark) =~= argument_text(ssh_command, connection));
}

/// Where neither the key path, the port, the user nor the address of a
/// profile holds white space, and the first two are not empty, the
/// arguments of its string are `-i`, the key path, `-p`, the port,
/// `user@ip`, and then the words of the command.
pub proof fn lemma_batch_command_arguments(ssh_command: Seq<char>, connection: ConnectionView)
    requires
        connection.key_path.len() > 0,
        connection.port.len() > 0,
        solid(connection.key_path),
        solid(connection.port),
        solid(connection.user),
        solid(connection.ip),
    ensures
        arguments_of(batch_command(ssh_command, connection)) == seq![
            "-i"@,
            connection.key_path,
            "-p"@,
            connection.port,
            connection.user + "@"@ + connection.ip,
        ] + words(ssh_command),
{
    lemma_batch_command_runs(ssh_command, connection);
    let host = connection.user + "@"@ + connection.ip;
    let fourth = host + seq![' '] + ssh_command;
    let third = connection.port + seq![' '] + fourth;
    let second = "-p"@ + seq![' '] + third;
    let first = connection.key_path + seq![' '] + second;
    assert(argument_text(ssh_command, connection) =~= "-i"@ + seq![' '] + first) by {
        reveal_strlit("-i ");
        reveal_strlit("-i");
        reveal_strlit(" -p ");
        reveal_strlit("-p");
        reveal_strlit(" ");
    }
    assert(solid(host) && solid("-i"@) && solid("-p"@)) by {
        reveal_strlit("@");
        reveal_strlit("-i");
        reveal_strlit("-p");
    }
    assert("-i"@.len() > 0 && "-p"@.len() > 0 && host.len() > 0) by {
        reveal_strlit("@");
        reveal_strlit("-i");
        reveal_strlit("-p");
    }
    lemma_words_after_word(host, ' ', ssh_command);
    lemma_words_after_word(connection.port, ' ', fourth);
    lemma_words_after_word("-p"@, ' ', third);
    lemma_words_after_word(connection.key_path, ' ', second);
    lemma_words_after_word("-i"@, ' ', first);
    assert(seq!["-i"@] + (seq![connection.key_path] + (seq!["-p"@] + (seq![connection.port] + (
    seq![host] + words(ssh_command))))) =~= seq![
        "-i"@,
        connection.key_path,
        "-p"@,
        connection.port,
        host,
    ] + words(ssh_command));
}

} // verus!
