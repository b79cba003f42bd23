//! A saved connection profile and the command line that opens it.

use vstd::prelude::*;
use vstd::string::*;

verus! {

/// A saved profile: who connects, where, with which key and port, and the
/// alias under which the profile is listed.
#[derive(Debug)]
pub struct ServerConnection {
    pub id: u8,
    pub user: String,
    pub ip: String,
    pub key_path: String,
    pub port: String,
    pub alias: String,
}

/// The mathematical value of a [`ServerConnection`].
pub struct ConnectionView {
    pub id: u8,
    pub user: Seq<char>,
    pub ip: Seq<char>,
    pub key_path: Seq<char>,
    pub port: Seq<char>,
    pub alias: Seq<char>,
}

impl View for ServerConnection {
    type V = ConnectionView;

    open spec fn view(&self) -> ConnectionView {
        ConnectionView {
            id: self.id,
            user: self.user@,
            ip: self.ip@,
            key_path: self.key_path@,
            port: self.port@,
            alias: self.alias@,
        }
    }
}

impl DeepView for ServerConnection {
    type V = ConnectionView;

    open spec fn deep_view(&self) -> ConnectionView {
        self@
    }
}

/// The command line `program -i key_path -p port user@ip`.
pub open spec fn command_line(program: Seq<char>, connection: ConnectionView) -> Seq<char> {
    program + " -i "@ + connection.key_path + " -p "@ + connection.port + " "@ + connection.user
        + "@"@ + connection.ip
}

impl ServerConnection {
    /// Builds a profile from its six fields.
    pub fn new(
        id: u8,
        user: String,
        ip: String,
        key_path: String,
        port: String,
        alias: String,
    ) -> (connection: ServerConnection)
        ensures
            connection@ == (ConnectionView {
                id,
                user: user@,
                ip: ip@,
                key_path: key_path@,
                port: port@,
                alias: alias@,
            }),
    {
        ServerConnection { id, user, ip, key_path, port, alias }
    }

    /// The command line that opens this profile with `cmd` (`ssh` or `sftp`).
    pub fn get_command(&self, cmd: &str) -> (line: String)
        ensures
            line@ == command_line(cmd@, self@),
    {
        let mut line = String::from_str(cmd);
        line.append(" -i ");
        line.append(self.key_path.as_str());
        line.append(" -p ");
        line.append(self.port.as_str());
        line.append(" ");
        line.append(self.user.as_str());
        line.append("@");
        line.append(self.ip.as_str());
        line
    }
}

} // verus!
