//! The statements that keep the profiles in a database table. They are
//! built here and executed elsewhere.

use crate::connection::{ConnectionView, ServerConnection};
use crate::messages::{Notice, NoticeView, GREEN, RED};
use vstd::prelude::*;
use vstd::string::*;

verus! {

/// The table that holds the profiles.
pub const TABLE: &'static str = "server_connections";

/// A statement and the texts to bind to its numbered parameters, in order.
#[derive(Debug)]
pub struct Statement {
    pub sql: String,
    pub params: Vec<String>,
}

/// The mathematical value of a [`Statement`].
pub struct StatementView {
    pub sql: Seq<char>,
    pub params: Seq<Seq<char>>,
}

impl View for Statement {
    type V = StatementView;

    open spec fn view(&self) -> StatementView {
        StatementView { sql: self.sql@, params: self.params.deep_view() }
    }
}

/// Creates the table unless it is there: a numeric key, and the five texts
/// of a profile, none of which may be missing.
pub open spec fn creation_sql() -> Seq<char> {
    "CREATE TABLE IF NOT EXISTS "@ + TABLE@
        + " (\n                  id              INTEGER PRIMARY KEY,\n                  user           VARCHAR(255) NOT NULL,\n                  ip          VARCHAR(255) NOT NULL,\n                  key_path      VARCHAR(255) NOT NULL,\n                  port      VARCHAR(4) NOT NULL,\n                  alias      VARCHAR(255) NOT NULL\n                  )"@
}

/// Deletes the rows whose alias is the first parameter.
pub open spec fn deletion_sql() -> Seq<char> {
    "DELETE FROM "@ + TABLE@ + " WHERE alias = ?1"@
}

/// Deletes every row.
pub open spec fn purge_sql() -> Seq<char> {
    "DELETE FROM "@ + TABLE@
}

/// Inserts a row from five parameters: user, address, key path, port, alias.
pub open spec fn insertion_sql() -> Seq<char> {
    "INSERT INTO "@ + TABLE@
        + " (user, ip, key_path, port, alias) VALUES (?1, ?2, ?3, ?4, ?5)"@
}

/// Reads every row, all columns.
pub open spec fn query_sql() -> Seq<char> {
    "SELECT * FROM "@ + TABLE@
}

/// The statement that creates the table of profiles if it does not exist.
pub fn create_database() -> (statement: Statement)
    ensures
        statement@ == (StatementView { sql: creation_sql(), params: Seq::empty() }),
{
    let mut sql = String::from_str("CREATE TABLE IF NOT EXISTS ");
    sql.append(TABLE);
    sql.append(
        " (\n                  id              INTEGER PRIMARY KEY,\n                  user           VARCHAR(255) NOT NULL,\n                  ip          VARCHAR(255) NOT NULL,\n                  key_path      VARCHAR(255) NOT NULL,\n                  port      VARCHAR(4) NOT NULL,\n                  alias      VARCHAR(255) NOT NULL\n                  )",
    );
    let params: Vec<String> = Vec::new();
    assert(params.deep_view() =~= Seq::empty());
    Statement { sql, params }
}

/// The statement that deletes every profile listed under `alias`.
pub fn delete_records_by_alias(alias: &str) -> (statement: Statement)
    ensures
        statement@ == (StatementView { sql: deletion_sql(), params: seq![alias@] }),
{
    let mut sql = String::from_str("DELETE FROM ");
    sql.append(TABLE);
    sql.append(" WHERE alias = ?1");
    let mut params: Vec<String> = Vec::new();
    params.push(String::from_str(alias));
    assert(params.deep_view() =~= seq![alias@]);
    Statement { sql, params }
}

/// The statement that deletes every profile, where the user has confirmed;
/// nothing where the user has not.
pub fn purge_database(confirmed: bool) -> (statement: Option<Statement>)
    ensures
        statement is Some <==> confirmed,
        statement matches Some(purge) ==> purge@ == (StatementView {
            sql: purge_sql(),
            params: Seq::empty(),
        }),
{
    if confirmed {
        let mut sql = String::from_str("DELETE FROM ");
        sql.append(TABLE);
        let params: Vec<String> = Vec::new();
        assert(params.deep_view() =~= Seq::empty());
        Some(Statement { sql, params })
    } else {
        None
    }
}

/// The statement that reads every profile.
pub fn get_connections() -> (statement: Statement)
    ensures
        statement@ == (StatementView { sql: query_sql(), params: Seq::empty() }),
{
    let mut sql = String::from_str("SELECT * FROM ");
    sql.append(TABLE);
    let params: Vec<String> = Vec::new();
    assert(params.deep_view() =~= Seq::empty());
    Statement { sql, params }
}

/// A new profile, the statement that saves it, and the notice that says so.
#[derive(Debug)]
pub struct Creation {
    pub record: ServerConnection,
    pub statement: Statement,
    pub notice: Notice,
}

/// The new profile of a creation: the fields as entered, and the key 0,
/// which the database replaces with one of its own.
pub open spec fn created_record(
    user: Seq<char>,
    ip: Seq<char>,
    key_path: Seq<char>,
    port: Seq<char>,
    alias: Seq<char>,
) -> ConnectionView {
    ConnectionView { id: 0, user, ip, key_path, port, alias }
}

/// The statement that saves a profile.
pub open spec fn insertion_of(record: ConnectionView) -> StatementView {
    StatementView {
        sql: insertion_sql(),
        params: seq![record.user, record.ip, record.key_path, record.port, record.alias],
    }
}

/// The notice that a profile was saved.
pub open spec fn created_notice(alias: Seq<char>) -> NoticeView {
    NoticeView { kind: "OK"@, text: "Server Connection created: "@ + alias, color: "green"@ }
}

/// The notice that an address is not an IP address.
pub open spec fn invalid_ip_notice(ip: Seq<char>) -> NoticeView {
    NoticeView { kind: "ERROR"@, text: "Invalid IP: "@ + ip, color: "red"@ }
}

/// An address that has been accepted as an IP address. The only way to one
/// is `accept_address`, and only a profile with such an address is made.
#[derive(Debug)]
pub struct Address {
    text: String,
}

impl View for Address {
    type V = Seq<char>;

    closed spec fn view(&self) -> Seq<char> {
        self.text@
    }
}

impl Address {
    /// The address as text.
    pub fn as_str(&self) -> (text: &str)
        ensures
            text@ == self@,
    {
        self.text.as_str()
    }
}

/// Decides what becomes of an address once it has been checked. Where it is
/// a valid IP address it is accepted, and a profile can be made with it;
/// where it is not, the notice that refuses it comes back, and there is
/// nothing to make a profile from.
pub fn accept_address(ip: String, is_valid: bool) -> (checked: Result<Address, Notice>)
    ensures
        checked is Ok <==> is_valid,
        checked matches Ok(address) ==> address@ == ip@,
        checked matches Err(refusal) ==> refusal@ == invalid_ip_notice(ip@),
{
    if is_valid {
        Ok(Address { text: ip })
    } else {
        let mut msg = String::from_str("Invalid IP: ");
        msg.append(ip.as_str());
        Err(Notice::new("ERROR", msg, RED))
    }
}

/// A new profile from what the user entered, with the statement that saves
/// it and the notice to show once it is saved. The address is one that
/// `accept_address` has accepted.
pub fn create_server_connection(
    user: String,
    ip: Address,
    key_path: String,
    port: String,
    alias: String,
) -> (creation: Creation)
    ensures
        creation.record@ == created_record(user@, ip@, key_path@, port@, alias@),
        creation.statement@ == insertion_of(creation.record@),
        creation.notice@ == created_notice(alias@),
{
    let record = ServerConnection::new(0, user, ip.text, key_path, port, alias);
    let mut sql = String::from_str("INSERT INTO ");
    sql.append(TABLE);
    sql.append(" (user, ip, key_path, port, alias) VALUES (?1, ?2, ?3, ?4, ?5)");
    let mut params: Vec<String> = Vec::new();
    params.push(record.user.clone());
    params.push(record.ip.clone());
    params.push(record.key_path.clone());
    params.push(record.port.clone());
    params.push(record.alias.clone());
    assert(params.deep_view() =~= insertion_of(record@).params);
    let mut msg = String::from_str("Server Connection created: ");
    msg.append(record.alias.as_str());
    let notice = Notice::new("OK", msg, GREEN);
    Creation { record, statement: Statement { sql, params }, notice }
}

} // verus!
