//! Connection profiles for SSH and SFTP servers, and the text a profile
//! manager builds from them: command lines, database statements, batch
//! dispatch lines, reachability reports and the messages shown to the user.
//!
//! Nothing here touches a terminal, a database or a process. Every function
//! takes plain values and returns plain values, so that a front end only has
//! to ask, execute and print.

pub mod banner;
pub mod connection;
pub mod dispatch;
pub mod launch;
pub mod listing;
pub mod menu;
pub mod messages;
pub mod selection;
pub mod status;
pub mod store;
pub mod text;

pub use banner::{database_path, format_title, title, Package, PackageView};
pub use connection::{ConnectionView, ServerConnection};
pub use dispatch::{
    create_command, dispatch_notice, issue_command, parse_command, run_commands, Dispatch,
    DispatchView, Invocation, InvocationView, DEFAULT_SSH_COMMAND, SSH,
};
pub use launch::{clipboard_notice, create_key, key_notice, start_connection, KEYGEN, SFTP};
pub use listing::{display_connections, fields, format_listing, headers};
pub use menu::{
    get_user_multi, get_user_selection, menu_action, record_aliases, MenuAction, CHOICES,
};
pub use messages::{display_message, format_message, Notice, NoticeView};
pub use selection::{select_connections, Selection, SelectionView};
pub use store::{
    accept_address, create_database, create_server_connection, delete_records_by_alias,
    get_connections, purge_database, Address, Creation, Statement, StatementView, TABLE,
};
pub use status::{
    check_server_status, format_status, ping_arguments, status_notices, StatusReport,
    StatusReportView, PING,
};
