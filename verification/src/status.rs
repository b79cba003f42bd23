//! The reachability check: every selected profile is pinged once and falls
//! into one of two lists, online or offline.

use crate::connection::{ConnectionView, ServerConnection};
use crate::messages::{Notice, NoticeView, GREEN, RED};
use crate::selection::{select_connections, selected, Selection};
use crate::text::{debug_list, decimal, format_debug_list, to_decimal};
use vstd::prelude::*;
use vstd::string::*;

verus! {

/// The program that probes a server.
pub const PING: &'static str = "ping";

/// The arguments of one probe: two packets, quiet output.
pub open spec fn ping_line(ip: Seq<char>) -> Seq<Seq<char>> {
    seq!["-c"@, "2"@, ip, "-q"@]
}

/// The arguments to hand to `ping` to probe the server at `ip`.
pub fn ping_arguments(ip: &str) -> (arguments: Vec<String>)
    ensures
        arguments.deep_view() == ping_line(ip@),
{
    let mut arguments: Vec<String> = Vec::new();
    arguments.push(String::from_str("-c"));
    arguments.push(String::from_str("2"));
    arguments.push(String::from_str(ip));
    arguments.push(String::from_str("-q"));
    assert(arguments.deep_view() =~= ping_line(ip@));
    arguments
}

/// The outcome of a reachability check: the aliases of the servers that
/// answered and of those that did not.
#[derive(Debug)]
pub struct StatusReport {
    pub online: Vec<String>,
    pub offline: Vec<String>,
}

/// The mathematical value of a [`StatusReport`].
pub struct StatusReportView {
    pub online: Seq<Seq<char>>,
    pub offline: Seq<Seq<char>>,
}

impl View for StatusReport {
    type V = StatusReportView;

    open spec fn view(&self) -> StatusReportView {
        StatusReportView {
            online: self.online.deep_view(),
            offline: self.offline.deep_view(),
        }
    }
}

/// The aliases of the first `count` targets whose probe came out as
/// `wanted`, in the order of the targets.
pub open spec fn aliases_where(
    targets: Seq<ConnectionView>,
    reachable: Seq<bool>,
    wanted: bool,
    count: nat,
) -> Seq<Seq<char>>
    decreases count,
{
    if count == 0 {
        Seq::empty()
    } else if reachable[count - 1] == wanted {
        aliases_where(targets, reachable, wanted, (count - 1) as nat).push(
            targets[count - 1].alias,
        )
    } else {
        aliases_where(targets, reachable, wanted, (count - 1) as nat)
    }
}

/// The report over a list of targets and the outcome of each one's probe.
pub open spec fn report_of(targets: Seq<ConnectionView>, reachable: Seq<bool>) -> StatusReportView {
    StatusReportView {
        online: aliases_where(targets, reachable, true, targets.len()),
        offline: aliases_where(targets, reachable, false, targets.len()),
    }
}

/// Every target falls into exactly one of the two lists.
pub proof fn lemma_report_counts(targets: Seq<ConnectionView>, reachable: Seq<bool>, count: nat)
    ensures
        aliases_where(targets, reachable, true, count).len() + aliases_where(
            targets,
            reachable,
            false,
            count,
        ).len() == count,
    decreases count,
{
    if count > 0 {
        lemma_report_counts(targets, reachable, (count - 1) as nat);
    }
}

/// Sorts the selected profiles into online and offline. `reachable` holds
/// the outcome of each probe, in the order in which `select_connections`
/// lists the profiles.
pub fn check_server_status(
    records: &Vec<ServerConnection>,
    selection: &Selection,
    reachable: &Vec<bool>,
) -> (report: StatusReport)
    requires
        reachable.len() == selected(records.deep_view(), selection@).len(),
    ensures
        report@ == report_of(selected(records.deep_view(), selection@), reachable@),
        report.online.len() + report.offline.len() == reachable.len(),
{
    let targets = select_connections(records, selection);
    let mut online_servers: Vec<String> = Vec::new();
    let mut offline_servers: Vec<String> = Vec::new();
    let mut i: usize = 0;
    while i < targets.len()
        invariant
            i <= targets.len(),
            targets.len() == reachable.len(),
            online_servers.deep_view() == aliases_where(
                targets.deep_view(),
                reachable@,
                true,
                i as nat,
            ),
            offline_servers.deep_view() == aliases_where(
                targets.deep_view(),
                reachable@,
                false,
                i as nat,
            ),
        decreases targets.len() - i,
    {
        let ghost online_before = online_servers.deep_view();
        let ghost offline_before = offline_servers.deep_view();
        let alias = targets[i].alias.clone();
        assert(targets.deep_view()[i as int].alias == alias@);
        if reachable[i] {
            online_servers.push(alias);
            assert(online_servers.deep_view() =~= online_before.push(alias@));
        } else {
            offline_servers.push(alias);
            assert(offline_servers.deep_view() =~= offline_before.push(alias@));
        }
        i += 1;
    }
    proof {
        lemma_report_counts(targets.deep_view(), reachable@, targets.len() as nat);
    }
    StatusReport { online: online_servers, offline: offline_servers }
}

/// The text of a status message: which servers, and how many.
pub open spec fn status_text(title: Seq<char>, listing: Seq<char>, quantity: nat) -> Seq<char> {
    title + " servers: "@ + listing + ". Quantity: "@ + decimal(quantity)
}

/// The text of a status message over a list that is already written out.
pub fn format_status(title: &str, listing: &str, quantity: usize) -> (text: String)
    ensures
        text@ == status_text(title@, listing@, quantity as nat),
{
    let mut text = String::from_str(title);
    text.append(" servers: ");
    text.append(listing);
    text.append(". Quantity: ");
    text.append(to_decimal(quantity).as_str());
    text
}

/// The notice for the servers that answered.
pub open spec fn online_notice(online: Seq<Seq<char>>) -> NoticeView {
    NoticeView {
        kind: "✅"@,
        text: status_text("Online"@, debug_list(online), online.len()),
        color: "green"@,
    }
}

/// The notice for the servers that did not answer.
pub open spec fn offline_notice(offline: Seq<Seq<char>>) -> NoticeView {
    NoticeView {
        kind: "❌"@,
        text: status_text("Offline"@, debug_list(offline), offline.len()),
        color: "red"@,
    }
}

/// The notices of a report: first the one for the online servers, then the
/// one for the offline servers. Both are there whatever the lists hold; an
/// empty list shows as such, with the quantity 0.
pub open spec fn notices_of(report: StatusReportView) -> Seq<NoticeView> {
    seq![online_notice(report.online), offline_notice(report.offline)]
}

/// The two notices to show for a report.
pub fn status_notices(report: &StatusReport) -> (notices: Vec<Notice>)
    ensures
        notices.deep_view() == notices_of(report@),
        notices.len() == 2,
{
    let mut notices: Vec<Notice> = Vec::new();
    let online_list = format_debug_list(&report.online);
    let online_msg = format_status("Online", online_list.as_str(), report.online.len());
    notices.push(Notice::new("✅", online_msg, GREEN));
    let offline_list = format_debug_list(&report.offline);
    let offline_msg = format_status("Offline", offline_list.as_str(), report.offline.len());
    notices.push(Notice::new("❌", offline_msg, RED));
    assert(notices.deep_view() =~= notices_of(report@));
    notices
}

} // verus!
