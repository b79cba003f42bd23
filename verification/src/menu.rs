//! The main menu, and what becomes of the indices that a prompt hands back.

use crate::connection::{ConnectionView, ServerConnection};
use crate::selection::{aliases_of, picked};
use vstd::prelude::*;
use vstd::string::*;

verus! {

/// The lines of the main menu, in the order of [`MenuAction`].
pub const CHOICES: [&'static str; 9] = [
    "Display all server connections",
    "Start a connection",
    "Create a server connection",
    "Delete a server connection",
    "Purge database (delete all server connections)",
    "Create SSH key",
    "Issue SSH command to multiple servers",
    "Check server status (online/offline)",
    "Exit",
];

/// What the user can ask for.
#[derive(Clone, Copy, Debug, PartialEq, Eq)]
pub enum MenuAction {
    DisplayConnections,
    StartConnection,
    CreateConnection,
    DeleteConnection,
    PurgeDatabase,
    CreateKey,
    IssueCommand,
    CheckStatus,
    Exit,
}

/// The action behind each line of the menu; anything past the last line
/// leaves the program.
pub open spec fn action_at(index: nat) -> MenuAction {
    if index == 0 {
        MenuAction::DisplayConnections
    } else if index == 1 {
        MenuAction::StartConnection
    } else if index == 2 {
        MenuAction::CreateConnection
    } else if index == 3 {
        MenuAction::DeleteConnection
    } else if index == 4 {
        MenuAction::PurgeDatabase
    } else if index == 5 {
        MenuAction::CreateKey
    } else if index == 6 {
        MenuAction::IssueCommand
    } else if index == 7 {
        MenuAction::CheckStatus
    } else {
        MenuAction::Exit
    }
}

/// The items that were picked: for each index in turn that lies within the
/// list, the item at that index.
pub open spec fn picks(items: Seq<Seq<char>>, chosen: Seq<usize>) -> Seq<Seq<char>>
    decreases chosen.len(),
{
    if chosen.len() == 0 {
        Seq::empty()
    } else if chosen.last() < items.len() {
        picks(items, chosen.drop_last()).push(items[chosen.last() as int])
    } else {
        picks(items, chosen.drop_last())
    }
}

/// The aliases that a multiple choice picks from the list of aliases are
/// the aliases of the profiles that the same picks select.
pub proof fn lemma_picked_aliases(records: Seq<ConnectionView>, chosen: Seq<usize>)
    ensures
        picks(aliases_of(records), chosen) == aliases_of(picked(records, chosen)),
    decreases chosen.len(),
{
    let aliases = aliases_of(records);
    if chosen.len() == 0 {
        assert(picks(aliases, chosen) =~= aliases_of(picked(records, chosen)));
    } else {
        lemma_picked_aliases(records, chosen.drop_last());
        assert(picks(aliases, chosen) =~= aliases_of(picked(records, chosen)));
    }
}

/// The menu has nine lines. The last one is `Exit`, and it is the first
/// index that leaves the program.
pub proof fn lemma_menu_exit()
    ensures
        CHOICES@.len() == 9,
        CHOICES@[8]@ == "Exit"@,
        forall|index: nat| action_at(index) == MenuAction::Exit <==> index >= 8,
{
}

/// The action that the menu line at `index` stands for.
pub fn menu_action(index: usize) -> (action: MenuAction)
    ensures
        action == action_at(index as nat),
{
    match index {
        0 => MenuAction::DisplayConnections,
        1 => MenuAction::StartConnection,
        2 => MenuAction::CreateConnection,
        3 => MenuAction::DeleteConnection,
        4 => MenuAction::PurgeDatabase,
        5 => MenuAction::CreateKey,
        6 => MenuAction::IssueCommand,
        7 => MenuAction::CheckStatus,
        _ => MenuAction::Exit,
    }
}

/// The aliases of the profiles, in their order, to choose from.
pub fn record_aliases<'a>(records: &'a Vec<ServerConnection>) -> (aliases: Vec<&'a str>)
    ensures
        aliases.deep_view() == aliases_of(records.deep_view()),
{
    let mut aliases: Vec<&'a str> = Vec::new();
    let mut i: usize = 0;
    while i < records.len()
        invariant
            i <= records.len(),
            aliases.deep_view() == aliases_of(records.deep_view().take(i as int)),
        decreases records.len() - i,
    {
        let ghost before = aliases.deep_view();
        aliases.push(records[i].alias.as_str());
        assert(aliases.deep_view() =~= before.push(records[i as int]@.alias));
        assert(aliases.deep_view() =~= aliases_of(records.deep_view().take(i + 1)));
        i += 1;
    }
    assert(records.deep_view().take(i as int) =~= records.deep_view());
    aliases
}

/// The item that a single choice picked, with its index.
pub fn get_user_selection(items: &Vec<&str>, selection: usize) -> (picked: (String, usize))
    requires
        selection < items.len(),
    ensures
        picked.0@ == items[selection as int]@,
        picked.1 == selection,
{
    (String::from_str(items[selection]), selection)
}

/// The items that a multiple choice picked, in the order of `chosen`. An
/// index past the end of the list picks nothing.
pub fn get_user_multi(items: &Vec<&str>, chosen: &Vec<usize>) -> (res: Vec<String>)
    ensures
        res.deep_view() == picks(items.deep_view(), chosen@),
{
    let mut res: Vec<String> = Vec::new();
    let mut k: usize = 0;
    while k < chosen.len()
        invariant
            k <= chosen.len(),
            res.deep_view() == picks(items.deep_view(), chosen@.take(k as int)),
        decreases chosen.len() - k,
    {
        let ghost before = res.deep_view();
        let i = chosen[k];
        proof {
            let head = chosen@.take(k + 1);
            assert(head.drop_last() =~= chosen@.take(k as int));
            assert(head.last() == i);
        }
        if i < items.len() {
            res.push(String::from_str(items[i]));
            assert(res.deep_view() =~= before.push(items.deep_view()[i as int]));
        }
        k += 1;
    }
    assert(chosen@.take(k as int) =~= chosen@);
    res
}

} // verus!
