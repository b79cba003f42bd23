//! Which of the saved profiles an action is meant for: all of them, or the
//! ones the user picked from the list.
//!
//! A pick is the index of a profile in the list, not its alias: two
//! profiles may share an alias, and only the one that was picked is meant.

use crate::connection::{ConnectionView, ServerConnection};
use vstd::prelude::*;

verus! {

/// The user's choice of profiles.
#[derive(Debug)]
pub enum Selection {
    /// Every saved profile.
    All,
    /// The profiles at these indices of the list, in the order picked.
    Picked(Vec<usize>),
}

/// The mathematical value of a [`Selection`].
pub enum SelectionView {
    All,
    Picked(Seq<usize>),
}

impl View for Selection {
    type V = SelectionView;

    open spec fn view(&self) -> SelectionView {
        match self {
            Selection::All => SelectionView::All,
            Selection::Picked(chosen) => SelectionView::Picked(chosen@),
        }
    }
}

/// The profiles at the indices picked, in the order picked. An index past
/// the end of the list picks nothing.
pub open spec fn picked(records: Seq<ConnectionView>, chosen: Seq<usize>) -> Seq<ConnectionView>
    decreases chosen.len(),
{
    if chosen.len() == 0 {
        Seq::empty()
    } else if chosen.last() < records.len() {
        picked(records, chosen.drop_last()).push(records[chosen.last() as int])
    } else {
        picked(records, chosen.drop_last())
    }
}

/// The profiles a selection stands for, in the order in which an action
/// visits them.
pub open spec fn selected(records: Seq<ConnectionView>, selection: SelectionView) -> Seq<
    ConnectionView,
> {
    match selection {
        SelectionView::All => records,
        SelectionView::Picked(chosen) => picked(records, chosen),
    }
}

/// The aliases of a list of profiles.
pub open spec fn aliases_of(records: Seq<ConnectionView>) -> Seq<Seq<char>> {
    records.map_values(|record: ConnectionView| record.alias)
}

/// Every index lies within the list.
pub open spec fn within(chosen: Seq<usize>, length: nat) -> bool {
    forall|k: int| 0 <= k < chosen.len() ==> (#[trigger] chosen[k]) < length
}

/// The indices come in rising order.
pub open spec fn rising(chosen: Seq<usize>) -> bool {
    forall|j: int, k: int| 0 <= j < k < chosen.len() ==> chosen[j] < chosen[k]
}

/// Where every index picked lies within the list, the selection is one
/// profile for each pick: the profile at that index, and no other, whatever
/// aliases the profiles have.
pub proof fn lemma_picked_exactly(records: Seq<ConnectionView>, chosen: Seq<usize>)
    requires
        within(chosen, records.len()),
    ensures
        picked(records, chosen).len() == chosen.len(),
        forall|k: int|
            0 <= k < chosen.len() ==> (#[trigger] picked(records, chosen)[k]) == records[chosen[k] as int],
    decreases chosen.len(),
{
    if chosen.len() > 0 {
        let init = chosen.drop_last();
        assert(within(init, records.len())) by {
            assert forall|k: int| 0 <= k < init.len() implies (#[trigger] init[k])
                < records.len() by {
                assert(init[k] == chosen[k]);
            }
        }
        assert(chosen.last() == chosen[chosen.len() - 1]);
        lemma_picked_exactly(records, init);
        assert forall|k: int| 0 <= k < chosen.len() implies (#[trigger] picked(records, chosen)[k])
            == records[chosen[k] as int] by {
            if k < init.len() {
                assert(picked(records, chosen)[k] == picked(records, init)[k]);
                assert(init[k] == chosen[k]);
            }
        }
    }
}

/// Where the indices picked lie within the list and come in rising order,
/// as a prompt that shows the list hands them back, the selected profiles
/// keep the order of the list: of two of them, the one that stands earlier
/// in the selection stands earlier in the list.
pub proof fn lemma_picked_in_list_order(records: Seq<ConnectionView>, chosen: Seq<usize>)
    requires
        within(chosen, records.len()),
        rising(chosen),
    ensures
        picked(records, chosen).len() == chosen.len(),
        forall|j: int, k: int|
            0 <= j < k < chosen.len() ==> {
                &&& chosen[j] < chosen[k]
                &&& picked(records, chosen)[j] == records[chosen[j] as int]
                &&& picked(records, chosen)[k] == records[chosen[k] as int]
            },
{
    lemma_picked_exactly(records, chosen);
}

/// The profiles that `selection` stands for: all of `records` in their
/// order, or the records at the indices picked, in the order picked.
pub fn select_connections<'a>(records: &'a Vec<ServerConnection>, selection: &Selection) -> (chosen:
    Vec<&'a ServerConnection>)
    ensures
        chosen.deep_view() == selected(records.deep_view(), selection@),
        chosen.len() == selected(records.deep_view(), selection@).len(),
{
    let mut chosen: Vec<&'a ServerConnection> = Vec::new();
    match selection {
        Selection::All => {
            let mut j: usize = 0;
            while j < records.len()
                invariant
                    j <= records.len(),
                    chosen.deep_view() == records.deep_view().take(j as int),
                decreases records.len() - j,
            {
                let ghost before = chosen.deep_view();
                chosen.push(&records[j]);
                assert(chosen.deep_view() =~= before.push(records[j as int]@));
                assert(chosen.deep_view() =~= records.deep_view().take(j + 1));
                j += 1;
            }
            assert(records.deep_view().take(j as int) =~= records.deep_view());
        },
        Selection::Picked(indices) => {
            let mut k: usize = 0;
            while k < indices.len()
                invariant
                    k <= indices.len(),
                    chosen.deep_view() == picked(records.deep_view(), indices@.take(k as int)),
                decreases indices.len() - k,
            {
                let ghost before = chosen.deep_view();
                let index = indices[k];
                proof {
                    let head = indices@.take(k + 1);
                    assert(head.drop_last() =~= indices@.take(k as int));
                    assert(head.last() == index);
                }
                if index < records.len() {
                    chosen.push(&records[index]);
                    assert(chosen.deep_view() =~= before.push(records[index as int]@));
                }
                k += 1;
            }
            assert(indices@.take(k as int) =~= indices@);
        },
    }
    assert(chosen.deep_view().len() == chosen.len());
    chosen
}

} // verus!
