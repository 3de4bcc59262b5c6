//! What holds of every [`PriorityList`](crate::priority::PriorityList) and
//! of every state of the browser, stated over their views and proved.

use crate::browse::position_after;
use crate::browse::position_before;
use crate::browse::settled;
use crate::browse::AppView;
use crate::browse::Key;
use crate::clinfo::PlatformInfoView;
use crate::priority::PriorityList;
use crate::priority::PriorityListView;
use vstd::prelude::*;
use vstd::seq_lib::to_multiset_insert;
use vstd::seq_lib::to_multiset_remove;

verus! {

/// Pushed elements come out of the unranked rest in the order in which they
/// went in, behind the elements that were there before; the ranked group is
/// not touched.
pub proof fn lemma_push_keeps_arrival_order<T>(list: PriorityListView<T>, elements: Seq<T>)
    ensures
        list.push_all(elements).remaining == list.remaining + elements,
        list.push_all(elements).prioritized == list.prioritized,
    decreases elements.len(),
{
    if elements.len() > 0 {
        lemma_push_keeps_arrival_order(list, elements.drop_last());
        assert(elements == elements.drop_last().push(elements.last()));
        assert(list.push_all(elements).remaining =~= list.remaining + elements);
    } else {
        assert(list.remaining + elements =~= list.remaining);
    }
}

/// An element added as first priority holds rank 0 right after, and every
/// element that was ranked before holds the rank one below its old one. The
/// unranked rest is not touched.
pub proof fn lemma_push_set_first_shifts_ranks<T>(list: PriorityListView<T>, element: T)
    ensures
        list.push_set_first(element).priority_first() == Some(element),
        list.push_set_first(element).priority_nth(0) == Some(element),
        list.push_set_first(element).prioritized.len() == list.prioritized.len() + 1,
        forall|rank: int|
            0 <= rank < list.prioritized.len() ==> #[trigger] list.push_set_first(
                element,
            ).priority_nth(rank + 1) == list.priority_nth(rank),
        list.push_set_first(element).remaining == list.remaining,
{
}

/// The highest priority member is the member at rank 0, and there is none
/// exactly when no element is ranked.
pub proof fn lemma_first_is_rank_zero<T>(list: PriorityListView<T>)
    ensures
        list.priority_first() == list.priority_nth(0),
        list.priority_first().is_none() <==> list.prioritized.len() == 0,
        list.priority_nth(0).is_none() <==> list.prioritized.len() == 0,
{
}

/// A rank is taken exactly when it lies below the number of ranked elements.
pub proof fn lemma_rank_is_taken<T>(list: PriorityListView<T>, rank: int)
    ensures
        list.priority_nth(rank).is_some() <==> 0 <= rank < list.prioritized.len(),
{
}

/// Selecting with the lowest priority is selecting at the first free rank.
pub proof fn lemma_select_is_first_free_rank<T>(list: PriorityListView<T>, n: int)
    requires
        0 <= n < list.remaining.len(),
    ensures
        list.can_select(n, list.prioritized.len() as int),
        list.select(n) == list.select_set_nth(n, list.prioritized.len() as int),
{
    assert(list.prioritized.push(list.remaining[n]) =~= list.prioritized.insert(
        list.prioritized.len() as int,
        list.remaining[n],
    ));
}

/// After a selection the selected element holds the rank that was asked for.
/// The elements of higher priority keep their ranks, the others move down by
/// one. The rest loses the selected position and keeps the order of the
/// others. No element is lost or doubled: the list holds as many elements as
/// before, and the same ones.
pub proof fn lemma_select_set_nth_moves_one<T>(list: PriorityListView<T>, n: int, rank: int)
    requires
        list.can_select(n, rank),
    ensures
        list.select_set_nth(n, rank).priority_nth(rank) == Some(list.remaining[n]),
        forall|r: int|
            0 <= r < rank ==> #[trigger] list.select_set_nth(n, rank).priority_nth(r)
                == list.priority_nth(r),
        forall|r: int|
            rank <= r < list.prioritized.len() ==> #[trigger] list.select_set_nth(
                n,
                rank,
            ).priority_nth(r + 1) == list.priority_nth(r),
        list.select_set_nth(n, rank).prioritized.len() == list.prioritized.len() + 1,
        list.select_set_nth(n, rank).remaining.len() == list.remaining.len() - 1,
        forall|i: int|
            0 <= i < n ==> #[trigger] list.select_set_nth(n, rank).remaining[i]
                == list.remaining[i],
        forall|i: int|
            n <= i < list.remaining.len() - 1 ==> #[trigger] list.select_set_nth(
                n,
                rank,
            ).remaining[i] == list.remaining[i + 1],
        list.select_set_nth(n, rank).count() == list.count(),
        list.select_set_nth(n, rank).elements() == list.elements(),
{
    let moved = list.remaining[n];
    to_multiset_insert(list.prioritized, rank, moved);
    to_multiset_remove(list.remaining, n);
    assert(list.remaining.to_multiset().count(moved) > 0) by {
        to_multiset_insert(list.remaining.remove(n), n, moved);
        assert(list.remaining.remove(n).insert(n, moved) =~= list.remaining);
    }
    assert(list.select_set_nth(n, rank).elements() =~= list.elements());
}

/// After a selection with the lowest priority the selected element is the
/// last of the ranked group, and all that were ranked keep their ranks. The
/// rest loses the selected position, and the list holds as many elements as
/// before, and the same ones.
pub proof fn lemma_select_moves_one<T>(list: PriorityListView<T>, n: int)
    requires
        0 <= n < list.remaining.len(),
    ensures
        list.select(n).priority_nth(list.prioritized.len() as int) == Some(list.remaining[n]),
        list.select(n).prioritized.drop_last() == list.prioritized,
        list.select(n).remaining == list.remaining.remove(n),
        list.select(n).count() == list.count(),
        list.select(n).elements() == list.elements(),
{
    lemma_select_is_first_free_rank(list, n);
    lemma_select_set_nth_moves_one(list, n, list.prioritized.len() as int);
    assert(list.select(n).prioritized.drop_last() =~= list.prioritized);
}

/// An element that stood once among the unranked elements stands there no
/// more after it was selected, and is found among the ranked. Where the rest
/// held an equal element at another position, that one stays behind.
pub proof fn lemma_selected_leaves_rest<T>(list: PriorityListView<T>, n: int, rank: int)
    requires
        list.can_select(n, rank),
        forall|i: int|
            0 <= i < list.remaining.len() && i != n ==> list.remaining[i] != list.remaining[n],
    ensures
        !list.select_set_nth(n, rank).remaining.contains(list.remaining[n]),
        list.select_set_nth(n, rank).prioritized.contains(list.remaining[n]),
        !list.select(n).remaining.contains(list.remaining[n]),
        list.select(n).prioritized.contains(list.remaining[n]),
{
    let moved = list.remaining[n];
    let rest = list.remaining.remove(n);
    assert forall|i: int| 0 <= i < rest.len() implies rest[i] != moved by {
        if i < n {
            assert(rest[i] == list.remaining[i]);
        } else {
            assert(rest[i] == list.remaining[i + 1]);
        }
    }
    assert(list.select_set_nth(n, rank).prioritized[rank] == moved);
    assert(list.select(n).prioritized[list.prioritized.len() as int] == moved);
}

/// Reading a group twice without a change in between gives the same
/// sequence both times: whatever
/// [`view_priority_list`](PriorityList::view_priority_list) may return for a
/// list, and whatever [`view_remaining`](PriorityList::view_remaining) may,
/// is settled by the list alone.
pub proof fn lemma_views_repeat<T>(
    list: &PriorityList<T>,
    ranked_once: &[T],
    ranked_again: &[T],
    rest_once: &[T],
    rest_again: &[T],
)
    requires
        call_ensures(PriorityList::<T>::view_priority_list, (list,), ranked_once),
        call_ensures(PriorityList::<T>::view_priority_list, (list,), ranked_again),
        call_ensures(PriorityList::<T>::view_remaining, (list,), rest_once),
        call_ensures(PriorityList::<T>::view_remaining, (list,), rest_again),
    ensures
        ranked_once@ == ranked_again@,
        rest_once@ == rest_again@,
{
}

/// A list taken apart by [`into_parts`](PriorityList::into_parts) and put
/// together again by [`from_parts`](PriorityList::from_parts) holds both
/// groups as before, element for element and in order.
pub proof fn lemma_parts_round_trip<T>(
    list: PriorityList<T>,
    parts: (Vec<T>, Vec<T>),
    rebuilt: PriorityList<T>,
)
    requires
        call_ensures(PriorityList::<T>::into_parts, (list,), parts),
        call_ensures(PriorityList::<T>::from_parts, (parts.0, parts.1), rebuilt),
    ensures
        rebuilt@ == list@,
{
}

/// A step puts the cursor where it has a place in the list, wherever it was
/// before a step down, and from any such place before a step up.
pub proof fn lemma_step_stays_in_list(selected: Option<usize>, len: nat)
    ensures
        settled(Some(position_after(selected, len) as usize), len),
        settled(selected, len) ==> settled(Some(position_before(selected, len) as usize), len),
{
}

/// From an item of the list, a step down and a step up lead back to the
/// item, and so do a step up and a step down.
pub proof fn lemma_steps_undo_each_other(at: usize, len: nat)
    requires
        at < len,
        len <= usize::MAX,
    ensures
        position_before(Some(position_after(Some(at), len) as usize), len) == at,
        position_after(Some(position_before(Some(at), len) as usize), len) == at,
{
}

/// The browser starts in a settled state, and shows the platforms it was
/// started on.
pub proof fn lemma_start_is_settled(platforms: Seq<PlatformInfoView>)
    ensures
        AppView::start(platforms).settled(),
        AppView::start(platforms).shown() == platforms,
{
    assert(AppView::start(platforms).shown() =~= platforms);
}

/// No key unsettles the browser, and no key changes what it shows: the
/// platforms and their devices stay as they are, in their order.
pub proof fn lemma_key_keeps_settled(state: AppView, key: Key)
    requires
        state.settled(),
    ensures
        state.after_key(key).settled(),
        state.after_key(key).shown() == state.shown(),
        forall|at: int|
            0 <= at < state.items.items.len() ==> (#[trigger] state.after_key(
                key,
            ).items.items[at]).devices.items == state.items.items[at].devices.items,
{
    let after = state.after_key(key);
    assert(after.items.items.len() == state.items.items.len());
    assert(after.shown() =~= state.shown());
}

/// A key that ends the browser leaves the state as it was.
pub proof fn lemma_leaving_changes_nothing(state: AppView, key: Key)
    requires
        key.leaves_browser(),
    ensures
        state.after_key(key) == state,
{
}

} // verus!
