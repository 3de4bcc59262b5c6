//! A list whose elements are split into a ranked group and an unranked rest.

use vstd::multiset::Multiset;
use vstd::prelude::*;

verus! {

/// What a [`PriorityList`] holds, as two mathematical sequences.
///
/// `prioritized[0]` is the element of highest priority; the position of an
/// element in `prioritized` is its rank. `remaining` keeps its elements in
/// the order in which they arrived.
pub struct PriorityListView<T> {
    pub prioritized: Seq<T>,
    pub remaining: Seq<T>,
}

impl<T> PriorityListView<T> {
    /// The list that holds nothing.
    pub open spec fn empty() -> Self {
        PriorityListView { prioritized: Seq::empty(), remaining: Seq::empty() }
    }

    /// The list whose ranked group is `items`, in that order, and whose rest
    /// is empty.
    pub open spec fn ranked(items: Seq<T>) -> Self {
        PriorityListView { prioritized: items, remaining: Seq::empty() }
    }

    /// The list with `element` added behind all the unranked elements.
    pub open spec fn push(self, element: T) -> Self {
        PriorityListView { prioritized: self.prioritized, remaining: self.remaining.push(element) }
    }

    /// The list with every element of `elements` pushed, first to last.
    pub open spec fn push_all(self, elements: Seq<T>) -> Self
        decreases elements.len(),
    {
        if elements.len() == 0 {
            self
        } else {
            self.push_all(elements.drop_last()).push(elements.last())
        }
    }

    /// The list with `element` added at rank 0, in front of all the ranked
    /// elements.
    pub open spec fn push_set_first(self, element: T) -> Self {
        PriorityListView {
            prioritized: self.prioritized.insert(0, element),
            remaining: self.remaining,
        }
    }

    /// The element at rank `n`, if the ranked group reaches that far.
    pub open spec fn priority_nth(self, n: int) -> Option<T> {
        if 0 <= n < self.prioritized.len() {
            Some(self.prioritized[n])
        } else {
            None
        }
    }

    /// The element of highest priority, if any element is ranked.
    pub open spec fn priority_first(self) -> Option<T> {
        if self.prioritized.len() == 0 {
            None
        } else {
            Some(self.prioritized.first())
        }
    }

    /// Whether the unranked element at position `n` can be given rank
    /// `rank`: `n` has to address an unranked element, and `rank` a rank that
    /// is taken or the first free one.
    pub open spec fn can_select(self, n: int, rank: int) -> bool {
        0 <= n < self.remaining.len() && 0 <= rank <= self.prioritized.len()
    }

    /// The list after the unranked element at position `n` has left the rest
    /// and taken rank `rank`; the elements that held rank `rank` or a lower
    /// priority each move down by one.
    pub open spec fn select_set_nth(self, n: int, rank: int) -> Self
        recommends
            self.can_select(n, rank),
    {
        PriorityListView {
            prioritized: self.prioritized.insert(rank, self.remaining[n]),
            remaining: self.remaining.remove(n),
        }
    }

    /// The list after the unranked element at position `n` has taken the
    /// lowest priority.
    pub open spec fn select(self, n: int) -> Self
        recommends
            0 <= n < self.remaining.len(),
    {
        PriorityListView {
            prioritized: self.prioritized.push(self.remaining[n]),
            remaining: self.remaining.remove(n),
        }
    }

    /// The number of elements, ranked or not.
    pub open spec fn count(self) -> nat {
        self.prioritized.len() + self.remaining.len()
    }

    /// All elements, ranked or not, each as often as the list holds it.
    pub open spec fn elements(self) -> Multiset<T> {
        self.prioritized.to_multiset().add(self.remaining.to_multiset())
    }
}

/// A dynamic list which labels elements by priority.
///
/// Elements arrive in the unranked rest and are moved from there into the
/// ranked group, at a rank that the caller chooses.
///
/// Every operation that takes a position answers with a `bool`. A position
/// in range always has its effect and gives `true`. A position out of range
/// never aborts: the list stays as it was and the answer is `false`. In
/// range are the positions of the unranked items, and for a rank the ranks
/// that are taken and the first free one.
#[derive(Debug)]
pub struct PriorityList<T> {
    selected: Vec<T>,
    remaining: Vec<T>,
}

impl<T> View for PriorityList<T> {
    type V = PriorityListView<T>;

    closed spec fn view(&self) -> PriorityListView<T> {
        PriorityListView { prioritized: self.selected@, remaining: self.remaining@ }
    }
}

impl<T> PriorityList<T> {
    /// Construct a new empty list.
    pub fn new() -> (list: Self)
        ensures
            list@ == PriorityListView::<T>::empty(),
    {
        PriorityList { selected: Vec::new(), remaining: Vec::new() }
    }

    /// Gets the highest priority member.
    pub fn priority_first(&self) -> (first: Option<&T>)
        ensures
            (match first {
                Some(member) => self@.priority_first() == Some(*member),
                None => self@.priority_first().is_none(),
            }),
    {
        self.selected.as_slice().first()
    }

    /// Gets the member at rank `n`, the nth-highest priority.
    pub fn priority_nth(&self, n: usize) -> (member: Option<&T>)
        ensures
            (match member {
                Some(found) => self@.priority_nth(n as int) == Some(*found),
                None => self@.priority_nth(n as int).is_none(),
            }),
    {
        if n < self.selected.len() {
            Some(&self.selected[n])
        } else {
            None
        }
    }

    /// Adds another member behind the unranked elements.
    pub fn push(&mut self, element: T)
        ensures
            final(self)@ == old(self)@.push(element),
    {
        self.remaining.push(element);
    }

    /// Adds another element and sets it as the first priority.
    pub fn push_set_first(&mut self, element: T)
        ensures
            final(self)@ == old(self)@.push_set_first(element),
    {
        self.selected.insert(0, element);
    }

    /// View the current priority list, highest priority first.
    pub fn view_priority_list(&self) -> (ranked: &[T])
        ensures
            ranked@ == self@.prioritized,
    {
        self.selected.as_slice()
    }

    /// View the remaining items which are not selected for priority, in the
    /// order in which they arrived.
    pub fn view_remaining(&self) -> (rest: &[T])
        ensures
            rest@ == self@.remaining,
    {
        self.remaining.as_slice()
    }

    /// Selects the unranked item at position `n` and gives it the lowest
    /// priority. Returns whether `n` addressed an item, which every `n`
    /// below the number of unranked items does; if not, nothing changes.
    pub fn select(&mut self, n: usize) -> (moved: bool)
        ensures
            moved == (n < old(self)@.remaining.len()),
            moved ==> final(self)@ == old(self)@.select(n as int),
            !moved ==> final(self)@ == old(self)@,
    {
        if n < self.remaining.len() {
            let selected = self.remaining.remove(n);
            self.selected.push(selected);
            true
        } else {
            false
        }
    }

    /// Selects the unranked item at position `n` and puts it at rank
    /// `priority_level`. Returns whether both positions were in range; if
    /// not, nothing changes.
    pub fn select_set_nth(&mut self, n: usize, priority_level: usize) -> (moved: bool)
        ensures
            moved == old(self)@.can_select(n as int, priority_level as int),
            moved ==> final(self)@ == old(self)@.select_set_nth(n as int, priority_level as int),
            !moved ==> final(self)@ == old(self)@,
    {
        if n < self.remaining.len() && priority_level <= self.selected.len() {
            let selected = self.remaining.remove(n);
            self.selected.insert(priority_level, selected);
            true
        } else {
            false
        }
    }

    /// Selects the unranked item at position `n` and makes it the first
    /// priority. See [`select_set_nth`](PriorityList::select_set_nth).
    pub fn select_set_first(&mut self, n: usize) -> (moved: bool)
        ensures
            moved == (n < old(self)@.remaining.len()),
            moved ==> final(self)@ == old(self)@.select_set_nth(n as int, 0),
            !moved ==> final(self)@ == old(self)@,
    {
        self.select_set_nth(n, 0)
    }

    /// Builds a list from its two groups: `prioritized` becomes the ranked
    /// group, highest priority first, and `remaining` the unranked rest.
    pub fn from_parts(prioritized: Vec<T>, remaining: Vec<T>) -> (list: Self)
        ensures
            list@.prioritized == prioritized@,
            list@.remaining == remaining@,
    {
        PriorityList { selected: prioritized, remaining }
    }

    /// Takes the list apart into its ranked group and its unranked rest.
    /// [`from_parts`](PriorityList::from_parts) puts the same list together
    /// again.
    pub fn into_parts(self) -> (parts: (Vec<T>, Vec<T>))
        ensures
            parts.0@ == self@.prioritized,
            parts.1@ == self@.remaining,
    {
        (self.selected, self.remaining)
    }
}

impl<T> From<Vec<T>> for PriorityList<T> {
    /// Seeds the ranked group with `value`, in its order; nothing is left
    /// unranked.
    fn from(value: Vec<T>) -> (list: Self)
        ensures
            list@ == PriorityListView::ranked(value@),
    {
        PriorityList { selected: value, remaining: Vec::new() }
    }
}

impl<T> vstd::std_specs::convert::FromSpecImpl<Vec<T>> for PriorityList<T> {
    /// `from` is described by its own `ensures`, over the view: two vectors
    /// that hold the same elements need not be the same value, so no single
    /// list can be named as the result.
    open spec fn obeys_from_spec() -> bool {
        false
    }

    /// Some list whose ranked group holds the elements of `v` and whose rest
    /// is empty.
    open spec fn from_spec(v: Vec<T>) -> Self {
        choose|list: Self| list@ == PriorityListView::ranked(v@)
    }
}

impl<T: Clone> Clone for PriorityList<T> {
    /// Clones element by element: the copy has as many elements in each
    /// group, and each is a clone of the element at its position.
    fn clone(&self) -> (copy: Self)
        ensures
            copy@.prioritized.len() == self@.prioritized.len(),
            copy@.remaining.len() == self@.remaining.len(),
            forall|i: int|
                0 <= i < self@.prioritized.len() ==> cloned::<T>(
                    #[trigger] self@.prioritized[i],
                    copy@.prioritized[i],
                ),
            forall|i: int|
                0 <= i < self@.remaining.len() ==> cloned::<T>(
                    #[trigger] self@.remaining[i],
                    copy@.remaining[i],
                ),
    {
        PriorityList { selected: self.selected.clone(), remaining: self.remaining.clone() }
    }
}

} // verus!
