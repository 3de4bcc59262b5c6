use opencl3_select::PriorityList;

fn remaining_of(list: &PriorityList<i32>) -> Vec<i32> {
    list.view_remaining().to_vec()
}

fn prioritized_of(list: &PriorityList<i32>) -> Vec<i32> {
    list.view_priority_list().to_vec()
}

fn list_of(prioritized: &[i32], remaining: &[i32]) -> PriorityList<i32> {
    PriorityList::from_parts(prioritized.to_vec(), remaining.to_vec())
}

#[test]
fn new_list_is_empty() {
    let list: PriorityList<u8> = PriorityList::new();
    assert!(list.view_priority_list().is_empty());
    assert!(list.view_remaining().is_empty());
    assert_eq!(list.priority_first(), None);
    assert_eq!(list.priority_nth(0), None);
}

#[test]
fn push_keeps_insertion_order() {
    let mut list = PriorityList::new();
    list.push(1);
    list.push(3);
    list.push(77);
    let remaining = list.view_remaining().into_iter().collect::<Vec<_>>();
    assert_eq!(remaining[0], &1);
    assert_eq!(remaining[1], &3);
    assert_eq!(remaining[2], &77);
    assert_eq!(remaining_of(&list), vec![1, 3, 77]);
    assert_eq!(prioritized_of(&list), Vec::<i32>::new());
}

#[test]
fn push_goes_behind_what_was_there() {
    let mut list = list_of(&[8], &[4, 4]);
    list.push(2);
    list.push(4);
    assert_eq!(remaining_of(&list), vec![4, 4, 2, 4]);
    assert_eq!(prioritized_of(&list), vec![8]);
}

#[test]
fn select_set_first_moves_the_element_to_the_top() {
    let mut list = PriorityList::new();
    list.push(1);
    list.push(3);
    list.push(77);
    assert!(list.select_set_first(0));
    assert_eq!(prioritized_of(&list), vec![1]);
    assert_eq!(remaining_of(&list), vec![3, 77]);
}

#[test]
fn push_set_first_twice_ranks_the_later_higher() {
    let mut list = PriorityList::new();
    list.push_set_first(5);
    assert_eq!(prioritized_of(&list), vec![5]);
    list.push_set_first(9);
    assert_eq!(prioritized_of(&list), vec![9, 5]);
    assert!(list.view_remaining().is_empty());
}

#[test]
fn push_set_first_shifts_every_rank_by_one() {
    let mut list = list_of(&[10, 20, 30], &[7]);
    list.push_set_first(1);
    assert_eq!(list.priority_nth(0), Some(&1));
    assert_eq!(list.priority_nth(1), Some(&10));
    assert_eq!(list.priority_nth(2), Some(&20));
    assert_eq!(list.priority_nth(3), Some(&30));
    assert_eq!(list.priority_nth(4), None);
    assert_eq!(remaining_of(&list), vec![7]);
}

#[test]
fn priority_first_is_rank_zero() {
    let list = list_of(&[42, 7], &[1]);
    assert_eq!(list.priority_first(), Some(&42));
    assert_eq!(list.priority_first(), list.priority_nth(0));
    let none_ranked = list_of(&[], &[1, 2]);
    assert_eq!(none_ranked.priority_first(), None);
    assert_eq!(none_ranked.priority_nth(0), None);
}

#[test]
fn priority_nth_reads_each_rank_and_nothing_beyond() {
    let list = list_of(&[4, 5, 6], &[]);
    assert_eq!(list.priority_nth(0), Some(&4));
    assert_eq!(list.priority_nth(1), Some(&5));
    assert_eq!(list.priority_nth(2), Some(&6));
    assert_eq!(list.priority_nth(3), None);
    assert_eq!(list.priority_nth(usize::MAX), None);
}

#[test]
fn from_seeds_the_ranked_group() {
    let list = PriorityList::from(vec!['a', 'b', 'c']);
    assert_eq!(list.view_priority_list().to_vec(), vec!['a', 'b', 'c']);
    assert!(list.view_remaining().is_empty());
    assert_eq!(list.priority_first(), Some(&'a'));
}

#[test]
fn from_an_empty_vector_is_an_empty_list() {
    let list: PriorityList<i32> = PriorityList::from(Vec::new());
    assert!(list.view_priority_list().is_empty());
    assert!(list.view_remaining().is_empty());
}

#[test]
fn into_builds_the_same_list_as_from() {
    let list: PriorityList<i32> = vec![3, 1, 2].into();
    assert_eq!(prioritized_of(&list), vec![3, 1, 2]);
    assert_eq!(remaining_of(&list), Vec::<i32>::new());
}

#[test]
fn select_succeeds_for_every_valid_index() {
    for n in 0..3 {
        let mut list = list_of(&[100], &[10, 20, 30]);
        assert!(list.select(n));
        assert_eq!(list.view_priority_list().len(), 2);
        assert_eq!(list.view_remaining().len(), 2);
    }
}

#[test]
fn select_appends_with_the_lowest_priority() {
    let mut list = list_of(&[100, 200], &[10, 20, 30]);
    assert!(list.select(1));
    assert_eq!(prioritized_of(&list), vec![100, 200, 20]);
    assert_eq!(remaining_of(&list), vec![10, 30]);
    assert!(list.select(1));
    assert_eq!(prioritized_of(&list), vec![100, 200, 20, 30]);
    assert_eq!(remaining_of(&list), vec![10]);
    assert!(list.select(0));
    assert_eq!(prioritized_of(&list), vec![100, 200, 20, 30, 10]);
    assert_eq!(remaining_of(&list), Vec::<i32>::new());
}

#[test]
fn select_out_of_range_changes_nothing() {
    let mut list = list_of(&[100], &[10, 20]);
    assert!(!list.select(2));
    assert!(!list.select(3));
    assert!(!list.select(usize::MAX));
    assert_eq!(prioritized_of(&list), vec![100]);
    assert_eq!(remaining_of(&list), vec![10, 20]);
    let mut empty: PriorityList<i32> = PriorityList::new();
    assert!(!empty.select(0));
    assert!(empty.view_priority_list().is_empty());
    assert!(empty.view_remaining().is_empty());
}

#[test]
fn select_set_nth_inserts_at_the_rank() {
    let mut list = list_of(&[100, 200, 300], &[10, 20, 30]);
    assert!(list.select_set_nth(2, 1));
    assert_eq!(prioritized_of(&list), vec![100, 30, 200, 300]);
    assert_eq!(remaining_of(&list), vec![10, 20]);
    assert!(list.select_set_nth(0, 4));
    assert_eq!(prioritized_of(&list), vec![100, 30, 200, 300, 10]);
    assert_eq!(remaining_of(&list), vec![20]);
    assert!(list.select_set_nth(0, 0));
    assert_eq!(prioritized_of(&list), vec![20, 100, 30, 200, 300, 10]);
    assert_eq!(remaining_of(&list), Vec::<i32>::new());
}

#[test]
fn select_set_nth_beyond_the_first_free_rank_changes_nothing() {
    let mut list = list_of(&[100, 200], &[10, 20]);
    assert!(!list.select_set_nth(0, 3));
    assert!(!list.select_set_nth(1, usize::MAX));
    assert_eq!(prioritized_of(&list), vec![100, 200]);
    assert_eq!(remaining_of(&list), vec![10, 20]);
}

#[test]
fn select_set_nth_with_a_bad_index_changes_nothing() {
    let mut list = list_of(&[100, 200], &[10, 20]);
    assert!(!list.select_set_nth(2, 0));
    assert!(!list.select_set_nth(2, 5));
    assert_eq!(prioritized_of(&list), vec![100, 200]);
    assert_eq!(remaining_of(&list), vec![10, 20]);
}

#[test]
fn select_set_first_out_of_range_changes_nothing() {
    let mut list = list_of(&[], &[10]);
    assert!(!list.select_set_first(1));
    assert_eq!(prioritized_of(&list), Vec::<i32>::new());
    assert_eq!(remaining_of(&list), vec![10]);
}

#[test]
fn selection_keeps_the_number_and_the_elements() {
    let mut list = list_of(&[5, 6], &[7, 8, 9, 7]);
    let mut before: Vec<i32> = prioritized_of(&list);
    before.extend(remaining_of(&list));
    before.sort();
    assert!(list.select_set_nth(3, 1));
    assert!(list.select(0));
    assert!(!list.select(7));
    let mut after: Vec<i32> = prioritized_of(&list);
    after.extend(remaining_of(&list));
    assert_eq!(after.len(), 6);
    after.sort();
    assert_eq!(after, before);
}

#[test]
fn selected_element_leaves_the_rest() {
    let mut list = list_of(&[], &[1, 2, 3]);
    assert!(list.select(1));
    assert!(!list.view_remaining().contains(&2));
    assert!(list.view_priority_list().contains(&2));
}

#[test]
fn an_equal_element_at_another_position_stays_behind() {
    let mut list = list_of(&[], &[7, 7]);
    assert!(list.select(0));
    assert_eq!(prioritized_of(&list), vec![7]);
    assert_eq!(remaining_of(&list), vec![7]);
}

#[test]
fn views_repeat_without_a_change_in_between() {
    let mut list = list_of(&[1, 2], &[3]);
    assert_eq!(list.view_priority_list(), list.view_priority_list());
    assert_eq!(list.view_remaining(), list.view_remaining());
    let first = prioritized_of(&list);
    let second = prioritized_of(&list);
    assert_eq!(first, second);
    list.push(4);
    assert_eq!(list.view_remaining(), list.view_remaining());
    assert_eq!(remaining_of(&list), vec![3, 4]);
}

#[test]
fn views_show_the_state_at_the_time_of_the_call() {
    let mut list = list_of(&[], &[1]);
    assert_eq!(remaining_of(&list), vec![1]);
    list.select(0);
    assert_eq!(remaining_of(&list), Vec::<i32>::new());
    assert_eq!(prioritized_of(&list), vec![1]);
}

#[test]
fn parts_round_trip() {
    let list = list_of(&[3, 1], &[4, 1, 5]);
    let (prioritized, remaining) = list.into_parts();
    assert_eq!(prioritized, vec![3, 1]);
    assert_eq!(remaining, vec![4, 1, 5]);
    let rebuilt = PriorityList::from_parts(prioritized, remaining);
    assert_eq!(prioritized_of(&rebuilt), vec![3, 1]);
    assert_eq!(remaining_of(&rebuilt), vec![4, 1, 5]);
}

#[test]
fn clone_copies_both_groups() {
    let list = list_of(&[1, 2], &[3]);
    let mut copy = list.clone();
    assert_eq!(prioritized_of(&copy), vec![1, 2]);
    assert_eq!(remaining_of(&copy), vec![3]);
    copy.push(9);
    assert_eq!(remaining_of(&list), vec![3]);
}

#[test]
fn holds_any_kind_of_element() {
    let mut list: PriorityList<String> = PriorityList::new();
    list.push(String::from("gpu"));
    list.push(String::from("cpu"));
    assert!(list.select_set_first(1));
    assert_eq!(list.priority_first().map(|s| s.as_str()), Some("cpu"));
    assert_eq!(list.view_remaining().to_vec(), vec![String::from("gpu")]);
}
