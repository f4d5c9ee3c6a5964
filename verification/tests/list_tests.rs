use dungeon_core::list::ListOf;

fn filled(values: &[i32]) -> ListOf<i32> {
    let mut list = ListOf::new();
    for value in values {
        list.push(*value);
    }
    list
}

fn drained(list: &ListOf<i32>) -> Vec<i32> {
    let mut seen = Vec::new();
    let mut walk = list.iter();
    while let Some(value) = walk.next() {
        seen.push(*value);
    }
    seen
}

#[test]
fn new_list_is_empty() {
    let mut list: ListOf<i32> = ListOf::new();
    assert_eq!(list.value(), None);
    assert_eq!(list.get(0), None);
    assert_eq!(list.pop(), None);
    assert!(list.iter().next().is_none());
}

#[test]
fn default_list_is_empty() {
    let list: ListOf<i32> = ListOf::default();
    assert_eq!(list, ListOf::new());
    assert_eq!(list.value(), None);
}

#[test]
fn pops_come_in_reverse_order_of_pushes() {
    let mut list = filled(&[1, 2, 3, 4, 5]);
    assert_eq!(list.pop(), Some(5));
    assert_eq!(list.pop(), Some(4));
    assert_eq!(list.pop(), Some(3));
    assert_eq!(list.pop(), Some(2));
    assert_eq!(list.pop(), Some(1));
    assert_eq!(list.pop(), None);
    assert_eq!(list.value(), None);
    assert_eq!(list, ListOf::new());
}

#[test]
fn pop_on_empty_stays_empty() {
    let mut list: ListOf<i32> = ListOf::new();
    assert_eq!(list.pop(), None);
    assert_eq!(list.pop(), None);
    list.push(7);
    assert_eq!(list.pop(), Some(7));
    assert_eq!(list.pop(), None);
}

#[test]
fn push_then_pop_restores_the_list() {
    let mut list = filled(&[10, 20, 30]);
    let before = list.clone();
    list.push(99);
    assert_ne!(list, before);
    assert_eq!(list.pop(), Some(99));
    assert_eq!(list, before);
    assert_eq!(drained(&list), vec![30, 20, 10]);
}

#[test]
fn push_puts_the_old_head_behind_the_new_one() {
    let mut list = filled(&[1]);
    list.push(2);
    assert_eq!(list.value(), Some(&2));
    assert_eq!(list.tail().value(), Some(&1));
    assert_eq!(drained(&list).len(), 2);
}

#[test]
fn value_is_the_head() {
    let list = filled(&[4, 5, 6]);
    assert_eq!(list.value(), Some(&6));
}

#[test]
fn value_mut_writes_the_head_only() {
    let mut list = filled(&[4, 5, 6]);
    *list.value_mut().unwrap() = 60;
    assert_eq!(drained(&list), vec![60, 5, 4]);
    let mut empty: ListOf<i32> = ListOf::new();
    assert!(empty.value_mut().is_none());
}

#[test]
fn tail_skips_the_head() {
    let list = filled(&[1, 2, 3]);
    assert_eq!(drained(list.tail()), vec![2, 1]);
    assert_eq!(drained(list.tail().tail()), vec![1]);
    assert_eq!(drained(list.tail().tail().tail()), Vec::<i32>::new());
}

#[test]
fn tail_of_empty_is_empty() {
    let list: ListOf<i32> = ListOf::new();
    assert_eq!(list.tail(), &ListOf::new());
    assert_eq!(list.tail().tail().value(), None);
}

#[test]
fn tail_mut_changes_what_follows_the_head() {
    let mut list = filled(&[1, 2, 3]);
    list.tail_mut().push(25);
    assert_eq!(drained(&list), vec![3, 25, 2, 1]);
    assert_eq!(list.tail_mut().pop(), Some(25));
    assert_eq!(drained(&list), vec![3, 2, 1]);
}

#[test]
fn tail_mut_of_empty_is_the_list_itself() {
    let mut list: ListOf<i32> = ListOf::new();
    list.tail_mut().push(8);
    assert_eq!(drained(&list), vec![8]);
}

#[test]
fn get_counts_links_from_the_head() {
    let list = filled(&[10, 20, 30]);
    assert_eq!(list.get(0), Some(&30));
    assert_eq!(list.get(1), Some(&20));
    assert_eq!(list.get(2), Some(&10));
}

#[test]
fn get_beyond_the_end_is_absent() {
    let list = filled(&[10, 20, 30]);
    assert_eq!(list.get(3), None);
    assert_eq!(list.get(4), None);
    assert_eq!(list.get(usize::MAX), None);
}

#[test]
fn get_agrees_with_iter() {
    let list = filled(&[7, 1, 8, 2, 8]);
    let seen = drained(&list);
    assert_eq!(seen.len(), 5);
    for (index, value) in seen.iter().enumerate() {
        assert_eq!(list.get(index), Some(value));
    }
    assert_eq!(list.get(seen.len()), None);
}

#[test]
fn iter_leaves_the_list_as_it_is() {
    let list = filled(&[1, 2, 3]);
    let before = list.clone();
    assert_eq!(drained(&list), vec![3, 2, 1]);
    assert_eq!(drained(&list), vec![3, 2, 1]);
    assert_eq!(list, before);
}

#[test]
fn iter_stays_at_the_end() {
    let list = filled(&[1]);
    let mut walk = list.iter();
    assert_eq!(walk.next(), Some(&1));
    assert_eq!(walk.next(), None);
    assert_eq!(walk.next(), None);
}

#[test]
fn into_iter_agrees_with_pop() {
    let mut popped_from = filled(&[3, 1, 4, 1, 5, 9]);
    let walked_over = popped_from.clone();
    let mut by_pop = Vec::new();
    while let Some(value) = popped_from.pop() {
        by_pop.push(value);
    }
    let mut by_walk = Vec::new();
    let mut walk = walked_over.into_iter();
    while let Some(value) = walk.next() {
        by_walk.push(value);
    }
    assert_eq!(by_walk, by_pop);
    assert_eq!(by_walk, vec![9, 5, 1, 4, 1, 3]);
    assert_eq!(walk.next(), None);
}

#[test]
fn into_iter_of_empty_ends_at_once() {
    let list: ListOf<i32> = ListOf::new();
    let mut walk = list.into_iter();
    assert_eq!(walk.next(), None);
    assert_eq!(walk.next(), None);
}

#[test]
fn into_iter_moves_values_that_cannot_be_copied() {
    let mut list: ListOf<String> = ListOf::new();
    list.push(String::from("first"));
    list.push(String::from("second"));
    let mut walk = list.into_iter();
    assert_eq!(walk.next(), Some(String::from("second")));
    assert_eq!(walk.next(), Some(String::from("first")));
    assert_eq!(walk.next(), None);
}

#[test]
fn iter_mut_writes_values_and_keeps_the_shape() {
    let mut list = filled(&[1, 2, 3]);
    let mut walk = list.iter_mut();
    while let Some(value) = walk.next() {
        *value *= 10;
    }
    assert_eq!(drained(&list), vec![30, 20, 10]);
}

#[test]
fn iter_mut_hands_out_references_that_outlive_the_step() {
    let mut list = filled(&[1, 2, 3]);
    let mut walk = list.iter_mut();
    let first = walk.next().unwrap();
    let second = walk.next().unwrap();
    *second += *first;
    *first = 0;
    assert_eq!(walk.next(), Some(&mut 1));
    assert_eq!(walk.next(), None);
    assert_eq!(walk.next(), None);
    assert_eq!(drained(&list), vec![0, 5, 1]);
}

#[test]
fn iter_mut_of_empty_ends_at_once() {
    let mut list: ListOf<i32> = ListOf::new();
    let mut walk = list.iter_mut();
    assert!(walk.next().is_none());
    assert!(walk.next().is_none());
}

#[test]
fn clone_is_a_list_of_its_own() {
    let list = filled(&[1, 2, 3]);
    let mut copy = list.clone();
    assert_eq!(copy, list);
    copy.push(4);
    *copy.tail_mut().value_mut().unwrap() = 33;
    assert_eq!(drained(&list), vec![3, 2, 1]);
    assert_eq!(drained(&copy), vec![4, 33, 2, 1]);
}

#[test]
fn long_chain_is_walked_without_recursion() {
    let mut list: ListOf<usize> = ListOf::new();
    for value in 0..20_000 {
        list.push(value);
    }
    assert_eq!(list.get(0), Some(&19_999));
    assert_eq!(list.get(19_999), Some(&0));
    assert_eq!(list.get(20_000), None);
    let mut count = 0;
    let mut walk = list.into_iter();
    while let Some(value) = walk.next() {
        assert_eq!(value, 19_999 - count);
        count += 1;
    }
    assert_eq!(count, 20_000);
}
