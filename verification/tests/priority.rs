use coop_executor::priority::{PriorityInner, DEFAULT_PRIORITY, MAX_PRIORITY};
use coop_executor::task::Task;

fn task_counts(tiers: &mut PriorityInner) -> Vec<usize> {
    let mut counts = Vec::new();
    for priority in 0..MAX_PRIORITY {
        counts.push(tiers.get_mut_inner(priority).slab.len());
    }
    counts
}

#[test]
fn there_are_32_tiers_and_tier_4_is_the_default() {
    assert_eq!(MAX_PRIORITY, 32);
    assert_eq!(DEFAULT_PRIORITY, 4);
    assert!(DEFAULT_PRIORITY < MAX_PRIORITY);
    assert!(31 < MAX_PRIORITY);
    assert!(!(32 < MAX_PRIORITY));
}

#[test]
fn a_new_tier_set_is_empty_in_every_tier() {
    let mut tiers = PriorityInner::new();
    for priority in 0..MAX_PRIORITY {
        let inner = tiers.get_mut_inner(priority);
        assert_eq!(inner.slab.len(), 0);
        assert_eq!(inner.pages.len(), 0);
    }
}

#[test]
fn insert_at_tier_31_succeeds() {
    let mut tiers = PriorityInner::new();
    let key = tiers.priority_insert(31, Task::new(5, 31));
    assert_eq!(key, 0);
    let mut expected = vec![0; 32];
    expected[31] = 1;
    assert_eq!(task_counts(&mut tiers), expected);
}

#[test]
fn insert_at_tier_0_succeeds() {
    let mut tiers = PriorityInner::new();
    assert_eq!(tiers.priority_insert(0, Task::new(5, 0)), 0);
    assert_eq!(tiers.priority_insert(0, Task::new(6, 0)), 1);
    let mut expected = vec![0; 32];
    expected[0] = 2;
    assert_eq!(task_counts(&mut tiers), expected);
}

#[test]
fn insert_without_a_tier_goes_to_tier_4() {
    let mut tiers = PriorityInner::new();
    tiers.insert(Task::new(21, 4));
    let mut expected = vec![0; 32];
    expected[4] = 1;
    assert_eq!(task_counts(&mut tiers), expected);
    let inner = tiers.get_mut_inner(4);
    assert_eq!(inner.slab.get(0).map(|task| task.future()), Some(21));
    assert_eq!(inner.pages.len(), 1);
    assert!(inner.pages[0].is_occupied(0));
    assert!(inner.pages[0].is_runnable(0));
}

#[test]
fn tiers_hand_out_keys_independently() {
    let mut tiers = PriorityInner::new();
    assert_eq!(tiers.priority_insert(3, Task::new(1, 3)), 0);
    assert_eq!(tiers.priority_insert(3, Task::new(2, 3)), 1);
    assert_eq!(tiers.priority_insert(7, Task::new(3, 7)), 0);
    assert_eq!(tiers.priority_insert(3, Task::new(4, 3)), 2);
    assert_eq!(tiers.priority_insert(7, Task::new(5, 7)), 1);
}

#[test]
fn page_of_a_tier_maps_key_to_page_and_bit() {
    let mut tiers = PriorityInner::new();
    for handle in 0..70 {
        tiers.priority_insert(9, Task::new(handle, 9));
    }
    let (page, ix) = tiers.page(9, 69);
    assert_eq!(ix, 5);
    assert!(page.is_occupied(5));
    assert!(!page.is_occupied(6));
    let (page, ix) = tiers.page(9, 63);
    assert_eq!(ix, 63);
    assert!(page.is_occupied(63));
}

#[test]
fn what_is_done_through_get_mut_inner_stays_in_its_tier() {
    let mut tiers = PriorityInner::new();
    {
        let inner = tiers.get_mut_inner(12);
        assert_eq!(inner.insert(Task::new(8, 12)), 0);
        inner.pages[0].clear(0);
    }
    let mut expected = vec![0; 32];
    expected[12] = 1;
    assert_eq!(task_counts(&mut tiers), expected);
    let (page, ix) = tiers.page(12, 0);
    assert!(page.is_occupied(ix));
    assert!(!page.is_runnable(ix));
}
