use coop_executor::storage::Inner;
use coop_executor::task::Task;

fn filled(count: usize) -> Inner {
    let mut inner = Inner::new();
    for handle in 0..count {
        let key = inner.insert(Task::new(handle, 4));
        assert_eq!(key, handle as u64);
    }
    inner
}

#[test]
fn new_storage_has_no_task_and_no_page() {
    let inner = Inner::new();
    assert_eq!(inner.slab.len(), 0);
    assert!(inner.slab.is_empty());
    assert_eq!(inner.pages.len(), 0);
}

#[test]
fn first_insert_uses_key_zero_and_makes_one_page() {
    let mut inner = Inner::new();
    let key = inner.insert(Task::new(11, 4));
    assert_eq!(key, 0);
    assert_eq!(inner.pages.len(), 1);
    assert_eq!(inner.slab.len(), 1);
    assert_eq!(inner.slab.get(0).map(|task| task.future()), Some(11));
    let (page, ix) = inner.page(0);
    assert_eq!(ix, 0);
    assert!(page.is_occupied(0));
    assert!(page.is_runnable(0));
    assert!(!page.is_occupied(1));
}

#[test]
fn keys_come_in_order() {
    let mut inner = Inner::new();
    for expected in 0..200u64 {
        assert_eq!(inner.insert(Task::new(expected as usize, 4)), expected);
    }
    for key in 0..200usize {
        assert_eq!(inner.slab.get(key).map(|task| task.future()), Some(key));
    }
    assert!(inner.slab.get(200).is_none());
}

#[test]
fn sixty_four_tasks_fit_one_page() {
    let inner = filled(64);
    assert_eq!(inner.pages.len(), 1);
    for ix in 0..64 {
        assert!(inner.pages[0].is_occupied(ix));
        assert!(inner.pages[0].is_runnable(ix));
    }
}

#[test]
fn sixty_five_tasks_take_two_pages() {
    let inner = filled(65);
    assert_eq!(inner.pages.len(), 2);
    for ix in 0..64 {
        assert!(inner.pages[0].is_occupied(ix));
        assert!(inner.pages[0].is_runnable(ix));
    }
    assert!(inner.pages[1].is_occupied(0));
    assert!(inner.pages[1].is_runnable(0));
    for ix in 1..64 {
        assert!(!inner.pages[1].is_occupied(ix));
        assert!(!inner.pages[1].is_runnable(ix));
    }
}

#[test]
fn page_count_is_tasks_over_64_rounded_up() {
    assert_eq!(filled(0).pages.len(), 0);
    assert_eq!(filled(1).pages.len(), 1);
    assert_eq!(filled(63).pages.len(), 1);
    assert_eq!(filled(128).pages.len(), 2);
    assert_eq!(filled(129).pages.len(), 3);
}

#[test]
fn slot_zero_keeps_its_address_when_a_page_is_added() {
    let mut inner = filled(1);
    let before = format!("{:p}", inner.slab.get(0).unwrap());
    for handle in 1..65 {
        inner.insert(Task::new(handle, 4));
    }
    assert_eq!(inner.pages.len(), 2);
    let after = format!("{:p}", inner.slab.get(0).unwrap());
    assert_eq!(before, after);
    assert_eq!(inner.slab.get(0).map(|task| task.future()), Some(0));
}

#[test]
fn slots_keep_their_addresses_while_the_slab_grows() {
    let mut inner = filled(10);
    let mut before = Vec::new();
    for key in 0..10 {
        before.push(format!("{:p}", inner.slab.get(key).unwrap()));
    }
    for handle in 10..1000 {
        inner.insert(Task::new(handle, 4));
    }
    for key in 0..10 {
        assert_eq!(before[key], format!("{:p}", inner.slab.get(key).unwrap()));
    }
}

#[test]
fn page_maps_key_to_page_and_bit() {
    let inner = filled(200);
    let cases: [(u64, usize, usize); 9] = [
        (0, 0, 0),
        (1, 0, 1),
        (63, 0, 63),
        (64, 1, 0),
        (65, 1, 1),
        (127, 1, 63),
        (128, 2, 0),
        (191, 2, 63),
        (199, 3, 7),
    ];
    for (key, page_ix, bit_ix) in cases {
        let (page, ix) = inner.page(key);
        assert_eq!(ix, bit_ix);
        assert_eq!(format!("{:p}", page), format!("{:p}", &inner.pages[page_ix]));
    }
}

#[test]
fn page_is_division_and_remainder_by_64_for_every_key() {
    let inner = filled(300);
    for key in 0..300u64 {
        let (page, ix) = inner.page(key);
        assert_eq!(ix as u64, key % 64);
        assert_eq!(format!("{:p}", page), format!("{:p}", &inner.pages[(key / 64) as usize]));
        assert!(page.is_occupied(ix));
    }
}

#[test]
fn page_finds_an_allocated_page_for_a_vacant_slot() {
    let inner = filled(65);
    let (page, ix) = inner.page(100);
    assert_eq!(ix, 36);
    assert!(!page.is_occupied(ix));
    assert!(!page.is_runnable(ix));
}

#[test]
fn insert_marks_only_its_own_slot() {
    let mut inner = filled(3);
    inner.pages[0].clear(1);
    let key = inner.insert(Task::new(3, 4));
    assert_eq!(key, 3);
    assert!(inner.pages[0].is_runnable(0));
    assert!(!inner.pages[0].is_runnable(1));
    assert!(inner.pages[0].is_occupied(1));
    assert!(inner.pages[0].is_runnable(2));
    assert!(inner.pages[0].is_runnable(3));
    assert!(!inner.pages[0].is_occupied(4));
}

#[test]
fn a_freed_slot_is_used_again_first() {
    let mut inner = filled(3);
    assert!(inner.slab.remove(1));
    assert_eq!(inner.insert(Task::new(77, 4)), 1);
    assert_eq!(inner.slab.get(1).map(|task| task.future()), Some(77));
    assert_eq!(inner.insert(Task::new(78, 4)), 3);
    assert_eq!(inner.pages.len(), 1);
}

#[test]
fn freed_slots_are_used_again_last_freed_first() {
    let mut inner = filled(3);
    assert!(inner.slab.remove(1));
    assert!(inner.slab.remove(0));
    assert_eq!(inner.insert(Task::new(50, 4)), 0);
    assert_eq!(inner.insert(Task::new(51, 4)), 1);
    assert_eq!(inner.insert(Task::new(52, 4)), 3);
    assert_eq!(inner.slab.len(), 4);
}

#[test]
fn insert_adds_every_page_up_to_the_key() {
    let mut inner = filled(130);
    inner.pages.truncate(0);
    assert!(inner.slab.remove(129));
    assert_eq!(inner.insert(Task::new(1, 4)), 129);
    assert_eq!(inner.pages.len(), 3);
    assert!(inner.pages[2].is_occupied(1));
    assert!(inner.pages[2].is_runnable(1));
    assert!(!inner.pages[2].is_occupied(0));
    for ix in 0..64 {
        assert!(!inner.pages[0].is_occupied(ix));
        assert!(!inner.pages[1].is_occupied(ix));
    }
}

#[test]
fn insert_keeps_the_task_it_is_given() {
    let mut inner = Inner::new();
    let mut task = Task::new(9, 17);
    task._block();
    let key = inner.insert(task);
    let stored = inner.slab.get(key as usize).unwrap();
    assert_eq!(stored.future(), 9);
    assert!(!stored._is_runnable());
}
