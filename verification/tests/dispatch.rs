use limtr::blocks::Blocks;
use limtr::directive::{get_or_create_blocks, Task, Work};
use limtr::index_map::IndexMap;
use limtr::usage::Usage;
use limtr::Directive;
use std::cell::RefCell;
use std::rc::Rc;

type Shared = Rc<RefCell<Blocks>>;

fn send(index: &mut IndexMap<Shared>, directive: Directive, now: u64) -> Option<u64> {
    match directive.handle(index) {
        Task::Run { blocks, work } => work.run_at(&mut blocks.borrow_mut(), now),
        Task::Reply(expiration) => Some(expiration),
        Task::Done => None,
    }
}

#[test]
fn probe_of_unknown_identity_is_answered_at_once() {
    let mut index: IndexMap<Shared> = IndexMap::new();
    match Directive::get_limit("u".to_string(), 1u8).handle(&mut index) {
        Task::Reply(expiration) => assert_eq!(expiration, 0),
        other => panic!("{:?}", other),
    }
    assert_eq!(index.slots(), 0);
    assert!(index.get("u").is_none());
}

#[test]
fn update_of_unknown_identity_enters_an_empty_table() {
    let mut index: IndexMap<Shared> = IndexMap::new();
    match Directive::update_limit("u".to_string(), 1u8, 10, 2).handle(&mut index) {
        Task::Run { blocks, work } => {
            assert_eq!(work, Work::UpdateLimit { feature: 1, max_calls: 2, seconds: 10 });
            assert_eq!(blocks.borrow().usage(1), None);
            assert!(Rc::ptr_eq(&blocks, index.get("u").unwrap()));
        }
        other => panic!("{:?}", other),
    }
    assert_eq!(index.slots(), 1);
}

#[test]
fn set_of_unknown_identity_enters_an_empty_table() {
    let mut index: IndexMap<Shared> = IndexMap::new();
    match Directive::set_limit("u".to_string(), 1u8, 10).handle(&mut index) {
        Task::Run { blocks, work } => {
            assert_eq!(work, Work::SetLimit { feature: 1, seconds: 10 });
            assert_eq!(blocks.borrow().usage(1), None);
            assert!(Rc::ptr_eq(&blocks, index.get("u").unwrap()));
        }
        other => panic!("{:?}", other),
    }
}

#[test]
fn directives_of_one_identity_share_its_table() {
    let mut index: IndexMap<Shared> = IndexMap::new();
    let first = match Directive::update_limit("u".to_string(), 1u8, 10, 2).handle(&mut index) {
        Task::Run { blocks, .. } => blocks,
        other => panic!("{:?}", other),
    };
    let second = match Directive::set_limit("u".to_string(), 2u8, 10).handle(&mut index) {
        Task::Run { blocks, .. } => blocks,
        other => panic!("{:?}", other),
    };
    let third = match Directive::get_limit("u".to_string(), 1u8).handle(&mut index) {
        Task::Run { blocks, work } => {
            assert_eq!(work, Work::GetLimit { feature: 1 });
            blocks
        }
        other => panic!("{:?}", other),
    };
    let stranger = match Directive::update_limit("v".to_string(), 1u8, 10, 2).handle(&mut index) {
        Task::Run { blocks, .. } => blocks,
        other => panic!("{:?}", other),
    };
    assert!(Rc::ptr_eq(&first, &second));
    assert!(Rc::ptr_eq(&first, &third));
    assert!(!Rc::ptr_eq(&first, &stranger));
    assert_eq!(index.slots(), 2);
}

#[test]
fn clear_empties_the_index_and_leaves_nothing_to_do() {
    let mut index: IndexMap<Shared> = IndexMap::new();
    send(&mut index, Directive::update_limit("u".to_string(), 1u8, 10, 1), 700);
    send(&mut index, Directive::update_limit("v".to_string(), 1u8, 10, 1), 700);
    match Directive::Clear.handle(&mut index) {
        Task::Done => {}
        other => panic!("{:?}", other),
    }
    assert_eq!(index.slots(), 0);
    assert!(index.get("u").is_none());
    assert!(index.get("v").is_none());
}

#[test]
fn work_on_a_table_follows_the_window_rules() {
    let mut blocks = Blocks::new();
    let update = Work::UpdateLimit { feature: 3, max_calls: 2, seconds: 10 };
    assert_eq!(update.run_at(&mut blocks, 700), Some(0));
    assert_eq!(update.run_at(&mut blocks, 701), Some(0));
    assert_eq!(update.run_at(&mut blocks, 702), Some(712));
    assert_eq!(Work::GetLimit { feature: 3 }.run_at(&mut blocks, 703), Some(712));
    assert_eq!(Work::GetLimit { feature: 4 }.run_at(&mut blocks, 703), Some(0));
    assert_eq!(Work::SetLimit { feature: 4, seconds: 5 }.run_at(&mut blocks, 703), None);
    assert_eq!(Work::GetLimit { feature: 4 }.run_at(&mut blocks, 704), Some(708));
    assert_eq!(blocks.usage(4), Some(Usage { calls: 0, expiration: 708, last_call: 703 }));
}

#[test]
fn work_reads_the_clock() {
    let mut blocks = Blocks::new();
    let update = Work::UpdateLimit { feature: 3, max_calls: 1, seconds: 100 };
    assert_eq!(update.run(&mut blocks), Some(0));
    let first = blocks.usage(3).unwrap();
    assert!(first.last_call > 1_000_000_000);
    let blocked = update.run(&mut blocks).unwrap();
    assert!(blocked >= first.last_call + 100);
    assert!(blocked <= first.last_call + 160);
    assert_eq!(Work::GetLimit { feature: 3 }.run(&mut blocks), Some(blocked));
    assert_eq!(Work::SetLimit { feature: 5, seconds: 7 }.run(&mut blocks), None);
    let set = blocks.usage(5).unwrap();
    assert_eq!(set.expiration, set.last_call + 7);
}

#[test]
fn handling_then_working_gives_the_replies_of_applying() {
    let mut shared: IndexMap<Shared> = IndexMap::new();
    let mut owned: IndexMap<Blocks> = IndexMap::new();
    let script: [(u8, &str, u64); 12] = [
        (2, "u", 700),
        (1, "u", 700),
        (1, "u", 701),
        (2, "u", 702),
        (1, "v", 702),
        (1, "u", 703),
        (2, "u", 704),
        (0, "v", 705),
        (2, "v", 706),
        (3, "", 707),
        (2, "u", 708),
        (1, "u", 720),
    ];
    for (kind, id, now) in script {
        let make = || match kind {
            0 => Directive::set_limit(id.to_string(), 9u8, 30),
            1 => Directive::update_limit(id.to_string(), 9u8, 10, 2),
            2 => Directive::get_limit(id.to_string(), 9u8),
            _ => Directive::Clear,
        };
        assert_eq!(send(&mut shared, make(), now), make().apply_at(&mut owned, now));
        assert_eq!(shared.slots(), owned.slots());
        for name in ["u", "v"] {
            let left = shared.get(name).map(|blocks| blocks.borrow().usage(9));
            let right = owned.get(name).map(|blocks| blocks.usage(9));
            assert_eq!(left, right);
        }
    }
}

#[test]
fn get_or_create_enters_a_default_handle_once() {
    let mut index: IndexMap<Rc<u32>> = IndexMap::new();
    let first = get_or_create_blocks(&mut index, "u".to_string());
    assert_eq!(*first, 0);
    assert_eq!(index.slots(), 1);
    let again = get_or_create_blocks(&mut index, "u".to_string());
    assert!(Rc::ptr_eq(&first, &again));
    assert!(Rc::ptr_eq(&first, index.get("u").unwrap()));
    assert_eq!(index.slots(), 1);
    let other = get_or_create_blocks(&mut index, "v".to_string());
    assert!(!Rc::ptr_eq(&first, &other));
    assert_eq!(index.slots(), 2);
}

#[test]
fn get_or_create_returns_a_clone_of_a_stored_value() {
    let mut index: IndexMap<String> = IndexMap::new();
    index.insert("u".to_string(), "known".to_string());
    assert_eq!(get_or_create_blocks(&mut index, "u".to_string()), "known");
    assert_eq!(get_or_create_blocks(&mut index, "v".to_string()), "");
    assert_eq!(index.get("v"), Some(&String::new()));
}
