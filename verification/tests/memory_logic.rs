use glider_rust::memory::faction::{faction_chain_ready, faction_row_slot, Hostility};
use glider_rust::memory::walk::{NameWalk, ObjectWalk, WalkStep, MAX_OBJECT_STEPS};

#[test]
fn standing_labels() {
    assert_eq!(Hostility::Hostile.label(), "Hostile");
    assert_eq!(Hostility::Friendly.label(), "Friendly");
    assert_eq!(Hostility::Neutral.label(), "Neutral");
}

#[test]
fn faction_row_addresses() {
    assert!(faction_chain_ready(1, 2));
    assert!(!faction_chain_ready(0, 2));
    assert_eq!(faction_row_slot(10, 15, 0x1000), Some(0x1000 + 20));
    assert_eq!(faction_row_slot(10, 10, 0x1000), Some(0x1000));
    assert_eq!(faction_row_slot(10, 9, 0x1000), None);
    assert_eq!(faction_row_slot(10, 0, 0x1000), None);
    assert_eq!(faction_row_slot(10, 15, 0), None);
    assert_eq!(faction_row_slot(0, 131_072, 0x1000), Some(0x1000 + 4 * 131_072));
    assert_eq!(faction_row_slot(0, 131_073, 0x1000), None);
}

#[test]
fn object_walk_follows_links() {
    assert!(ObjectWalk::start(7, None).is_none());
    assert!(ObjectWalk::start(7, Some(0)).is_none());
    let mut walk = ObjectWalk::start(7, Some(0x100)).unwrap();
    assert_eq!(walk.visit(Some(1), Some(0x200)), WalkStep::Continue);
    assert_eq!(walk.current(), 0x200);
    assert_eq!(walk.steps(), 1);
    assert_eq!(walk.visit(Some(7), None), WalkStep::Found(0x200));
    let mut looped = ObjectWalk::start(7, Some(0x100)).unwrap();
    assert_eq!(looped.visit(None, Some(0x100)), WalkStep::NotFound);
    let mut ended = ObjectWalk::start(7, Some(0x100)).unwrap();
    assert_eq!(ended.visit(Some(3), None), WalkStep::NotFound);
    // The walk gives up after the step limit.
    let mut long = ObjectWalk::start(7, Some(0x100)).unwrap();
    let mut result = WalkStep::Continue;
    let mut visits = 0;
    while result == WalkStep::Continue {
        let next = long.current() as u32 + 0x10;
        result = long.visit(Some(1), Some(next));
        visits += 1;
    }
    assert_eq!(result, WalkStep::NotFound);
    assert_eq!(visits, MAX_OBJECT_STEPS);
}

#[test]
fn name_walk_skips_odd_nodes_and_empty_names() {
    assert!(NameWalk::start(5, Some(0x101)).is_none());
    assert!(NameWalk::start(5, Some(28)).is_none());
    let mut walk = NameWalk::start(5, Some(0x100)).unwrap();
    assert!(walk.matches(Some(5)));
    assert!(!walk.matches(Some(6)));
    assert!(!walk.matches(None));
    assert_eq!(walk.visit(Some(5), Some(String::new()), Some(0x200)), WalkStep::Continue);
    assert_eq!(
        walk.visit(Some(5), Some("Jaina".to_string()), None),
        WalkStep::Found("Jaina".to_string())
    );
    let mut odd = NameWalk::start(5, Some(0x100)).unwrap();
    assert_eq!(odd.visit(Some(1), None, Some(0x201)), WalkStep::NotFound);
    // A guid that cannot be read ends the walk.
    let mut unreadable = NameWalk::start(5, Some(0x100)).unwrap();
    assert_eq!(unreadable.visit(None, None, Some(0x200)), WalkStep::NotFound);
}
