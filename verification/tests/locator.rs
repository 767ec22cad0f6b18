use ucar_core::locator::{
    has_role, locate_in_snapshot, ActorHandle, ActorSnapshot, Attribute, Locator, LocatorAction,
    LocatorEvent, LocatorPhase, NotFound, DEFAULT_POLL_INTERVAL_MS, DEFAULT_ROLE_MARKER,
    ROLE_ATTRIBUTE,
};

fn attribute(name: &str, value: &str) -> Attribute {
    Attribute { name: name.to_string(), value: value.to_string() }
}

fn actor(id: u32, role: &str) -> ActorSnapshot {
    ActorSnapshot { id, attributes: Some(vec![attribute("role_name", role)]) }
}

fn unreadable(id: u32) -> ActorSnapshot {
    ActorSnapshot { id, attributes: None }
}

#[test]
fn marker_on_second_actor_gives_its_handle() {
    let actors = vec![actor(1, "other"), actor(2, "target")];
    assert_eq!(locate_in_snapshot(&actors, "target"), Some(ActorHandle { id: 2 }));

    let mut locator = Locator::new("target", 1_000);
    assert_eq!(locator.step(false, LocatorEvent::Resume), LocatorAction::Scan);
    assert_eq!(
        locator.step(false, LocatorEvent::Snapshot(actors)),
        LocatorAction::Finish(Ok(ActorHandle { id: 2 }))
    );
    assert_eq!(locator.phase(), LocatorPhase::Located(ActorHandle { id: 2 }));
    assert_eq!(locator.outcome(), Some(Ok(ActorHandle { id: 2 })));
}

#[test]
fn cancelled_after_three_intervals_gives_not_found() {
    let mut locator = Locator::new("target", 250);
    let mut slept_ms: u64 = 0;
    let mut scans = 0;
    for _ in 0..3 {
        assert_eq!(locator.step(false, LocatorEvent::Resume), LocatorAction::Scan);
        scans += 1;
        let seen = vec![actor(1, "other"), unreadable(2)];
        match locator.step(false, LocatorEvent::Snapshot(seen)) {
            LocatorAction::Sleep(ms) => slept_ms += ms,
            other => panic!("expected a sleep, got {:?}", other),
        }
        assert_eq!(locator.outcome(), None);
    }
    assert_eq!(scans, 3);
    assert_eq!(slept_ms, 750);
    // The flag was set during the third sleep: the next step ends the search.
    assert_eq!(
        locator.step(true, LocatorEvent::Resume),
        LocatorAction::Finish(Err(NotFound {}))
    );
    assert_eq!(locator.phase(), LocatorPhase::Cancelled);
    assert_eq!(locator.outcome(), Some(Err(NotFound {})));
}

#[test]
fn first_match_wins_in_enumeration_order() {
    let actors = vec![actor(9, "other"), actor(5, "target"), actor(3, "target")];
    assert_eq!(locate_in_snapshot(&actors, "target"), Some(ActorHandle { id: 5 }));
    let reversed = vec![actor(3, "target"), actor(5, "target"), actor(9, "other")];
    assert_eq!(locate_in_snapshot(&reversed, "target"), Some(ActorHandle { id: 3 }));
}

#[test]
fn unreadable_actor_is_skipped() {
    let actors = vec![unreadable(1), actor(2, "target")];
    assert_eq!(locate_in_snapshot(&actors, "target"), Some(ActorHandle { id: 2 }));
    let only_unreadable = vec![unreadable(1), unreadable(2)];
    assert_eq!(locate_in_snapshot(&only_unreadable, "target"), None);
}

#[test]
fn snapshot_without_actors_has_no_target() {
    assert_eq!(locate_in_snapshot(&Vec::new(), "target"), None);
}

#[test]
fn role_must_match_name_and_value_exactly() {
    let wrong_name = ActorSnapshot { id: 1, attributes: Some(vec![attribute("role", "target")]) };
    let longer_value = actor(2, "target2");
    let other_case = actor(3, "Target");
    let no_attributes = ActorSnapshot { id: 4, attributes: Some(Vec::new()) };
    let swapped = ActorSnapshot { id: 5, attributes: Some(vec![attribute("target", "role_name")]) };
    let actors = vec![wrong_name, longer_value, other_case, no_attributes, swapped];
    assert_eq!(locate_in_snapshot(&actors, "target"), None);
}

#[test]
fn role_is_found_among_other_attributes() {
    let attributes = vec![
        attribute("color", "255,0,0"),
        attribute("number_of_wheels", "4"),
        attribute("role_name", "ego_vehicle_role"),
        attribute("sticky_control", "true"),
    ];
    assert!(has_role(&attributes, &"ego_vehicle_role".to_string()));
    assert!(!has_role(&attributes, &"hero".to_string()));
    assert!(!has_role(&attributes, &"4".to_string()));
    assert!(!has_role(&Vec::new(), &"ego_vehicle_role".to_string()));
    let actors = vec![ActorSnapshot { id: 77, attributes: Some(attributes) }];
    assert_eq!(locate_in_snapshot(&actors, DEFAULT_ROLE_MARKER), Some(ActorHandle { id: 77 }));
}

#[test]
fn later_role_attribute_counts_too() {
    let attributes = vec![attribute("role_name", "other"), attribute("role_name", "target")];
    assert!(has_role(&attributes, &"target".to_string()));
    assert!(has_role(&attributes, &"other".to_string()));
}

#[test]
fn match_ends_search_even_when_flag_is_set() {
    let mut locator = Locator::new("target", 1_000);
    assert_eq!(locator.step(false, LocatorEvent::Resume), LocatorAction::Scan);
    assert_eq!(
        locator.step(true, LocatorEvent::Snapshot(vec![actor(4, "target")])),
        LocatorAction::Finish(Ok(ActorHandle { id: 4 }))
    );
}

#[test]
fn flag_set_during_scan_skips_the_sleep() {
    let mut locator = Locator::new("target", 1_000);
    assert_eq!(locator.step(false, LocatorEvent::Resume), LocatorAction::Scan);
    assert_eq!(
        locator.step(true, LocatorEvent::Snapshot(vec![actor(4, "other")])),
        LocatorAction::Finish(Err(NotFound {}))
    );
    assert_eq!(locator.phase(), LocatorPhase::Cancelled);
}

#[test]
fn flag_set_before_start_ends_search_without_a_scan() {
    let mut locator = Locator::with_defaults();
    assert_eq!(
        locator.step(true, LocatorEvent::Resume),
        LocatorAction::Finish(Err(NotFound {}))
    );
}

#[test]
fn snapshot_nobody_asked_for_is_not_scanned() {
    let mut locator = Locator::new("target", 1_000);
    assert_eq!(locator.phase(), LocatorPhase::Idle);
    assert_eq!(
        locator.step(false, LocatorEvent::Snapshot(vec![actor(4, "target")])),
        LocatorAction::Scan
    );
    assert_eq!(locator.phase(), LocatorPhase::Scanning);
    assert_eq!(locator.outcome(), None);
}

#[test]
fn resume_while_scanning_asks_for_the_scan_again() {
    let mut locator = Locator::new("target", 1_000);
    assert_eq!(locator.step(false, LocatorEvent::Resume), LocatorAction::Scan);
    assert_eq!(locator.step(false, LocatorEvent::Resume), LocatorAction::Scan);
    assert_eq!(locator.phase(), LocatorPhase::Scanning);
    assert_eq!(
        locator.step(true, LocatorEvent::Resume),
        LocatorAction::Finish(Err(NotFound {}))
    );
}

#[test]
fn outcome_is_kept_whatever_follows() {
    let mut found = Locator::new("target", 1_000);
    found.step(false, LocatorEvent::Resume);
    found.step(false, LocatorEvent::Snapshot(vec![actor(8, "target")]));
    for cancelled in [false, true] {
        assert_eq!(
            found.step(cancelled, LocatorEvent::Resume),
            LocatorAction::Finish(Ok(ActorHandle { id: 8 }))
        );
        assert_eq!(
            found.step(cancelled, LocatorEvent::Snapshot(vec![actor(9, "target")])),
            LocatorAction::Finish(Ok(ActorHandle { id: 8 }))
        );
    }
    let mut cancelled = Locator::new("target", 1_000);
    cancelled.step(true, LocatorEvent::Resume);
    assert_eq!(
        cancelled.step(false, LocatorEvent::Snapshot(vec![actor(9, "target")])),
        LocatorAction::Finish(Err(NotFound {}))
    );
    assert_eq!(cancelled.phase(), LocatorPhase::Cancelled);
}

#[test]
fn search_goes_on_while_nothing_matches() {
    let mut locator = Locator::new("target", 10);
    for pass in 0..50u32 {
        assert_eq!(locator.step(false, LocatorEvent::Resume), LocatorAction::Scan);
        let seen = vec![actor(pass, "other"), unreadable(pass + 1)];
        assert_eq!(locator.step(false, LocatorEvent::Snapshot(seen)), LocatorAction::Sleep(10));
        assert_eq!(locator.phase(), LocatorPhase::Idle);
        assert_eq!(locator.outcome(), None);
    }
}

#[test]
fn vehicle_that_spawns_later_is_found() {
    let mut locator = Locator::with_defaults();
    assert_eq!(locator.step(false, LocatorEvent::Resume), LocatorAction::Scan);
    assert_eq!(
        locator.step(false, LocatorEvent::Snapshot(vec![actor(1, "spectator")])),
        LocatorAction::Sleep(1_000)
    );
    assert_eq!(locator.step(false, LocatorEvent::Resume), LocatorAction::Scan);
    let seen = vec![actor(1, "spectator"), actor(42, "ego_vehicle_role")];
    assert_eq!(
        locator.step(false, LocatorEvent::Snapshot(seen)),
        LocatorAction::Finish(Ok(ActorHandle { id: 42 }))
    );
}

#[test]
fn locator_defaults() {
    assert_eq!(ROLE_ATTRIBUTE, "role_name");
    assert_eq!(DEFAULT_ROLE_MARKER, "ego_vehicle_role");
    assert_eq!(DEFAULT_POLL_INTERVAL_MS, 1_000);
    let locator = Locator::with_defaults();
    assert_eq!(locator.poll_interval_ms(), 1_000);
    assert_eq!(locator.phase(), LocatorPhase::Idle);
    assert_eq!(locator.outcome(), None);
    assert_eq!(Locator::new("x", 5).poll_interval_ms(), 5);
}

#[test]
fn not_found_is_reported_in_words() {
    assert_eq!(NotFound {}.message(), "Ego vehicle not found");
}
