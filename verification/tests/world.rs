use platformer_core::spawner::SpawnTimer;
use platformer_core::spawner::Spawner;
use platformer_core::world::CollisionEvent;
use platformer_core::world::GameWorld;

fn world_with_spawner_at(x: i64, y: i64) -> GameWorld {
    GameWorld::new(1, Spawner::new(x, y))
}

#[test]
fn scenario_one_firing_leaves_one_pickup_at_the_spawner() {
    let mut w = world_with_spawner_at(0, 300);
    let mut st = SpawnTimer::new();

    let spawned = w.tick_spawner(&mut st, 2500);
    let id = spawned.expect("the initial delay elapsed, so a pickup must spawn");

    // Exactly one pickup exists, at the spawner's position.
    assert_eq!(w.pickups.len(), 1);
    assert_eq!(w.count_pickups_at(0, 300), 1);
    assert!(w.has_pickup(id));
    assert_eq!(w.pickups[0].x, 0);
    assert_eq!(w.pickups[0].y, 300);

    // The next re-arm delay is within [1, 5) seconds.
    assert!(st.timer.duration_ms >= 1000);
    assert!(st.timer.duration_ms < 5000);
}

#[test]
fn tick_spawner_before_the_delay_spawns_nothing() {
    let mut w = world_with_spawner_at(0, 300);
    let mut st = SpawnTimer::new();
    let spawned = w.tick_spawner(&mut st, 2499);
    assert!(spawned.is_none());
    assert_eq!(w.pickups.len(), 0);
    assert_eq!(st.timer.elapsed_ms, 2499);
}

#[test]
fn every_firing_creates_exactly_one_pickup() {
    let mut w = world_with_spawner_at(10, -20);
    let mut st = SpawnTimer::new();
    for expected in 1..=50usize {
        let delta = st.timer.duration_ms;
        let spawned = w.tick_spawner(&mut st, delta);
        assert!(spawned.is_some());
        assert_eq!(w.pickups.len(), expected);
    }
    assert_eq!(w.count_pickups_at(10, -20), 50);
}

#[test]
fn player_contact_removes_the_pickup_and_not_the_player() {
    let mut w = world_with_spawner_at(0, 300);
    let mut st = SpawnTimer::new();
    let id = w.tick_spawner(&mut st, 2500).unwrap();
    assert!(w.has_pickup(id));

    let events = vec![CollisionEvent::Started { first: id, second: w.player_id, sensor: true }];
    w.process_collision_events(&events);

    assert!(!w.has_pickup(id));
    assert_eq!(w.pickups.len(), 0);
    // The player is still there.
    assert_eq!(w.player_id, 1);
}

#[test]
fn player_contact_removes_the_pickup_either_way_round() {
    let mut w = world_with_spawner_at(0, 300);
    let mut st = SpawnTimer::new();
    let id = w.tick_spawner(&mut st, 2500).unwrap();

    let events = vec![CollisionEvent::Started { first: w.player_id, second: id, sensor: true }];
    w.process_collision_events(&events);
    assert!(!w.has_pickup(id));
}

#[test]
fn reprocessing_the_same_event_is_a_no_op() {
    let mut w = world_with_spawner_at(0, 300);
    let mut st = SpawnTimer::new();
    let id = w.tick_spawner(&mut st, 2500).unwrap();

    let ev = CollisionEvent::Started { first: id, second: w.player_id, sensor: true };
    w.handle_collision_event(&ev);
    assert!(!w.has_pickup(id));
    let next_id_after_first = w.next_id;

    // Delivering the identical event again must not error and must
    // leave the world exactly as it was.
    w.handle_collision_event(&ev);
    assert!(!w.has_pickup(id));
    assert_eq!(w.pickups.len(), 0);
    assert_eq!(w.next_id, next_id_after_first);

    // The same holds for a whole stream repeating the event.
    w.process_collision_events(&vec![ev, ev, ev]);
    assert_eq!(w.pickups.len(), 0);
}

#[test]
fn non_sensor_and_stopped_events_are_ignored() {
    let mut w = world_with_spawner_at(0, 300);
    let mut st = SpawnTimer::new();
    let id = w.tick_spawner(&mut st, 2500).unwrap();

    w.handle_collision_event(&CollisionEvent::Started {
        first: id,
        second: w.player_id,
        sensor: false,
    });
    assert!(w.has_pickup(id));

    w.handle_collision_event(&CollisionEvent::Stopped {
        first: id,
        second: w.player_id,
        sensor: true,
    });
    assert!(w.has_pickup(id));
}

#[test]
fn contacts_not_involving_the_player_are_ignored() {
    let mut w = world_with_spawner_at(0, 300);
    let mut st = SpawnTimer::new();
    let a = w.tick_spawner(&mut st, 2500).unwrap();
    let delta = st.timer.duration_ms;
    let b = w.tick_spawner(&mut st, delta).unwrap();

    w.handle_collision_event(&CollisionEvent::Started { first: a, second: b, sensor: true });
    assert!(w.has_pickup(a));
    assert!(w.has_pickup(b));
}

#[test]
fn only_the_touched_pickup_is_removed() {
    let mut w = world_with_spawner_at(5, 5);
    let mut st = SpawnTimer::new();
    let a = w.tick_spawner(&mut st, 2500).unwrap();
    let delta = st.timer.duration_ms;
    let b = w.tick_spawner(&mut st, delta).unwrap();

    w.handle_collision_event(&CollisionEvent::Started { first: b, second: w.player_id, sensor: true });
    assert!(w.has_pickup(a));
    assert!(!w.has_pickup(b));
    assert_eq!(w.pickups.len(), 1);
}

#[test]
fn despawning_an_unknown_identity_is_a_no_op() {
    let mut w = world_with_spawner_at(0, 300);
    w.despawn(999);
    assert_eq!(w.pickups.len(), 0);

    let mut st = SpawnTimer::new();
    let id = w.tick_spawner(&mut st, 2500).unwrap();
    w.despawn(id + 1000);
    assert!(w.has_pickup(id));
    assert_eq!(w.pickups.len(), 1);
}

#[test]
fn fresh_world_has_no_pickups() {
    let w = GameWorld::new(7, Spawner::new(1, 2));
    assert_eq!(w.pickups.len(), 0);
    assert_eq!(w.player_id, 7);
    assert_eq!(w.next_id, 8);
    assert_eq!(w.count_pickups_at(1, 2), 0);
}
