use platformer_core::player::facing_flip;
use platformer_core::player::Player;

#[test]
fn player_attributes() {
    let p = Player::new();
    assert_eq!(p.health, 5);
    assert_eq!(p.speed, 1000);
}

#[test]
fn facing_follows_the_held_key() {
    // Right key: face right (no mirroring).
    assert!(!facing_flip(true, true, false));
    // Left key: face left (mirrored).
    assert!(facing_flip(false, false, true));
    // Both held: the left key wins.
    assert!(facing_flip(false, true, true));
    // Neither held: keep the current facing.
    assert!(facing_flip(true, false, false));
    assert!(!facing_flip(false, false, false));
}
