use dodge_the_creeps::animations::{check_animations, names_missing_from};
use dodge_the_creeps::mob::{mob_animations, Mob, MobAnimation};
use dodge_the_creeps::player::{Player, PlayerAction, PlayerAnimation, Sign, SpriteUpdate};

fn strings(v: &[&str]) -> Vec<String> {
    v.iter().map(|s| s.to_string()).collect()
}

#[test]
fn missing_names_are_listed_once_in_order() {
    let from = strings(&["a", "b", "a", "c", "d"]);
    let other = strings(&["c", "x"]);
    assert_eq!(names_missing_from(&from, &other), strings(&["a", "b", "d"]));
    assert_eq!(names_missing_from(&other, &from), strings(&["x"]));
    assert_eq!(names_missing_from(&vec![], &other), Vec::<String>::new());
    assert_eq!(names_missing_from(&from, &from), Vec::<String>::new());
}

#[test]
fn check_animations_reports_both_sides() {
    let known = strings(&["walk", "swim", "fly"]);
    let found = strings(&["walk", "run", "fly", "run"]);
    let check = check_animations(&known, &found);
    assert_eq!(check.missing, strings(&["swim"]));
    assert_eq!(check.unknown, strings(&["run"]));
}

#[test]
fn mob_animation_names() {
    assert_eq!(MobAnimation::Walk.name(), "walk");
    assert_eq!(MobAnimation::Swim.name(), "swim");
    assert_eq!(MobAnimation::Fly.name(), "fly");
    assert_eq!(
        mob_animations(),
        vec![MobAnimation::Walk, MobAnimation::Swim, MobAnimation::Fly]
    );
    let mob = Mob::new();
    assert_eq!(mob.animation_names(), strings(&["walk", "swim", "fly"]));
}

#[test]
fn mob_random_animation_is_known() {
    let mob = Mob::new();
    for _ in 0..100 {
        let a = mob.random_animation();
        assert!(mob_animations().contains(&a));
    }
}

#[test]
fn mob_check_against_sprite() {
    let mob = Mob::new();
    let check = mob.check_animations(&strings(&["walk", "swim", "fly"]));
    assert!(check.missing.is_empty());
    assert!(check.unknown.is_empty());
    let check = mob.check_animations(&strings(&["walk", "jump"]));
    assert_eq!(check.missing, strings(&["swim", "fly"]));
    assert_eq!(check.unknown, strings(&["jump"]));
}

#[test]
fn player_start_and_hit() {
    let player = Player::new();
    assert_eq!(
        player.start(),
        vec![PlayerAction::MoveToStart, PlayerAction::Show, PlayerAction::EnableCollision]
    );
    assert_eq!(
        player.on_player_body_entered(),
        vec![PlayerAction::Hide, PlayerAction::EmitHit, PlayerAction::DisableCollisionDeferred]
    );
}

#[test]
fn player_sprite_follows_velocity() {
    assert_eq!(
        Player::sprite_update(true, Sign::Negative, Sign::Positive),
        SpriteUpdate {
            playing: true,
            animation: Some(PlayerAnimation::Walk),
            flip_h: Some(true),
            flip_v: Some(false),
        }
    );
    assert_eq!(
        Player::sprite_update(true, Sign::Positive, Sign::Zero),
        SpriteUpdate {
            playing: true,
            animation: Some(PlayerAnimation::Walk),
            flip_h: Some(false),
            flip_v: Some(false),
        }
    );
    assert_eq!(
        Player::sprite_update(true, Sign::Zero, Sign::Positive),
        SpriteUpdate {
            playing: true,
            animation: Some(PlayerAnimation::Up),
            flip_h: None,
            flip_v: Some(true),
        }
    );
    assert_eq!(
        Player::sprite_update(true, Sign::Zero, Sign::Negative),
        SpriteUpdate {
            playing: true,
            animation: Some(PlayerAnimation::Up),
            flip_h: None,
            flip_v: Some(false),
        }
    );
    assert_eq!(
        Player::sprite_update(false, Sign::Zero, Sign::Zero),
        SpriteUpdate { playing: false, animation: None, flip_h: None, flip_v: None }
    );
}

#[test]
fn player_animation_names() {
    let player = Player::new();
    assert_eq!(PlayerAnimation::Walk.name(), "walk");
    assert_eq!(PlayerAnimation::Up.name(), "up");
    assert_eq!(player.animation_names(), strings(&["walk", "up"]));
    let check = player.check_animations(&strings(&["up"]));
    assert_eq!(check.missing, strings(&["walk"]));
    assert!(check.unknown.is_empty());
}
