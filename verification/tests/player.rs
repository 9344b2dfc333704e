use starter_kit_fps::player::ControlActions;
use starter_kit_fps::player::Controls;
use starter_kit_fps::player::DamageReport;
use starter_kit_fps::player::Player;
use starter_kit_fps::player::FULL_HEALTH;

fn idle(weapon_count: usize) -> Controls {
    Controls {
        mouse_capture: false,
        mouse_capture_exit: false,
        shoot: false,
        cooldown_stopped: true,
        jump: false,
        weapon_toggle: false,
        weapon_count,
    }
}

fn nothing() -> ControlActions {
    ControlActions {
        capture_mouse: false,
        release_mouse: false,
        fire: None,
        jump: false,
        switch_weapon: None,
    }
}

fn armed(weapon_count: usize) -> Player {
    let mut player = Player::new();
    player.ready(weapon_count);
    player
}

#[test]
fn new_player_stands_by() {
    let player = Player::new();
    assert_eq!(FULL_HEALTH, 100);
    assert_eq!(
        player,
        Player {
            weapon: None,
            weapon_index: 0,
            mouse_captured: true,
            health: 100,
            previously_floored: false,
            jump_single: true,
            jump_double: true,
        }
    );
}

#[test]
fn ready_draws_the_chosen_weapon() {
    let mut player = Player::new();
    assert_eq!(player.ready(2), 0);
    assert_eq!(player.weapon, Some(0));
    assert_eq!(player.weapon_index, 0);
    let mut second = Player::new();
    second.weapon_index = 1;
    assert_eq!(second.ready(2), 1);
    assert_eq!(second.weapon, Some(1));
}

#[test]
fn idle_controls_change_nothing() {
    let mut player = armed(2);
    let before = player;
    assert_eq!(player.handle_controls(&idle(2)), nothing());
    assert_eq!(player, before);
}

#[test]
fn two_jumps_and_no_third() {
    let mut player = armed(1);
    let press = Controls { jump: true, ..idle(1) };
    assert!(player.handle_controls(&press).jump);
    assert_eq!((player.jump_single, player.jump_double), (false, true));
    assert!(player.handle_controls(&press).jump);
    assert_eq!((player.jump_single, player.jump_double), (false, false));
    assert!(!player.handle_controls(&press).jump);
    assert_eq!((player.jump_single, player.jump_double), (false, false));
}

#[test]
fn a_jump_from_the_floor_renews_the_jump_in_the_air() {
    let mut player = armed(1);
    player.jump_single = true;
    player.jump_double = false;
    let press = Controls { jump: true, ..idle(1) };
    assert!(player.handle_controls(&press).jump);
    assert_eq!((player.jump_single, player.jump_double), (false, true));
}

#[test]
fn landing_renews_the_jumps() {
    let mut player = armed(1);
    let press = Controls { jump: true, ..idle(1) };
    player.handle_controls(&press);
    player.handle_controls(&press);
    assert!(!player.handle_controls(&press).jump);
    assert!(player.handle_gravity(true, true));
    assert!(player.jump_single);
    assert!(player.handle_controls(&press).jump);
    assert!(player.handle_controls(&press).jump);
    assert!(!player.handle_controls(&press).jump);
}

#[test]
fn gravity_grounds_only_a_falling_player_on_the_floor() {
    for (falling, on_floor) in [(false, false), (false, true), (true, false)] {
        let mut player = Player::new();
        player.jump_single = false;
        assert!(!player.handle_gravity(falling, on_floor));
        assert!(!player.jump_single);
    }
    let mut player = Player::new();
    player.jump_single = false;
    player.jump_double = false;
    assert!(player.handle_gravity(true, true));
    assert!(player.jump_single);
    assert!(!player.jump_double);
}

#[test]
fn action_jump_uses_the_jump_from_the_floor() {
    let mut player = Player::new();
    player.jump_double = false;
    player.action_jump();
    assert_eq!((player.jump_single, player.jump_double), (false, true));
}

#[test]
fn mouse_capture_and_release() {
    let mut player = armed(1);
    let release = Controls { mouse_capture_exit: true, ..idle(1) };
    let actions = player.handle_controls(&release);
    assert_eq!(actions, ControlActions { release_mouse: true, ..nothing() });
    assert!(!player.mouse_captured);
    let capture = Controls { mouse_capture: true, ..idle(1) };
    let actions = player.handle_controls(&capture);
    assert_eq!(actions, ControlActions { capture_mouse: true, ..nothing() });
    assert!(player.mouse_captured);
}

#[test]
fn release_wins_over_capture_in_one_frame() {
    let mut player = armed(1);
    let both = Controls { mouse_capture: true, mouse_capture_exit: true, ..idle(1) };
    let actions = player.handle_controls(&both);
    assert!(actions.capture_mouse);
    assert!(actions.release_mouse);
    assert!(!player.mouse_captured);
}

#[test]
fn the_weapon_fires_while_the_trigger_is_held_and_the_cooldown_is_over() {
    let mut player = armed(2);
    let held = Controls { shoot: true, cooldown_stopped: true, ..idle(2) };
    assert_eq!(player.handle_controls(&held).fire, Some(0));
    let cooling = Controls { shoot: true, cooldown_stopped: false, ..idle(2) };
    assert_eq!(player.handle_controls(&cooling).fire, None);
    let released = Controls { shoot: false, cooldown_stopped: true, ..idle(2) };
    assert_eq!(player.handle_controls(&released).fire, None);
}

#[test]
fn action_shoot_names_the_weapon_in_hand() {
    let mut player = armed(3);
    assert_eq!(player.action_shoot(true, true), Some(0));
    assert_eq!(player.action_shoot(true, false), None);
    assert_eq!(player.action_shoot(false, true), None);
    assert_eq!(player.action_shoot(false, false), None);
    player.initiate_change_weapon(2);
    assert_eq!(player.action_shoot(true, true), Some(0));
    player.change_weapon(3);
    assert_eq!(player.action_shoot(true, true), Some(2));
    let unarmed = Player::new();
    assert_eq!(unarmed.action_shoot(false, true), None);
}

#[test]
fn weapon_switch_goes_round_the_belt() {
    let mut player = armed(3);
    let toggle = Controls { weapon_toggle: true, ..idle(3) };
    assert_eq!(player.handle_controls(&toggle).switch_weapon, Some(1));
    assert_eq!(player.weapon_index, 1);
    assert_eq!(player.handle_controls(&toggle).switch_weapon, Some(2));
    assert_eq!(player.handle_controls(&toggle).switch_weapon, Some(0));
    assert_eq!(player.weapon_index, 0);
}

#[test]
fn weapon_switch_with_one_weapon_stays() {
    let mut player = armed(1);
    assert_eq!(player.action_weapon_toggle(true, 1), Some(0));
    assert_eq!(player.weapon_index, 0);
}

#[test]
fn weapon_switch_without_a_press_does_nothing() {
    let mut player = armed(2);
    assert_eq!(player.action_weapon_toggle(false, 2), None);
    assert_eq!(player.action_weapon_toggle(false, 0), None);
    assert_eq!(player.weapon_index, 0);
}

#[test]
fn weapon_switch_from_a_slot_off_the_belt() {
    let mut player = Player::new();
    player.weapon_index = 7;
    assert_eq!(player.action_weapon_toggle(true, 3), Some(2));
    player.weapon_index = 5;
    assert_eq!(player.action_weapon_toggle(true, 3), Some(0));
    player.weapon_index = usize::MAX - 1;
    assert_eq!(player.action_weapon_toggle(true, usize::MAX), Some(0));
}

#[test]
fn the_weapon_in_hand_follows_when_the_swap_completes() {
    let mut player = armed(2);
    let toggle = Controls { weapon_toggle: true, shoot: true, ..idle(2) };
    let actions = player.handle_controls(&toggle);
    assert_eq!(actions.fire, Some(0));
    assert_eq!(actions.switch_weapon, Some(1));
    assert_eq!(player.weapon, Some(0));
    player.change_weapon(2);
    assert_eq!(player.weapon, Some(1));
    assert_eq!(player.weapon_index, 1);
}

#[test]
fn all_controls_in_one_frame() {
    let mut player = armed(2);
    let all = Controls {
        mouse_capture: true,
        mouse_capture_exit: false,
        shoot: true,
        cooldown_stopped: true,
        jump: true,
        weapon_toggle: true,
        weapon_count: 2,
    };
    let actions = player.handle_controls(&all);
    assert_eq!(
        actions,
        ControlActions {
            capture_mouse: true,
            release_mouse: false,
            fire: Some(0),
            jump: true,
            switch_weapon: Some(1),
        }
    );
    assert_eq!(
        player,
        Player {
            weapon: Some(0),
            weapon_index: 1,
            mouse_captured: true,
            health: 100,
            previously_floored: false,
            jump_single: false,
            jump_double: true,
        }
    );
}

#[test]
fn a_hard_landing_is_told_once() {
    let mut player = Player::new();
    assert!(player.track_floor(true, true));
    assert!(player.previously_floored);
    assert!(!player.track_floor(true, true));
    assert!(!player.track_floor(false, true));
    assert!(!player.previously_floored);
    assert!(!player.track_floor(true, false));
    assert!(player.previously_floored);
}

#[test]
fn damage_lowers_health() {
    let mut player = Player::new();
    assert_eq!(player.damage(5), DamageReport { health: 95, reload_scene: false });
    assert_eq!(player.health, 95);
    assert_eq!(player.damage(25), DamageReport { health: 70, reload_scene: false });
}

#[test]
fn the_player_lives_at_zero_and_dies_below() {
    let mut player = Player::new();
    assert_eq!(player.damage(100), DamageReport { health: 0, reload_scene: false });
    assert_eq!(player.damage(0), DamageReport { health: 0, reload_scene: false });
    assert_eq!(player.damage(1), DamageReport { health: -1, reload_scene: true });
    assert_eq!(player.damage(4), DamageReport { health: -5, reload_scene: true });
}

#[test]
fn negative_damage_heals() {
    let mut player = Player::new();
    player.health = -3;
    assert_eq!(player.damage(-10), DamageReport { health: 7, reload_scene: false });
}

#[test]
fn damage_changes_health_only() {
    let mut player = armed(2);
    let before = player;
    player.damage(30);
    assert_eq!(player, Player { health: 70, ..before });
}
