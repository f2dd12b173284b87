use side_effect_core::fixed::Vec2Fix;
use side_effect_core::player::Player;
use side_effect_core::side_effect::SideEffect;
use side_effect_core::sync::update_materials;

#[test]
fn a_new_player_is_idle_and_effect_free() {
    let p = Player::new(7);
    assert_eq!(p.id, 7);
    assert!(!p.moving_state.is_active);
    assert!(!p.landed_state.is_active);
    assert!(!p.in_air_state.is_active);
    assert_eq!(p.time_since_last_spin, 0);
    assert_eq!(p.time_since_last_jump, 0);
    assert_eq!(p.delayed_spin_torque, None);
    assert_eq!(p.effects, [SideEffect::NoEffect; 4]);
    assert_eq!(p.side_entities, [None; 4]);
}

#[test]
fn tuning_constants_match_the_design() {
    let mut p = Player::new(0);
    assert_eq!(p.get_max_speed(), 2500);
    p.slippery_below_state.is_active = true;
    assert_eq!(p.get_max_speed(), 4000);
    assert_eq!(p.get_max_angular_speed(), 3000);
    assert_eq!(p.get_max_acceleration(), 14000);
    assert_eq!(p.get_max_angular_acceleration(), 35000);
    assert_eq!(p.get_jump_impulse(), 4000);
    assert_eq!(p.get_friction(), 200);
    assert_eq!(p.get_center_offset(), Vec2Fix { x: 0, y: 0 });
}

#[test]
fn edges_are_ordered_bottom_right_top_left() {
    let p = Player::new(0);
    assert_eq!(
        p.get_side_centers(),
        vec![
            Vec2Fix { x: 0, y: -500 },
            Vec2Fix { x: 500, y: 0 },
            Vec2Fix { x: 0, y: 500 },
            Vec2Fix { x: -500, y: 0 },
        ]
    );
    assert_eq!(
        p.get_side_directions(),
        vec![
            Vec2Fix { x: 0, y: -1000 },
            Vec2Fix { x: 1000, y: 0 },
            Vec2Fix { x: 0, y: 1000 },
            Vec2Fix { x: -1000, y: 0 },
        ]
    );
}

#[test]
fn animation_clock_wraps() {
    assert_eq!(update_materials(5), 6);
    assert_eq!(update_materials(u32::MAX), 0);
}
