use fps_controller::fixed::{LIMIT, SCALE};
use fps_controller::input::{
    handle_input, movement_intent, KeyState, LookInput, MouseDelta, MovementInput, DIAG,
    PITCH_LIMIT,
};
use fps_controller::motion::{Translation, VerticalMotion};
use fps_controller::orientation::{player_look, Orientation};
use fps_controller::settings::FpsSettings;

fn no_keys() -> KeyState {
    KeyState { forward: false, back: false, left: false, right: false, sprint: false, jump: false }
}

fn len_sq(m: &MovementInput) -> i128 {
    (m.x as i128) * (m.x as i128) + (m.z as i128) * (m.z as i128)
}

#[test]
fn default_settings_values() {
    let s = FpsSettings::default();
    assert_eq!(s.mouse_sensitivity, 300_000);
    assert_eq!(s.grounded_tolerance, 500_000);
    assert_eq!(s.movement_speed, 8_000_000);
    assert_eq!(s.jump_speed, 8_000_000);
    assert_eq!(s.gravity, -9_810_000);
}

#[test]
fn settings_new_checks_ranges() {
    assert_eq!(FpsSettings::new(300_000, 500_000, 8_000_000, 8_000_000, -9_810_000), Some(FpsSettings::default()));
    assert_eq!(FpsSettings::new(300_000, -1, 8_000_000, 8_000_000, -9_810_000), None);
    assert_eq!(FpsSettings::new(300_000, 500_000, LIMIT + 1, 8_000_000, -9_810_000), None);
    assert_eq!(FpsSettings::new(300_000, 500_000, 8_000_000, 8_000_000, -LIMIT - 1), None);
    assert!(FpsSettings::new(-LIMIT, LIMIT, LIMIT, -LIMIT, LIMIT).is_some());
}

#[test]
fn forward_left_is_unit_diagonal() {
    let k = KeyState { forward: true, left: true, ..no_keys() };
    let m = movement_intent(&k);
    assert_eq!((m.x, m.z), (-DIAG, -DIAG));
    let l = len_sq(&m);
    let unit = (SCALE as i128) * (SCALE as i128);
    assert!(l <= unit);
    assert!(unit - l < 3 * SCALE as i128);
}

#[test]
fn every_key_combination_is_unit_or_zero() {
    for bits in 0u32..16 {
        let k = KeyState {
            forward: bits & 1 != 0,
            back: bits & 2 != 0,
            left: bits & 4 != 0,
            right: bits & 8 != 0,
            ..no_keys()
        };
        let m = movement_intent(&k);
        let l = len_sq(&m);
        let unit = (SCALE as i128) * (SCALE as i128);
        assert!(l == 0 || l == unit || l == 2 * (DIAG as i128) * (DIAG as i128));
        assert!(l <= unit);
    }
}

#[test]
fn opposing_keys_cancel() {
    let k = KeyState { forward: true, back: true, left: true, right: true, ..no_keys() };
    let m = movement_intent(&k);
    assert_eq!((m.x, m.z), (0, 0));
    let k = KeyState { back: true, ..no_keys() };
    assert_eq!(movement_intent(&k), MovementInput { x: 0, z: SCALE, jump: false });
    let k = KeyState { right: true, ..no_keys() };
    assert_eq!(movement_intent(&k), MovementInput { x: SCALE, z: 0, jump: false });
}

#[test]
fn sprint_doubles_intent() {
    let walk = movement_intent(&KeyState { forward: true, right: true, ..no_keys() });
    let run = movement_intent(&KeyState { forward: true, right: true, sprint: true, ..no_keys() });
    assert_eq!(run.x, 2 * walk.x);
    assert_eq!(run.z, 2 * walk.z);
    assert_eq!(len_sq(&run), 4 * len_sq(&walk));
    let run = movement_intent(&KeyState { forward: true, sprint: true, ..no_keys() });
    assert_eq!((run.x, run.z), (0, -2 * SCALE));
}

#[test]
fn jump_key_sets_flag() {
    let m = movement_intent(&KeyState { jump: true, ..no_keys() });
    assert_eq!(m, MovementInput { x: 0, z: 0, jump: true });
}

#[test]
fn mouse_samples_accumulate_look() {
    let s = FpsSettings::default();
    let mut movement = MovementInput::zero();
    let mut look = LookInput::zero();
    let samples = vec![MouseDelta { dx: 10 * SCALE, dy: 5 * SCALE }, MouseDelta { dx: -2 * SCALE, dy: 0 }];
    handle_input(&no_keys(), &mut movement, &mut look, &samples, &s);
    // 0.3 degrees per unit: yaw -3.0 + 0.6 = -2.4, pitch -1.5
    assert_eq!(look, LookInput { yaw: -2_400_000, pitch: -1_500_000 });
    handle_input(&no_keys(), &mut movement, &mut look, &vec![], &s);
    assert_eq!(look, LookInput { yaw: -2_400_000, pitch: -1_500_000 });
}

#[test]
fn pitch_clamps_at_floor() {
    let s = FpsSettings::default();
    let mut movement = MovementInput::zero();
    let mut look = LookInput::zero();
    // moving the mouse down (positive dy) lowers the pitch
    let down = vec![MouseDelta { dx: 0, dy: 200 * SCALE }];
    handle_input(&no_keys(), &mut movement, &mut look, &down, &s);
    assert_eq!(look.pitch, -60_000_000);
    handle_input(&no_keys(), &mut movement, &mut look, &down, &s);
    assert_eq!(look.pitch, -PITCH_LIMIT);
    for _ in 0..5 {
        handle_input(&no_keys(), &mut movement, &mut look, &down, &s);
        assert_eq!(look.pitch, -89_900_000);
    }
    let up = vec![MouseDelta { dx: 0, dy: -1_000_000 * SCALE }];
    handle_input(&no_keys(), &mut movement, &mut look, &up, &s);
    assert_eq!(look.pitch, PITCH_LIMIT);
}

#[test]
fn gravity_accumulates_linearly() {
    let s = FpsSettings::default();
    let mut v = VerticalMotion::new();
    let mut input = MovementInput::zero();
    v.player_movement(&mut input, 100_000, None, None, &s);
    assert_eq!(v.vertical_velocity, -981_000);
    v.player_movement(&mut input, 100_000, Some(false), None, &s);
    assert_eq!(v.vertical_velocity, -1_962_000);
}

#[test]
fn custom_mass_scales_gravity() {
    let s = FpsSettings::default();
    let mut v = VerticalMotion::new();
    let mut input = MovementInput::zero();
    v.player_movement(&mut input, 100_000, None, Some(2 * SCALE), &s);
    assert_eq!(v.vertical_velocity, -1_962_000);
}

#[test]
fn jump_needs_running_timer() {
    let s = FpsSettings::default();
    let mut v = VerticalMotion { vertical_velocity: -500_000, grounded_timer: 0 };
    let mut input = MovementInput { x: 0, z: 0, jump: true };
    let t = v.player_movement(&mut input, 100_000, Some(false), None, &s);
    assert_eq!(t.y, -50_000);
    assert_eq!(v.vertical_velocity, -500_000 - 981_000);

    let mut v = VerticalMotion { vertical_velocity: -500_000, grounded_timer: 1 };
    let mut input = MovementInput { x: 0, z: 0, jump: true };
    let t = v.player_movement(&mut input, 100_000, Some(false), None, &s);
    assert_eq!(t.y, 800_000);
    assert_eq!(v.grounded_timer, 0);
    assert_eq!(v.vertical_velocity, 8_000_000 - 981_000);
}

#[test]
fn grounding_rearms_timer() {
    let s = FpsSettings::default();
    let mut v = VerticalMotion { vertical_velocity: -3_000_000, grounded_timer: -7 };
    let mut input = MovementInput::zero();
    let t = v.player_movement(&mut input, 100_000, Some(true), None, &s);
    assert_eq!(t.y, 0);
    assert_eq!(v.grounded_timer, 400_000);
    assert_eq!(v.vertical_velocity, -981_000);
}

#[test]
fn coyote_time_jump_succeeds() {
    let s = FpsSettings::default();
    let mut v = VerticalMotion::new();
    // tick 0: no grounded signal yet
    let mut input = MovementInput::zero();
    v.player_movement(&mut input, 100_000, None, None, &s);
    // tick 1 reads the contact reported after tick 0
    v.player_movement(&mut input, 100_000, Some(true), None, &s);
    // ticks 2 to 4 read the loss of contact reported after ticks 1 to 3
    for _ in 2..5 {
        let mut input = MovementInput::zero();
        v.player_movement(&mut input, 100_000, Some(false), None, &s);
    }
    // tick 5: 0.4 s after leaving the ground, the jump is still accepted
    let mut input = MovementInput { x: 0, z: 0, jump: true };
    let t = v.player_movement(&mut input, 100_000, Some(false), None, &s);
    assert_eq!(t.y, 800_000);
    assert_eq!(v.vertical_velocity, 8_000_000 - 981_000);
    assert_eq!(v.grounded_timer, 0);
    // the spent timer blocks a second jump in the air
    let mut input = MovementInput { x: 0, z: 0, jump: true };
    v.player_movement(&mut input, 100_000, Some(false), None, &s);
    assert_eq!(v.vertical_velocity, 8_000_000 - 2 * 981_000);
}

#[test]
fn intent_drains_after_movement() {
    let s = FpsSettings::default();
    let mut v = VerticalMotion::new();
    let mut movement = MovementInput::zero();
    let mut look = LookInput::zero();
    let keys = KeyState { forward: true, sprint: true, jump: true, ..no_keys() };
    handle_input(&keys, &mut movement, &mut look, &vec![], &s);
    assert_eq!(movement, MovementInput { x: 0, z: -2 * SCALE, jump: true });
    v.player_movement(&mut movement, 100_000, Some(true), None, &s);
    assert_eq!(movement, MovementInput::zero());
    handle_input(&no_keys(), &mut movement, &mut look, &vec![], &s);
    assert_eq!(movement, MovementInput { x: 0, z: 0, jump: false });
}

#[test]
fn horizontal_translation_scales_with_speed_and_dt() {
    let s = FpsSettings::default();
    let mut v = VerticalMotion::new();
    let mut input = movement_intent(&KeyState { forward: true, left: true, ..no_keys() });
    let t = v.player_movement(&mut input, 100_000, Some(true), None, &s);
    // 8 units/s * 0.707106 * 0.1 s
    assert_eq!(t, Translation { x: -565_684, y: 0, z: -565_684 });
}

#[test]
fn orientation_is_overwritten() {
    let look = LookInput { yaw: 45_000_000, pitch: -30_000_000 };
    let mut o = Orientation { body_yaw: 123, camera_pitch: 456 };
    player_look(&mut o, &look);
    let first = o;
    player_look(&mut o, &look);
    assert_eq!(o, first);
    assert_eq!(o, Orientation { body_yaw: 45_000_000, camera_pitch: -30_000_000 });
    let mut other = Orientation::identity();
    player_look(&mut other, &look);
    assert_eq!(other, first);
}
