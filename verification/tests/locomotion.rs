use memetics::input::InputSettings;
use memetics::math::{MilliVec2, MilliVec3};
use memetics::player::{
    is_accelerating, player_kinematics, player_move_input, process_mouse_movement,
    read_result_system, rotate_player, simulation_tick, FrameInput, MouseMovement, PlayerCamera,
    PlayerFacing, PlayerMovement, GROUND_EPSILON, HALF_PI_MILLI,
};

fn resting_player() -> PlayerMovement {
    PlayerMovement {
        time_accelerating: 0,
        desired_velocity: MilliVec3 { x: 0, y: 0, z: 0 },
        grounded: false,
        locked_velocity: false,
    }
}

#[test]
fn ema_decays_with_no_pointer_events() {
    let mut stats = MouseMovement {
        average_speed: 5000,
        average_velocity: MilliVec2 { x: 1000, y: -1000 },
    };
    process_mouse_movement(&mut stats, MilliVec2 { x: 0, y: 0 });
    assert_eq!(stats.average_speed, 4750);
    assert_eq!(stats.average_velocity.x, 950);
    assert_eq!(stats.average_velocity.y, -950);
}

#[test]
fn ema_decay_is_monotone_and_reaches_zero() {
    let mut stats = MouseMovement {
        average_speed: 5000,
        average_velocity: MilliVec2 { x: -3000, y: 700 },
    };
    let mut prev = stats;
    let mut ticks = 0u32;
    while stats.average_speed > 0
        || stats.average_velocity.x != 0
        || stats.average_velocity.y != 0
    {
        process_mouse_movement(&mut stats, MilliVec2 { x: 0, y: 0 });
        assert!(stats.average_speed <= prev.average_speed);
        assert!(stats.average_velocity.x.abs() <= prev.average_velocity.x.abs());
        assert!(stats.average_velocity.y.abs() <= prev.average_velocity.y.abs());
        if prev.average_speed > 0 {
            assert!(stats.average_speed < prev.average_speed);
        }
        prev = stats;
        ticks += 1;
        assert!(ticks <= 5000);
    }
    assert_eq!(stats.average_speed, 0);
    assert_eq!(stats.average_velocity.x, 0);
    assert_eq!(stats.average_velocity.y, 0);
}

#[test]
fn ema_blends_a_fresh_sample() {
    let mut stats = MouseMovement {
        average_speed: 0,
        average_velocity: MilliVec2 { x: 0, y: 0 },
    };
    // A 3-4-5 pointer delta: the speed sample is exactly 5 counts.
    process_mouse_movement(&mut stats, MilliVec2 { x: 3000, y: 4000 });
    assert_eq!(stats.average_speed, 250);
    assert_eq!(stats.average_velocity.x, 150);
    assert_eq!(stats.average_velocity.y, 200);
}

#[test]
fn intensity_heuristic_classifies_circling() {
    // average_speed 5.0, average_velocity (1.0, 1.0), threshold 0.1:
    // 5.0 exceeds both |(1.0, 1.0)| and 0.1, so this is deliberate circling.
    let mouse = MouseMovement {
        average_speed: 5000,
        average_velocity: MilliVec2 { x: 1000, y: 1000 },
    };
    assert!(is_accelerating(&mouse, 100));
}

#[test]
fn intensity_heuristic_rejects_a_flick() {
    // A directional flick: speed barely under the velocity magnitude.
    let mouse = MouseMovement {
        average_speed: 1400,
        average_velocity: MilliVec2 { x: 1000, y: 1000 },
    };
    assert!(!is_accelerating(&mouse, 100));
}

#[test]
fn intensity_heuristic_rejects_a_slow_mouse() {
    let mouse = MouseMovement {
        average_speed: 90,
        average_velocity: MilliVec2 { x: 10, y: 10 },
    };
    assert!(!is_accelerating(&mouse, 100));
}

#[test]
fn large_pointer_delta_saturates_pitch_at_the_boundary() {
    // dy = 10000 counts in one tick; pointer y is inverted, so a large
    // positive dy pitches all the way down, saturating at -pi/2 exactly.
    let mut facing = PlayerFacing { yaw: 0 };
    let mut camera = PlayerCamera { pitch: 0 };
    rotate_player(&mut facing, &mut camera, MilliVec2 { x: 0, y: 10_000_000 }, 5);
    assert_eq!(camera.pitch, -HALF_PI_MILLI);
    rotate_player(&mut facing, &mut camera, MilliVec2 { x: 0, y: -10_000_000 }, 5);
    assert_eq!(camera.pitch, HALF_PI_MILLI);
    rotate_player(&mut facing, &mut camera, MilliVec2 { x: 0, y: -10_000_000 }, 5);
    assert_eq!(camera.pitch, HALF_PI_MILLI);
}

#[test]
fn yaw_turns_against_pointer_x_and_wraps() {
    let mut facing = PlayerFacing { yaw: 0 };
    let mut camera = PlayerCamera { pitch: 0 };
    // 10000 counts to the right at sensitivity 0.005 is 50 radians of turn,
    // folded into [0, 2*pi): 264 thousandths of a radian.
    rotate_player(&mut facing, &mut camera, MilliVec2 { x: 10_000_000, y: 0 }, 5);
    assert_eq!(facing.yaw, 264);
}

#[test]
fn dead_zone_swallows_jitter() {
    let mut facing = PlayerFacing { yaw: 1234 };
    let mut camera = PlayerCamera { pitch: -321 };
    // Half a count of pointer motion stays below the dead zone.
    rotate_player(&mut facing, &mut camera, MilliVec2 { x: 500, y: -500 }, 5);
    assert_eq!(facing.yaw, 1234);
    assert_eq!(camera.pitch, -321);
}

#[test]
fn acceleration_ramp_interpolates_with_pitch() {
    // Level: the minimum acceleration. Straight up: the maximum.
    // Straight down: no push at all.
    assert_eq!(memetics::player::acceleration_for(0), 3000);
    assert_eq!(memetics::player::acceleration_for(HALF_PI_MILLI), 6000);
    assert_eq!(memetics::player::acceleration_for(-HALF_PI_MILLI), 0);
    assert_eq!(memetics::player::acceleration_for(785), 4488);
}

#[test]
fn accelerating_tick_from_rest_applies_floor_impulse_and_push() {
    let mut player = resting_player();
    let camera = PlayerCamera { pitch: 0 };
    // Circling at 50 counts of smoothed speed: past the 30-count threshold
    // a 0.1 s tick demands, and well past the velocity magnitude.
    let mouse = MouseMovement {
        average_speed: 50_000,
        average_velocity: MilliVec2 { x: 1000, y: 1000 },
    };
    // Facing straight ahead (yaw 0): essentially (0, 0, -1).
    let forward = MilliVec3 { x: 1, y: 0, z: -1000 };
    player_move_input(&mut player, &camera, forward, &mouse, 100);
    assert_eq!(player.time_accelerating, 600);
    assert_eq!(player.desired_velocity.x, 1);
    assert_eq!(player.desired_velocity.y, 0);
    assert_eq!(player.desired_velocity.z, -1800);
}

#[test]
fn desired_velocity_never_exceeds_the_ramp_bound() {
    let mut player = resting_player();
    let camera = PlayerCamera { pitch: HALF_PI_MILLI };
    let mouse = MouseMovement {
        average_speed: 5000,
        average_velocity: MilliVec2 { x: 1000, y: 1000 },
    };
    let forward = MilliVec3 { x: 1, y: 0, z: -1000 };
    for _ in 0..500 {
        player_move_input(&mut player, &camera, forward, &mouse, 16);
        let v = player.desired_velocity;
        let mag2 = (v.x as i128) * (v.x as i128) + (v.y as i128) * (v.y as i128)
            + (v.z as i128) * (v.z as i128);
        let cap = 15 * player.time_accelerating as i128;
        assert!(mag2 <= cap * cap);
    }
}

#[test]
fn decaying_tick_shrinks_time_and_velocity() {
    let mut player = PlayerMovement {
        time_accelerating: 1000,
        desired_velocity: MilliVec3 { x: 0, y: 0, z: -10_000 },
        grounded: false,
        locked_velocity: false,
    };
    let camera = PlayerCamera { pitch: 0 };
    let idle = MouseMovement {
        average_speed: 0,
        average_velocity: MilliVec2 { x: 0, y: 0 },
    };
    let forward = MilliVec3 { x: 0, y: 0, z: -1000 };
    player_move_input(&mut player, &camera, forward, &idle, 100);
    assert_eq!(player.time_accelerating, 900);
    assert_eq!(player.desired_velocity.z, -9500);
}

#[test]
fn decaying_tick_reclamps_to_the_shrunken_bound() {
    // At the cap (|v| = 15.0 for t = 1.0): the multiplicative decay alone
    // would leave 14.25, above the shrunken cap 13.5, so the re-clamp bites.
    let mut player = PlayerMovement {
        time_accelerating: 1000,
        desired_velocity: MilliVec3 { x: 0, y: 0, z: -15_000 },
        grounded: false,
        locked_velocity: false,
    };
    let camera = PlayerCamera { pitch: 0 };
    let idle = MouseMovement {
        average_speed: 0,
        average_velocity: MilliVec2 { x: 0, y: 0 },
    };
    let forward = MilliVec3 { x: 0, y: 0, z: -1000 };
    player_move_input(&mut player, &camera, forward, &idle, 100);
    assert_eq!(player.time_accelerating, 900);
    assert_eq!(player.desired_velocity.z, -13_500);
}

#[test]
fn grounded_sinking_velocity_is_clamped_to_epsilon() {
    // grounded with desired_velocity.y = -2.0 entering the tick:
    // the vertical velocity becomes 0.01 before integration.
    let mut player = PlayerMovement {
        time_accelerating: 0,
        desired_velocity: MilliVec3 { x: 0, y: -2000, z: 0 },
        grounded: true,
        locked_velocity: false,
    };
    player_kinematics(&mut player, 100);
    assert_eq!(player.desired_velocity.y, GROUND_EPSILON);
    assert_eq!(player.desired_velocity.y, 10);
}

#[test]
fn grounded_rising_velocity_is_left_alone() {
    let mut player = PlayerMovement {
        time_accelerating: 0,
        desired_velocity: MilliVec3 { x: 0, y: 500, z: 0 },
        grounded: true,
        locked_velocity: false,
    };
    player_kinematics(&mut player, 100);
    assert_eq!(player.desired_velocity.y, 500);
}

#[test]
fn airborne_tick_integrates_gravity() {
    // grounded = false, desired_velocity.y = 0.0, dt = 0.1:
    // after one tick the vertical velocity is -0.981.
    let mut player = resting_player();
    player_kinematics(&mut player, 100);
    assert_eq!(player.desired_velocity.y, -981);
}

#[test]
fn translation_request_is_velocity_times_dt() {
    let mut player = PlayerMovement {
        time_accelerating: 600,
        desired_velocity: MilliVec3 { x: 1, y: 0, z: -1800 },
        grounded: true,
        locked_velocity: false,
    };
    let translation = player_kinematics(&mut player, 100);
    assert_eq!(translation.x, 0);
    assert_eq!(translation.y, 1); // the grounded epsilon over 0.1 s
    assert_eq!(translation.z, -180);
}

#[test]
fn grounded_feedback_copies_the_engine_flag() {
    let mut player = resting_player();
    read_result_system(&mut player, true);
    assert!(player.grounded);
    read_result_system(&mut player, false);
    assert!(!player.grounded);
}

#[test]
fn full_ticks_keep_the_ramp_bound_and_the_pitch_bound() {
    let mut mouse = MouseMovement {
        average_speed: 0,
        average_velocity: MilliVec2 { x: 0, y: 0 },
    };
    let mut facing = PlayerFacing { yaw: 0 };
    let mut camera = PlayerCamera { pitch: 0 };
    let mut player = resting_player();
    let settings = InputSettings { camera_sensitivity: 5 };
    let mut grounded = false;
    // A circling pointer, eight directions repeating.
    let ring: [(i64, i64); 8] = [
        (20000, 0),
        (14000, 14000),
        (0, 20000),
        (-14000, 14000),
        (-20000, 0),
        (-14000, -14000),
        (0, -20000),
        (14000, -14000),
    ];
    for tick in 0..200usize {
        let (dx, dy) = ring[tick % 8];
        let input = FrameInput {
            pointer_delta: MilliVec2 { x: dx, y: dy },
            dt: 16,
        };
        let translation = simulation_tick(
            &mut mouse,
            &mut facing,
            &mut camera,
            &mut player,
            input,
            &settings,
        );
        assert!(camera.pitch >= -HALF_PI_MILLI && camera.pitch <= HALF_PI_MILLI);
        assert!(facing.yaw >= 0 && facing.yaw < 6283);
        assert!(mouse.average_speed >= 0);
        assert!(translation.x.abs() <= 40_000_000);
        grounded = tick % 3 == 0;
        read_result_system(&mut player, grounded);
    }
    // Sustained circling must have started the acceleration ramp.
    assert!(player.time_accelerating > 0);
}
