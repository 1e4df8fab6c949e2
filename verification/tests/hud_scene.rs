use memetics::hud::{
    meme_line, momentum_lock_color, momentum_lock_text, mouse_scroll, target_list_text,
    update_hud_data_from_memetics, update_hud_data_from_player_data, HUDData, IndicatorColor,
    ScrollingList, WheelUnit,
};
use memetics::input::{InputMap, InputSettings, KeyBinding};
use memetics::math::MilliVec3;
use memetics::meme::{ContainerActivity, ContainerType, MemeContainer};
use memetics::player::PlayerMovement;
use memetics::scene::{setup_test_room, spawn_player};
use memetics::state::{enter_level, GameState};

fn infohazard_plane() -> MemeContainer {
    MemeContainer {
        container_type: ContainerType::Electronic,
        container_activity: ContainerActivity::Passive,
        contains_infohazard: true,
    }
}

#[test]
fn meme_line_formats_type_and_flag() {
    assert_eq!(meme_line(&infohazard_plane()), "Electronic true");
    let organism = MemeContainer {
        container_type: ContainerType::Biological,
        container_activity: ContainerActivity::Active,
        contains_infohazard: false,
    };
    assert_eq!(meme_line(&organism), "Biological false");
}

#[test]
fn hud_lists_every_tagged_container_in_order() {
    let mut hud = HUDData {
        player_locked_momentum: true,
        meme_data: vec![String::from("stale")],
    };
    let memes = vec![
        infohazard_plane(),
        MemeContainer {
            container_type: ContainerType::Biological,
            container_activity: ContainerActivity::Passive,
            contains_infohazard: false,
        },
    ];
    update_hud_data_from_memetics(&mut hud, &memes);
    assert_eq!(hud.meme_data.len(), 2);
    assert_eq!(hud.meme_data[0], "Electronic true");
    assert_eq!(hud.meme_data[1], "Biological false");
    assert!(hud.player_locked_momentum);
}

#[test]
fn hud_reads_the_first_players_lock_flag() {
    let mut hud = HUDData {
        player_locked_momentum: false,
        meme_data: Vec::new(),
    };
    let mut player = PlayerMovement {
        time_accelerating: 0,
        desired_velocity: MilliVec3 { x: 0, y: 0, z: 0 },
        grounded: false,
        locked_velocity: true,
    };
    update_hud_data_from_player_data(&mut hud, &vec![player]);
    assert!(hud.player_locked_momentum);
    player.locked_velocity = false;
    update_hud_data_from_player_data(&mut hud, &vec![player]);
    assert!(!hud.player_locked_momentum);
}

#[test]
fn hud_keeps_its_flag_with_no_player() {
    let mut hud = HUDData {
        player_locked_momentum: true,
        meme_data: Vec::new(),
    };
    update_hud_data_from_player_data(&mut hud, &Vec::new());
    assert!(hud.player_locked_momentum);
}

#[test]
fn momentum_lock_indicator_text_and_colour() {
    assert_eq!(momentum_lock_text(true), "ENABLED");
    assert_eq!(momentum_lock_text(false), "DISABLED");
    assert_eq!(momentum_lock_color(true), IndicatorColor::Green);
    assert_eq!(momentum_lock_color(false), IndicatorColor::Pink);
}

#[test]
fn target_list_joins_lines_with_newlines() {
    let hud = HUDData {
        player_locked_momentum: false,
        meme_data: vec![String::from("Electronic true"), String::from("Biological false")],
    };
    assert_eq!(target_list_text(&hud), "Electronic true\nBiological false\n");
    let empty = HUDData {
        player_locked_momentum: false,
        meme_data: Vec::new(),
    };
    assert_eq!(target_list_text(&empty), "");
}

#[test]
fn wheel_scrolling_clamps_between_bottom_and_top() {
    let mut list = ScrollingList { position: 0 };
    // Items 300 px tall in a 100 px container: 200 px of scroll room.
    mouse_scroll(&mut list, WheelUnit::Pixel, -50_000, 300_000, 100_000);
    assert_eq!(list.position, -50_000);
    mouse_scroll(&mut list, WheelUnit::Line, -100_000, 300_000, 100_000);
    assert_eq!(list.position, -200_000);
    mouse_scroll(&mut list, WheelUnit::Line, 3_000, 300_000, 100_000);
    assert_eq!(list.position, -140_000);
    mouse_scroll(&mut list, WheelUnit::Pixel, 500_000, 300_000, 100_000);
    assert_eq!(list.position, 0);
}

#[test]
fn scrolling_a_short_list_stays_at_the_top() {
    let mut list = ScrollingList { position: 0 };
    mouse_scroll(&mut list, WheelUnit::Line, -4_000, 100_000, 300_000);
    assert_eq!(list.position, 0);
}

#[test]
fn room_setup_enters_the_level_and_tags_the_floor() {
    let mut state = GameState::MainMenu;
    let tag = setup_test_room(&mut state);
    assert_eq!(state, GameState::InLevel);
    assert_eq!(tag.container_type, ContainerType::Electronic);
    assert_eq!(tag.container_activity, ContainerActivity::Passive);
    assert!(tag.contains_infohazard);
}

#[test]
fn player_spawns_exactly_in_the_level() {
    assert!(spawn_player(&GameState::MainMenu).is_none());
    let spawned = spawn_player(&GameState::InLevel);
    let (movement, facing, camera) = spawned.expect("player must spawn in the level");
    assert_eq!(movement.time_accelerating, 0);
    assert_eq!(movement.desired_velocity, MilliVec3 { x: 0, y: 0, z: 0 });
    assert!(!movement.grounded);
    assert!(!movement.locked_velocity);
    assert_eq!(facing.yaw, 0);
    assert_eq!(camera.pitch, 0);
}

#[test]
fn game_state_transition_is_one_directional() {
    let mut state = GameState::default();
    assert_eq!(state, GameState::MainMenu);
    enter_level(&mut state);
    assert_eq!(state, GameState::InLevel);
    enter_level(&mut state);
    assert_eq!(state, GameState::InLevel);
}

#[test]
fn input_defaults_match_the_shipped_tuning() {
    let map = InputMap::default();
    assert_eq!(map.velocity_lock, KeyBinding::ShiftLeft);
    let settings = InputSettings::default();
    assert_eq!(settings.camera_sensitivity, 5);
}

#[test]
fn malformed_sensitivity_is_rejected_at_load_time() {
    assert!(InputSettings::new(-1).is_none());
    assert!(InputSettings::new(5).is_some());
    assert!(InputSettings::new(0).is_some());
    assert!(InputSettings::new(1001).is_none());
    assert_eq!(InputSettings::new(7).unwrap().camera_sensitivity, 7);
}
