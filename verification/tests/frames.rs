use game_core::actor::{spawn_actor, Actor, Entity};
use game_core::actors::wall::Wall;
use game_core::frame::{Frame, FrameCommand, Sprite};
use game_core::game_obj::{GameObj, ResponseType};
use game_core::game_state::GameState;
use game_core::geometry::{vec2, Rect};
use game_core::global_data::{Flags, GlobalData, GAMEMODE};
use game_core::input::{Button, ButtonSet, InputSnapshot};
use game_core::maps::{MapSource, MapSources};
use game_core::scene::{get_bg_val, get_layout, BACKGROUNDS, SCENES};

fn one_solid_tile() -> MapSources {
    MapSources { test_map: MapSource::new(1, 1, vec![[3, 1]]).unwrap() }
}

fn idle() -> InputSnapshot {
    InputSnapshot::new()
}

fn pressing(set: ButtonSet) -> InputSnapshot {
    InputSnapshot { held: idle().held, just_pressed: set }
}

fn holding(set: ButtonSet) -> InputSnapshot {
    InputSnapshot { held: set, just_pressed: idle().just_pressed }
}

#[test]
fn layouts_are_as_cataloged() {
    assert_eq!(
        get_layout(SCENES::TestScene),
        vec![
            Actor::APlayer(vec2(100, 100)),
            Actor::AWall(vec2(0, -80)),
            Actor::AWall(vec2(0, 160)),
            Actor::AWall(vec2(-120, 50)),
            Actor::AWall(vec2(346, 50)),
            Actor::AWall(vec2(150, -20)),
        ]
    );
    assert_eq!(get_layout(SCENES::Map001), vec![Actor::APlayer(vec2(100, 100))]);
}

#[test]
fn backgrounds_are_as_cataloged() {
    assert_eq!(get_bg_val(SCENES::TestScene), Some(BACKGROUNDS::BgImg1));
    assert_eq!(get_bg_val(SCENES::Map001), Some(BACKGROUNDS::BgImg2));
}

#[test]
fn input_snapshot_answers_per_button() {
    let snapshot = InputSnapshot {
        held: ButtonSet { up: true, a: true, ..idle().held },
        just_pressed: ButtonSet { b: true, left: true, ..idle().held },
    };
    assert!(snapshot.is_pressed(Button::UP));
    assert!(snapshot.is_pressed(Button::A));
    assert!(!snapshot.is_pressed(Button::B));
    assert!(!snapshot.is_pressed(Button::DOWN));
    assert!(snapshot.is_just_pressed(Button::B));
    assert!(snapshot.is_just_pressed(Button::LEFT));
    assert!(!snapshot.is_just_pressed(Button::RIGHT));
    assert!(!snapshot.is_just_pressed(Button::A));
    assert!(!idle().is_pressed(Button::UP));
}

#[test]
fn scene_request_is_taken_once_and_last_write_wins() {
    let mut globals = GlobalData::new();
    assert_eq!(globals.scene_change_queued(), None);
    globals.queue_scene_transition(SCENES::TestScene);
    globals.queue_scene_transition(SCENES::Map001);
    assert_eq!(globals.scene_change_queued(), Some(SCENES::Map001));
    assert_eq!(globals.scene_change_queued(), None);
}

#[test]
fn flags_are_kept_per_name() {
    let mut globals = GlobalData::new();
    assert!(!globals.check_flag(Flags::TestWallSwitch));
    globals.set_flag(Flags::UnimplementedFlag1, true);
    assert!(globals.check_flag(Flags::UnimplementedFlag1));
    assert!(!globals.check_flag(Flags::UnimplementedFlag0));
    globals.set_flag(Flags::UnimplementedFlag1, false);
    assert!(!globals.check_flag(Flags::UnimplementedFlag1));
}

#[test]
fn camera_offset_is_set_and_reset() {
    let mut globals = GlobalData::new();
    globals.set_camera_offset(vec2(3, -4));
    assert_eq!(globals.get_camera_offset(), vec2(3, -4));
    globals.reset_offset();
    assert_eq!(globals.get_camera_offset(), vec2(0, 0));
}

#[test]
fn mode_and_input_are_stored() {
    let mut globals = GlobalData::new();
    assert_eq!(*globals.get_mode(), GAMEMODE::PLAY);
    globals.set_mode(GAMEMODE::MENU);
    assert_eq!(*globals.get_mode(), GAMEMODE::MENU);
    assert_eq!(*globals.get_input(), idle());
    let snapshot = holding(ButtonSet { down: true, ..idle().held });
    globals.update_input(snapshot);
    assert_eq!(*globals.get_input(), snapshot);
}

#[test]
fn spawn_queue_keeps_request_order() {
    let mut globals = GlobalData::new();
    globals.spawn_queue(Actor::AWall(vec2(1, 2)));
    globals.spawn_queue(Actor::APlayer(vec2(3, 4)));
    assert_eq!(globals.get_spawn_queue(), vec![Actor::AWall(vec2(1, 2)), Actor::APlayer(vec2(3, 4))]);
    globals.clear_spawn_queue();
    assert!(globals.get_spawn_queue().is_empty());
}

#[test]
fn process_bg_loads_a_pending_image_once() {
    let mut globals = GlobalData::new();
    let mut frame = Frame::new();
    globals.process_bg(&mut frame);
    globals.queue_bg_change(Some(BACKGROUNDS::BgImg2));
    globals.process_bg(&mut frame);
    globals.process_bg(&mut frame);
    assert_eq!(
        frame.commands,
        vec![
            FrameCommand::ShowBackground,
            FrameCommand::FillBackground(BACKGROUNDS::BgImg2),
            FrameCommand::ShowBackground,
            FrameCommand::ShowBackground,
        ]
    );
}

#[test]
fn level_answers_none_until_loaded() {
    let mut globals = GlobalData::new();
    let probe = Rect::new(vec2(4, 4), vec2(4, 4));
    assert_eq!(globals.check_level_col(probe), ResponseType::NONE);
    globals.load_level_layout(SCENES::Map001, &one_solid_tile());
    assert_eq!(globals.check_level_col(probe), ResponseType::LEVEL);
    assert_eq!(globals.check_level_col(Rect::new(vec2(16, 0), vec2(4, 4))), ResponseType::NONE);
}

#[test]
fn level_offset_moves_the_tiles_against_the_camera() {
    let mut globals = GlobalData::new();
    globals.level_offset();
    globals.load_level_layout(SCENES::TestScene, &one_solid_tile());
    globals.set_camera_offset(vec2(-20, 0));
    globals.level_offset();
    assert_eq!(globals.check_level_col(Rect::new(vec2(4, 4), vec2(4, 4))), ResponseType::NONE);
    assert_eq!(globals.check_level_col(Rect::new(vec2(24, 4), vec2(4, 4))), ResponseType::LEVEL);
}

#[test]
fn first_frame_after_a_request_enters_the_scene() {
    let mut state = GameState::new(one_solid_tile());
    state.queue_scene_transition(SCENES::TestScene);
    let mut frame = Frame::new();
    let refused = state.cycle_update(holding(ButtonSet { right: true, ..idle().held }), &mut frame);
    assert!(refused.is_empty());
    assert_eq!(
        frame.commands,
        vec![FrameCommand::FillBackground(BACKGROUNDS::BgImg1), FrameCommand::ShowBackground]
    );
    assert_eq!(state.objects().len(), 6);
    assert_eq!(state.objects()[0], spawn_actor(Actor::APlayer(vec2(100, 100))));
    assert_eq!(*state.globals().get_mode(), GAMEMODE::PLAY);
    assert_eq!(*state.globals().get_input(), idle());
    assert_eq!(
        state.globals().check_level_col(Rect::new(vec2(4, 4), vec2(4, 4))),
        ResponseType::LEVEL
    );
    let mut again = state.globals().get_spawn_queue();
    assert!(again.is_empty());
    again.clear();
}

#[test]
fn a_frame_of_play_updates_and_draws_the_scene() {
    let mut state = GameState::new(one_solid_tile());
    state.change_scene(SCENES::TestScene);
    let mut frame = Frame::new();
    let refused = state.cycle_update(holding(ButtonSet { right: true, ..idle().held }), &mut frame);
    assert!(refused.is_empty());
    assert_eq!(
        frame.commands,
        vec![
            FrameCommand::FillBackground(BACKGROUNDS::BgImg1),
            FrameCommand::ShowBackground,
            FrameCommand::ShowSprite(Sprite::Player, vec2(101, 100)),
            FrameCommand::ShowSprite(Sprite::Wall, vec2(0, -80)),
            FrameCommand::ShowSprite(Sprite::Wall, vec2(0, 160)),
            FrameCommand::ShowSprite(Sprite::Wall, vec2(-120, 50)),
            FrameCommand::ShowSprite(Sprite::Wall, vec2(346, 50)),
            FrameCommand::ShowSprite(Sprite::Wall, vec2(150, -20)),
        ]
    );
    assert_eq!(state.objects()[0].get_pos(), Some(vec2(101, 100)));
    assert_eq!(state.globals().get_camera_offset(), vec2(0, 0));
    let mut second = Frame::new();
    state.cycle_update(idle(), &mut second);
    assert_eq!(second.commands[0], FrameCommand::ShowBackground);
    assert_eq!(second.commands[1], FrameCommand::ShowSprite(Sprite::Player, vec2(101, 100)));
    assert_eq!(second.commands.len(), 7);
}

#[test]
fn a_spawn_asked_for_in_one_frame_enters_in_the_next() {
    let mut state = GameState::new(one_solid_tile());
    state.change_scene(SCENES::Map001);
    let mut frame = Frame::new();
    state.cycle_update(pressing(ButtonSet { a: true, ..idle().held }), &mut frame);
    assert_eq!(state.objects().len(), 1);
    assert_eq!(state.globals().get_spawn_queue(), vec![Actor::AWall(vec2(116, 100))]);
    let refused = state.cycle_update(idle(), &mut frame);
    assert!(refused.is_empty());
    assert!(state.globals().get_spawn_queue().is_empty());
    assert_eq!(state.objects().len(), 2);
    let mut expected = Wall::new(vec2(116, 100));
    expected.object.pos = vec2(116, 100);
    assert_eq!(state.objects()[1], Entity::Wall(expected));
}

#[test]
fn pressing_b_changes_the_scene_in_the_next_frame() {
    let mut state = GameState::new(one_solid_tile());
    state.change_scene(SCENES::TestScene);
    let mut frame = Frame::new();
    state.cycle_update(pressing(ButtonSet { b: true, ..idle().held }), &mut frame);
    assert_eq!(state.current_map(), SCENES::TestScene);
    assert_eq!(state.objects().len(), 6);
    let mut next = Frame::new();
    state.cycle_update(idle(), &mut next);
    assert_eq!(state.current_map(), SCENES::Map001);
    assert_eq!(state.objects(), &vec![spawn_actor(Actor::APlayer(vec2(100, 100)))]);
    assert_eq!(
        next.commands,
        vec![FrameCommand::FillBackground(BACKGROUNDS::BgImg2), FrameCommand::ShowBackground]
    );
    let mut third = Frame::new();
    state.cycle_update(idle(), &mut third);
    assert_eq!(state.current_map(), SCENES::Map001);
    assert_eq!(third.commands.len(), 2);
}

#[test]
fn a_frame_of_play_stops_the_player_at_a_wall() {
    let mut state = GameState::new(one_solid_tile());
    state.change_scene(SCENES::Map001);
    state.queue_spawn(Actor::AWall(vec2(117, 100)));
    let mut frame = Frame::new();
    state.cycle_update(holding(ButtonSet { right: true, ..idle().held }), &mut frame);
    assert_eq!(state.objects().len(), 2);
    assert_eq!(state.objects()[0].get_pos(), Some(vec2(101, 100)));
    state.cycle_update(holding(ButtonSet { right: true, ..idle().held }), &mut frame);
    assert_eq!(state.objects()[0].get_pos(), Some(vec2(101, 100)));
    state.cycle_update(holding(ButtonSet { left: true, ..idle().held }), &mut frame);
    assert_eq!(state.objects()[0].get_pos(), Some(vec2(100, 100)));
}
