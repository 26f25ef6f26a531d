use game_core::actor::{spawn_actor, Actor, Entity};
use game_core::actors::player::Player;
use game_core::actors::wall::Wall;
use game_core::frame::{Frame, FrameCommand, Sprite};
use game_core::game_obj::GameObj;
use game_core::game_state::{
    draw_objs, find_obj_slot, update_collisions, update_free, update_level_collisions, update_objs,
    GameState, PoolError, POOL_CAPACITY,
};
use game_core::geometry::vec2;
use game_core::global_data::GlobalData;
use game_core::maps::{MapSource, MapSources};
use game_core::scene::SCENES;

fn no_maps() -> MapSources {
    MapSources { test_map: MapSource::new(0, 0, Vec::new()).unwrap() }
}

fn wall(x: i32, y: i32) -> Entity {
    Entity::Wall(Wall::new(vec2(x, y)))
}

fn doomed_wall(x: i32, y: i32) -> Entity {
    let mut w = Wall::new(vec2(x, y));
    w.free_ready = true;
    Entity::Wall(w)
}

fn hidden_wall(x: i32, y: i32) -> Entity {
    let mut w = Wall::new(vec2(x, y));
    w.on_screen = false;
    Entity::Wall(w)
}

fn player(x: i32, y: i32) -> Entity {
    Entity::Player(Player::new(vec2(x, y)))
}

fn full_state() -> GameState {
    let mut state = GameState::new(no_maps());
    for i in 0..128 {
        assert_eq!(state.add_obj(wall(i, 0)), Ok(true));
    }
    state
}

#[test]
fn new_game_is_empty_and_in_play() {
    let state = GameState::new(no_maps());
    assert!(state.objects().is_empty());
    assert_eq!(state.current_map(), SCENES::TestScene);
    assert_eq!(state.globals().get_camera_offset(), vec2(0, 0));
    assert!(state.globals().get_spawn_queue().is_empty());
}

#[test]
fn capacity_is_128() {
    assert_eq!(POOL_CAPACITY, 128);
}

#[test]
fn add_obj_appends_in_admission_order() {
    let mut state = GameState::new(no_maps());
    assert_eq!(state.add_obj(player(1, 2)), Ok(true));
    assert_eq!(state.add_obj(wall(3, 4)), Ok(true));
    assert_eq!(state.objects(), &vec![player(1, 2), wall(3, 4)]);
}

#[test]
fn add_obj_refuses_at_capacity_when_nothing_can_be_evicted() {
    let mut state = full_state();
    let before = state.objects().clone();
    assert_eq!(state.add_obj(player(0, 0)), Err(PoolError::PoolFull));
    assert_eq!(state.objects().len(), 128);
    assert_eq!(state.objects(), &before);
}

#[test]
fn add_obj_at_capacity_evicts_the_first_entity_that_may_go() {
    let mut state = GameState::new(no_maps());
    for i in 0..128 {
        let mut w = Wall::new(vec2(i, 0));
        w.cleanup_ready = i == 5 || i == 9;
        assert_eq!(state.add_obj(Entity::Wall(w)), Ok(true));
    }
    let before = state.objects().clone();
    assert_eq!(state.add_obj(player(7, 7)), Ok(true));
    let after = state.objects();
    assert_eq!(after.len(), 128);
    assert_eq!(after[..5], before[..5]);
    assert_eq!(after[5..127], before[6..]);
    assert_eq!(after[127], player(7, 7));
    assert!(after[8].can_cleanup());
    assert_eq!(state.add_obj(player(8, 8)), Ok(true));
    assert_eq!(state.add_obj(player(9, 9)), Err(PoolError::PoolFull));
    assert_eq!(state.objects().len(), 128);
    assert!(state.objects().iter().all(|e| !e.can_cleanup()));
}

#[test]
fn find_obj_slot_at_capacity_removes_in_order() {
    let mut pool: Vec<Entity> = (0..128).map(|i| wall(i, 0)).collect();
    let mut last = Wall::new(vec2(127, 0));
    last.cleanup_ready = true;
    pool[127] = Entity::Wall(last);
    assert!(find_obj_slot(&mut pool));
    assert_eq!(pool.len(), 127);
    assert_eq!(pool[126], wall(126, 0));
    assert_eq!(pool[0], wall(0, 0));
}

#[test]
fn pool_full_has_a_message() {
    assert_eq!(PoolError::PoolFull.message(), "obj_box is full! Skipping added object");
}

#[test]
fn find_obj_slot_below_capacity_leaves_the_pool() {
    let mut pool = vec![wall(0, 0), player(1, 1)];
    assert!(find_obj_slot(&mut pool));
    assert_eq!(pool, vec![wall(0, 0), player(1, 1)]);
    let mut empty: Vec<Entity> = Vec::new();
    assert!(find_obj_slot(&mut empty));
    assert!(empty.is_empty());
}

#[test]
fn find_obj_slot_at_capacity_finds_none_to_evict() {
    let mut pool: Vec<Entity> = (0..128).map(|i| wall(i, 0)).collect();
    let before = pool.clone();
    assert!(!find_obj_slot(&mut pool));
    assert_eq!(pool, before);
    pool.pop();
    assert!(find_obj_slot(&mut pool));
    assert_eq!(pool.len(), 127);
}

#[test]
fn empty_box_clears_the_pool() {
    let mut state = GameState::new(no_maps());
    assert_eq!(state.add_obj(player(1, 2)), Ok(true));
    state.empty_box();
    assert!(state.objects().is_empty());
}

#[test]
fn update_free_removes_every_flagged_entity() {
    let mut pool = vec![doomed_wall(0, 0), wall(1, 0), doomed_wall(2, 0), wall(3, 0)];
    update_free(&mut pool);
    assert!(pool.iter().all(|e| !e.check_to_free()));
    assert_eq!(pool, vec![wall(3, 0), wall(1, 0)]);
}

#[test]
fn update_free_rescans_after_a_flagged_entity_took_the_place() {
    let mut pool = vec![doomed_wall(0, 0), wall(1, 0), doomed_wall(2, 0)];
    update_free(&mut pool);
    assert_eq!(pool, vec![wall(1, 0)]);
    let mut all_doomed = vec![doomed_wall(0, 0), doomed_wall(1, 0), doomed_wall(2, 0)];
    update_free(&mut all_doomed);
    assert!(all_doomed.is_empty());
}

#[test]
fn update_free_leaves_a_pool_without_flags() {
    let mut pool = vec![wall(0, 0), player(5, 5)];
    update_free(&mut pool);
    assert_eq!(pool, vec![wall(0, 0), player(5, 5)]);
    let mut empty: Vec<Entity> = Vec::new();
    update_free(&mut empty);
    assert!(empty.is_empty());
}

#[test]
fn update_objs_updates_each_entity_in_pool_order() {
    let mut globals = GlobalData::new();
    let mut pool = vec![player(10, 100), wall(30, 40), player(10, 100), hidden_wall(7, 8)];
    update_objs(&mut pool, &mut globals);
    assert_eq!(globals.get_camera_offset(), vec2(-2, 0));
    assert_eq!(pool[0].get_pos(), Some(vec2(11, 100)));
    assert_eq!(pool[2].get_pos(), Some(vec2(12, 100)));
    let mut frame = Frame::new();
    draw_objs(&pool, &mut frame);
    assert_eq!(
        frame.commands,
        vec![
            FrameCommand::ShowSprite(Sprite::Player, vec2(11, 100)),
            FrameCommand::ShowSprite(Sprite::Wall, vec2(30, 40)),
            FrameCommand::ShowSprite(Sprite::Player, vec2(12, 100)),
        ]
    );
}

#[test]
fn draw_objs_skips_entities_off_screen() {
    let pool = vec![hidden_wall(1, 1), wall(2, 2), hidden_wall(3, 3)];
    let mut frame = Frame::new();
    frame.show(FrameCommand::ShowBackground);
    draw_objs(&pool, &mut frame);
    assert_eq!(
        frame.commands,
        vec![FrameCommand::ShowBackground, FrameCommand::ShowSprite(Sprite::Wall, vec2(0, 0))]
    );
}

#[test]
fn collisions_reach_the_player_wherever_it_stands_in_the_pool() {
    let mut first = vec![player(50, 50), wall(58, 58)];
    update_collisions(&mut first);
    assert_eq!(first, {
        let mut p = Player::new(vec2(50, 50));
        p.col.position = vec2(0, 0);
        vec![Entity::Player(p), wall(58, 58)]
    });
    let mut last = vec![wall(200, 0), wall(58, 58), player(50, 50)];
    update_collisions(&mut last);
    assert_eq!(last[2].get_pos(), Some(vec2(0, 0)));
    assert_eq!(last[0], wall(200, 0));
    assert_eq!(last[1], wall(58, 58));
}

#[test]
fn collisions_check_both_directions_of_a_pair() {
    let mut back = Player::new(vec2(50, 50));
    back.prev_pos = vec2(100, 100);
    let mut front = Player::new(vec2(60, 60));
    front.prev_pos = vec2(120, 120);
    let mut pool = vec![Entity::Player(back), wall(58, 58), Entity::Player(front)];
    update_collisions(&mut pool);
    assert_eq!(pool[0].get_pos(), Some(vec2(100, 100)));
    assert_eq!(pool[2].get_pos(), Some(vec2(120, 120)));
    assert_eq!(pool[1], wall(58, 58));
}

#[test]
fn collisions_leave_out_entities_off_screen() {
    let mut pool = vec![player(50, 50), hidden_wall(58, 58)];
    update_collisions(&mut pool);
    assert_eq!(pool, vec![player(50, 50), hidden_wall(58, 58)]);
}

#[test]
fn collisions_need_two_entities() {
    let mut alone = vec![player(50, 50)];
    update_collisions(&mut alone);
    assert_eq!(alone, vec![player(50, 50)]);
    let mut empty: Vec<Entity> = Vec::new();
    update_collisions(&mut empty);
    assert!(empty.is_empty());
}

#[test]
fn collisions_without_overlap_change_nothing() {
    let mut pool = vec![player(50, 50), wall(66, 50), wall(50, 66), wall(34, 50)];
    let before = pool.clone();
    update_collisions(&mut pool);
    assert_eq!(pool, before);
}

#[test]
fn level_collisions_tell_the_entities_on_solid_tiles() {
    let sources = MapSources {
        test_map: MapSource::new(2, 1, vec![[1, 1], [2, 0]]).unwrap(),
    };
    let mut globals = GlobalData::new();
    let mut pool = vec![player(4, 4), wall(20, 0)];
    let before = pool.clone();
    update_level_collisions(&mut pool, &globals);
    assert_eq!(pool, before);
    globals.load_level_layout(SCENES::TestScene, &sources);
    update_level_collisions(&mut pool, &globals);
    assert_eq!(pool, before);
}

#[test]
fn change_scene_fills_the_pool_in_catalog_order() {
    let mut state = GameState::new(no_maps());
    assert_eq!(state.add_obj(wall(9, 9)), Ok(true));
    state.change_scene(SCENES::TestScene);
    assert_eq!(
        state.objects(),
        &vec![
            spawn_actor(Actor::APlayer(vec2(100, 100))),
            spawn_actor(Actor::AWall(vec2(0, -80))),
            spawn_actor(Actor::AWall(vec2(0, 160))),
            spawn_actor(Actor::AWall(vec2(-120, 50))),
            spawn_actor(Actor::AWall(vec2(346, 50))),
            spawn_actor(Actor::AWall(vec2(150, -20))),
        ]
    );
    assert_eq!(state.current_map(), SCENES::TestScene);
    state.change_scene(SCENES::Map001);
    assert_eq!(state.objects(), &vec![spawn_actor(Actor::APlayer(vec2(100, 100)))]);
    assert_eq!(state.current_map(), SCENES::Map001);
}

#[test]
fn change_scene_replaces_a_full_pool() {
    let mut state = full_state();
    state.change_scene(SCENES::TestScene);
    assert_eq!(state.objects().len(), 6);
}

#[test]
fn drain_admits_three_spawns_with_127_free_slots() {
    let mut state = GameState::new(no_maps());
    assert_eq!(state.add_obj(player(100, 100)), Ok(true));
    state.queue_spawn(Actor::AWall(vec2(1, 1)));
    state.queue_spawn(Actor::APlayer(vec2(2, 2)));
    state.queue_spawn(Actor::AWall(vec2(3, 3)));
    let refused = state.spawn_objs_in_queue();
    assert!(refused.is_empty());
    assert_eq!(state.objects(), &vec![player(100, 100), wall(1, 1), player(2, 2), wall(3, 3)]);
    assert!(state.globals().get_spawn_queue().is_empty());
}

#[test]
fn drain_drops_what_does_not_fit_and_empties_the_queue() {
    let mut state = GameState::new(no_maps());
    for i in 0..127 {
        assert_eq!(state.add_obj(wall(i, 0)), Ok(true));
    }
    state.queue_spawn(Actor::AWall(vec2(1, 1)));
    state.queue_spawn(Actor::APlayer(vec2(2, 2)));
    state.queue_spawn(Actor::AWall(vec2(3, 3)));
    let refused = state.spawn_objs_in_queue();
    assert_eq!(refused, vec![Actor::APlayer(vec2(2, 2)), Actor::AWall(vec2(3, 3))]);
    assert_eq!(state.objects().len(), 128);
    assert_eq!(state.objects()[127], wall(1, 1));
    assert!(state.globals().get_spawn_queue().is_empty());
    assert!(state.spawn_objs_in_queue().is_empty());
    assert_eq!(state.objects().len(), 128);
}
