use tiny_rpg::data::{Data, KEY_A, KEY_D, KEY_S, KEY_W};
use tiny_rpg::entity::{Ability, Entity};
use tiny_rpg::events::{handle_key_code, move_world_forward, PlayerAction};
use tiny_rpg::helper::Builder;
use tiny_rpg::maps::{Level, LevelType};
use tiny_rpg::math::{Point, Rectangle};

fn mover(x: i32, y: i32) -> Entity {
    Entity::new().set_xy(x, y).set_abilities(vec![Ability::Move]).build().unwrap()
}

#[test]
fn data_new_state() {
    let data = Data::new();
    assert_eq!(data.get_player().get_rectangle(), Rectangle::new(5, 5, 1, 1));
    assert_eq!(data.get_entities().len(), 0);
    assert_eq!(data.get_time(), 0);
    assert_eq!(data.get_level().get_level_type(), LevelType::MainMenu);
    assert_eq!(data.get_level().get_level_number(), 1);
    assert_eq!(
        data.get_settings().get_bindings().as_slice(),
        &[
            (KEY_A, PlayerAction::MoveLeft),
            (KEY_D, PlayerAction::MoveRight),
            (KEY_S, PlayerAction::MoveDown),
            (KEY_W, PlayerAction::MoveUp),
        ],
    );
}

#[test]
fn check_position_finds_the_first_match() {
    let mut data = Data::new();
    data.add_entity(Entity::new_wall(4, 5, 1, 1));
    data.add_entity(Entity::new_wall(4, 5, 1, 1));
    let hit = data.check_position(Rectangle::new(4, 5, 1, 1));
    assert!(hit.is_some());
    let miss = data.check_position(Rectangle::new(30, 30, 1, 1));
    assert!(miss.is_none());
    // The player at (5, 5) is excluded.
    assert!(data.check_position(Rectangle::new(5, 5, 1, 1)).is_none());
}

#[test]
fn check_position_player_and_both() {
    let mut data = Data::new();
    data.add_entity(Entity::new_wall(4, 5, 1, 1));
    assert!(data.check_position_player(Rectangle::new(5, 5, 1, 1)).is_some());
    assert!(data.check_position_player(Rectangle::new(4, 5, 1, 1)).is_none());
    assert!(data.check_position_both(Rectangle::new(5, 5, 1, 1)).is_some());
    assert!(data.check_position_both(Rectangle::new(4, 5, 1, 1)).is_some());
    assert!(data.check_position_both(Rectangle::new(9, 9, 1, 1)).is_none());
}

#[test]
fn player_and_entity_accessors() {
    let mut data = Data::new();
    data.set_player(Entity::new_player(1, 1));
    assert_eq!(data.get_player().get_position(), Point::new(1, 1));
    data.get_mut_player().move_down();
    assert_eq!(data.get_player().get_position(), Point::new(1, 2));
    data.add_entity(Entity::new_wall(3, 3, 1, 1));
    assert_eq!(data.get_entities().len(), 1);
    data.get_mut_entities().push(Entity::new_wall(4, 4, 1, 1));
    assert_eq!(data.get_entities().len(), 2);
    data.change_entities(Vec::new());
    assert_eq!(data.get_entities().len(), 0);
}

#[test]
fn time_ticks_by_one() {
    let mut data = Data::new();
    data.add_one_time();
    data.add_one_time();
    assert_eq!(data.get_time(), 2);
}

#[test]
fn set_level_loads_the_roster() {
    let mut data = Data::new();
    let level = Level::new()
        .level_type(LevelType::Game)
        .number(1)
        .entities(vec![Entity::new_wall(0, 0, 10, 1)])
        .build()
        .unwrap();
    data.set_level(level);
    assert_eq!(data.get_level().get_level_number(), 1);
    assert_eq!(data.get_level().get_level_type(), LevelType::Game);
    assert_eq!(data.get_entities().len(), 1);
    assert_eq!(data.get_entities()[0].get_rectangle(), Rectangle::new(0, 0, 10, 1));
    // Switching to the level the game stands on changes nothing.
    let same = Level::new()
        .level_type(LevelType::Game)
        .number(1)
        .entities(Vec::new())
        .build()
        .unwrap();
    data.add_entity(Entity::new_wall(2, 2, 1, 1));
    data.set_level(same);
    assert_eq!(data.get_entities().len(), 2);
}

#[test]
fn entities_act_gives_each_entity_one_turn_in_order() {
    // A wall, a mover and another wall: afterwards the roster holds the
    // same three entities at the same indices; only the mover stepped.
    // At time 0 on level 1 the mover at (7, 7) draws 2401 / 10^4, the
    // lowest quartile, and steps down.
    let mut data = Data::new();
    data.add_entity(Entity::new_wall(1, 1, 1, 1));
    data.add_entity(mover(7, 7));
    data.add_entity(Entity::new_wall(20, 20, 1, 1));
    data.entities_act();
    assert_eq!(data.get_entities().len(), 3);
    assert_eq!(data.get_entities()[0].get_rectangle(), Rectangle::new(1, 1, 1, 1));
    assert!(data.get_entities()[0].get_abilities().can_not_move());
    assert_eq!(data.get_entities()[1].get_rectangle(), Rectangle::new(7, 8, 1, 1));
    assert!(data.get_entities()[1].get_abilities().can_move());
    assert_eq!(data.get_entities()[2].get_rectangle(), Rectangle::new(20, 20, 1, 1));
    // The tick itself does not advance the counter.
    assert_eq!(data.get_time(), 0);
}

#[test]
fn entities_act_blocked_mover_stays() {
    let mut data = Data::new();
    data.add_entity(mover(7, 7));
    data.add_entity(Entity::new_wall(7, 8, 1, 1));
    data.entities_act();
    assert_eq!(data.get_entities()[0].get_rectangle(), Rectangle::new(7, 7, 1, 1));
}

#[test]
fn entities_act_mover_blocked_by_player() {
    let mut data = Data::new();
    data.set_player(Entity::new_player(7, 8));
    data.add_entity(mover(7, 7));
    data.entities_act();
    assert_eq!(data.get_entities()[0].get_rectangle(), Rectangle::new(7, 7, 1, 1));
}

#[test]
fn move_world_forward_ticks_and_acts() {
    let mut data = Data::new();
    data.add_entity(mover(7, 7));
    move_world_forward(&mut data);
    assert_eq!(data.get_time(), 1);
    // At time 1 on level 1 the mover at (7, 7) draws 316932 / 10^6,
    // the second quartile, and steps up.
    assert_eq!(data.get_entities()[0].get_rectangle(), Rectangle::new(7, 6, 1, 1));
}

#[test]
fn player_moves_left_when_unobstructed() {
    // Player at (5, 5) attempts MoveLeft with nothing at (4, 5): the
    // player moves there, the counter becomes 1, and the Move-capable
    // entity attempts its own step.
    let mut data = Data::new();
    data.add_entity(mover(7, 7));
    PlayerAction::MoveLeft.perform_action(&mut data);
    assert_eq!(data.get_player().get_rectangle(), Rectangle::new(4, 5, 1, 1));
    assert_eq!(data.get_time(), 1);
    assert_eq!(data.get_entities()[0].get_rectangle(), Rectangle::new(7, 6, 1, 1));
}

#[test]
fn blocked_player_move_still_costs_a_turn() {
    // A wall occupies (4, 5); the player attempts MoveLeft, stays at
    // (5, 5), and the turn counter still increments by exactly one.
    let mut data = Data::new();
    data.add_entity(Entity::new_wall(4, 5, 1, 1));
    PlayerAction::MoveLeft.perform_action(&mut data);
    assert_eq!(data.get_player().get_rectangle(), Rectangle::new(5, 5, 1, 1));
    assert_eq!(data.get_time(), 1);
}

#[test]
fn physical_blocker_cancels_the_move_but_not_the_turn() {
    let mut data = Data::new();
    let blocker = Entity::new()
        .set_xy(4, 5)
        .set_abilities(vec![Ability::Physical])
        .build()
        .unwrap();
    data.add_entity(blocker);
    PlayerAction::MoveLeft.perform_action(&mut data);
    assert_eq!(data.get_player().get_rectangle(), Rectangle::new(5, 5, 1, 1));
    assert_eq!(data.get_time(), 1);
}

#[test]
fn all_four_movement_actions() {
    let mut data = Data::new();
    PlayerAction::MoveRight.perform_action(&mut data);
    assert_eq!(data.get_player().get_position(), Point::new(6, 5));
    PlayerAction::MoveUp.perform_action(&mut data);
    assert_eq!(data.get_player().get_position(), Point::new(6, 4));
    PlayerAction::MoveDown.perform_action(&mut data);
    assert_eq!(data.get_player().get_position(), Point::new(6, 5));
    PlayerAction::MoveLeft.perform_action(&mut data);
    assert_eq!(data.get_player().get_position(), Point::new(5, 5));
    assert_eq!(data.get_time(), 4);
}

#[test]
fn inventory_and_settings_do_nothing_yet() {
    let mut data = Data::new();
    PlayerAction::Inventory.perform_action(&mut data);
    PlayerAction::Settings.perform_action(&mut data);
    assert_eq!(data.get_time(), 0);
    assert_eq!(data.get_player().get_position(), Point::new(5, 5));
}

#[test]
fn key_codes_drive_the_bound_actions() {
    let mut data = Data::new();
    handle_key_code(KEY_D, &mut data);
    assert_eq!(data.get_player().get_position(), Point::new(6, 5));
    assert_eq!(data.get_time(), 1);
    handle_key_code(KEY_W, &mut data);
    assert_eq!(data.get_player().get_position(), Point::new(6, 4));
    handle_key_code(KEY_S, &mut data);
    handle_key_code(KEY_A, &mut data);
    assert_eq!(data.get_player().get_position(), Point::new(5, 5));
    assert_eq!(data.get_time(), 4);
}

#[test]
fn unbound_keys_do_nothing() {
    let mut data = Data::new();
    handle_key_code(120, &mut data);
    assert_eq!(data.get_player().get_position(), Point::new(5, 5));
    assert_eq!(data.get_time(), 0);
}

#[test]
fn first_binding_match_wins() {
    let mut data = Data::new();
    // Bind the same key twice: the first binding decides.
    data.settings.bindings = vec![(KEY_A, PlayerAction::MoveRight), (KEY_A, PlayerAction::MoveLeft)];
    handle_key_code(KEY_A, &mut data);
    assert_eq!(data.get_player().get_position(), Point::new(6, 5));
}
