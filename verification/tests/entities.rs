use tiny_rpg::entity::{Ability, Alignment, Entity, Skin};
use tiny_rpg::helper::Builder;
use tiny_rpg::maps::{LevelId, LevelType};
use tiny_rpg::math::{Dimension, Point, Rectangle};

#[test]
fn builder_needs_a_position() {
    let result = Entity::new().build();
    assert!(result.is_err());
    assert_eq!(
        result.unwrap_err().message(),
        "Could not build Entity, no position set. use set_position or set_xy methods to set position.",
    );
}

#[test]
fn builder_defaults() {
    let e = Entity::new().set_xy(3, 4).build().unwrap();
    assert_eq!(e.get_rectangle(), Rectangle::new(3, 4, 1, 1));
    assert_eq!(e.get_skin(), Skin::RGB(255, 255, 0));
    assert_eq!(e.get_abilities().0.len(), 0);
    assert!(e.alignment.is_none());
    assert!(e.inventory.is_none());
}

#[test]
fn builder_setters() {
    let e = Entity::new()
        .set_position(Point::new(1, 2))
        .set_size(3, 4)
        .build()
        .unwrap();
    assert_eq!(e.get_rectangle(), Rectangle::new(1, 2, 3, 4));
    let e2 = Entity::new()
        .set_xy(0, 0)
        .set_dimension(Dimension::new(9, 9))
        .build()
        .unwrap();
    assert_eq!(e2.get_size(), Dimension::new(9, 9));
}

#[test]
fn premade_player() {
    let p = Entity::new_player(5, 5);
    assert_eq!(p.get_rectangle(), Rectangle::new(5, 5, 1, 1));
    assert_eq!(p.get_skin(), Skin::RGB(255, 0, 0));
    assert_eq!(p.alignment, Some(Alignment::Good));
    assert!(p.get_abilities().can_not_move());
}

#[test]
fn premade_slimer() {
    let s = Entity::new_slimer_entity(2, 3);
    assert_eq!(s.get_rectangle(), Rectangle::new(2, 3, 1, 1));
    assert_eq!(s.get_skin(), Skin::RGB(30, 215, 30));
    assert_eq!(s.alignment, Some(Alignment::Evil));
}

#[test]
fn premade_wall_argument_order() {
    // The third argument of new_wall lands in the rectangle's width and
    // the fourth in its height.
    let w = Entity::new_wall(1, 2, 5, 7);
    assert_eq!(w.get_rectangle(), Rectangle::new(1, 2, 5, 7));
    assert_eq!(w.get_skin(), Skin::RGB(90, 90, 90));
    assert_eq!(w.get_abilities().0.len(), 0);
    assert!(w.alignment.is_none());
}

#[test]
fn abilities_deduplicate() {
    let e = Entity::new()
        .set_xy(0, 0)
        .set_abilities(vec![Ability::Move, Ability::Move, Ability::Speak])
        .build()
        .unwrap();
    assert_eq!(e.get_abilities().0.len(), 2);
    assert!(e.get_abilities().can_move());
    assert!(e.get_abilities().can_speak());
}

#[test]
fn add_ability_is_a_set() {
    let mut e = Entity::new().set_xy(0, 0).build().unwrap();
    e.abilities.add_ability(Ability::Temporary(3));
    e.abilities.add_ability(Ability::Temporary(3));
    assert_eq!(e.get_abilities().0.len(), 1);
    e.abilities.add_ability(Ability::Temporary(4));
    assert_eq!(e.get_abilities().0.len(), 2);
}

#[test]
fn warp_abilities_with_different_targets_coexist() {
    let here = LevelId { level_type: LevelType::Game, level_number: 1 };
    let there = LevelId { level_type: LevelType::Game, level_number: 2 };
    let mut e = Entity::new().set_xy(0, 0).build().unwrap();
    e.abilities.add_ability(Ability::Warp(here, Point::new(1, 1)));
    e.abilities.add_ability(Ability::Warp(there, Point::new(1, 1)));
    assert_eq!(e.get_abilities().0.len(), 2);
    // An exact duplicate, target level and point both equal, is dropped.
    e.abilities.add_ability(Ability::Warp(here, Point::new(1, 1)));
    assert_eq!(e.get_abilities().0.len(), 2);
}

#[test]
fn is_warp_finds_the_first_warp() {
    let here = LevelId { level_type: LevelType::Game, level_number: 1 };
    let there = LevelId { level_type: LevelType::Settings, level_number: 9 };
    let e = Entity::new()
        .set_xy(0, 0)
        .set_abilities(vec![
            Ability::Move,
            Ability::Warp(here, Point::new(4, 4)),
            Ability::Warp(there, Point::new(8, 8)),
        ])
        .build()
        .unwrap();
    assert_eq!(e.get_abilities().is_warp(), Some((here, Point::new(4, 4))));
    let plain = Entity::new_wall(0, 0, 1, 1);
    assert_eq!(plain.get_abilities().is_warp(), None);
}

#[test]
fn speak_and_move_checks() {
    let mover = Entity::new()
        .set_xy(0, 0)
        .set_abilities(vec![Ability::Move])
        .build()
        .unwrap();
    assert!(mover.get_abilities().can_move());
    assert!(!mover.get_abilities().can_not_move());
    assert!(mover.get_abilities().can_not_speak());
    assert!(!mover.get_abilities().can_speak());
}

#[test]
fn candidate_moves_do_not_mutate() {
    let e = Entity::new().set_xy(5, 5).build().unwrap();
    assert_eq!(e.get_move_left(), Rectangle::new(4, 5, 1, 1));
    assert_eq!(e.get_move_right(), Rectangle::new(6, 5, 1, 1));
    assert_eq!(e.get_move_up(), Rectangle::new(5, 4, 1, 1));
    assert_eq!(e.get_move_down(), Rectangle::new(5, 6, 1, 1));
    assert_eq!(e.get_move(Point::new(2, -3)), Rectangle::new(7, 2, 1, 1));
    assert_eq!(e.get_rectangle(), Rectangle::new(5, 5, 1, 1));
}

#[test]
fn committed_moves_mutate() {
    let mut e = Entity::new().set_xy(5, 5).build().unwrap();
    e.move_left();
    assert_eq!(e.get_position(), Point::new(4, 5));
    e.move_right();
    assert_eq!(e.get_position(), Point::new(5, 5));
    e.move_up();
    assert_eq!(e.get_position(), Point::new(5, 4));
    e.move_down();
    assert_eq!(e.get_position(), Point::new(5, 5));
}

#[test]
fn skin_rgb_accessors() {
    let s = Skin::RGB(10, 20, 30);
    assert_eq!(s.get_rgb(), Ok(Skin::RGB(10, 20, 30)));
    assert_eq!(s.get_rgb_colors(), Ok((10, 20, 30)));
}

#[test]
fn entity_clone_is_like_the_original() {
    let e = Entity::new()
        .set_xy(1, 2)
        .set_abilities(vec![Ability::Move, Ability::Physical])
        .build()
        .unwrap();
    let c = e.clone();
    assert_eq!(c.get_rectangle(), e.get_rectangle());
    assert_eq!(c.get_skin(), e.get_skin());
    assert_eq!(c.get_abilities().0, e.get_abilities().0);
    assert_eq!(c.alignment, e.alignment);
}
