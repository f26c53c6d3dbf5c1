//! Stores data that is manipulated or read in other parts of the
//! program: the player, the live roster of non-player entities, the
//! world map, the turn counter and the key-binding settings.

use vstd::prelude::*;

use crate::entity::{spec_entity_like, Ability, Entity};
use crate::events::PlayerAction;
use crate::helper::{Builder, BuilderError};
use crate::maps::{spec_is_mover, spec_is_wall, Level, LevelType, WorldMap};
use crate::math::Rectangle;
use crate::random::{
    lemma_randomness_of_wf, lemma_randomness_with_of_wf, norm_from, pow10_i128, randomness_of,
    randomness_with_of, Randomness,
};

verus! {

/// The key code of the letter a, the default binding for moving left.
pub const KEY_A: i32 = 97;

/// The key code of the letter d, the default binding for moving right.
pub const KEY_D: i32 = 100;

/// The key code of the letter s, the default binding for moving down.
pub const KEY_S: i32 = 115;

/// The key code of the letter w, the default binding for moving up.
pub const KEY_W: i32 = 119;

/// The bindings a fresh Settings starts from: wasd movement.
pub open spec fn spec_default_bindings() -> Seq<(i32, PlayerAction)> {
    seq![
        (KEY_A, PlayerAction::MoveLeft),
        (KEY_D, PlayerAction::MoveRight),
        (KEY_S, PlayerAction::MoveDown),
        (KEY_W, PlayerAction::MoveUp),
    ]
}

/// True iff some entity of the roster stands in the way of the given
/// rectangle.
pub open spec fn spec_roster_hit(objs: Seq<Entity>, position: Rectangle) -> bool {
    exists|i: int| 0 <= i < objs.len() && objs[i].placement.spec_collides(position)
}

/// The rectangle an entity's turn aims at: its placement shifted one
/// tile in the direction picked by the quartile of the pseudo-random
/// value drawn from the turn counter, the level number and the product
/// of the entity's coordinates.
pub open spec fn spec_turn_candidate(e: Entity, time: u32, level_number: i32) -> Rectangle {
    let r = randomness_with_of(
        time,
        level_number,
        ((e.placement.point.x as int) * (e.placement.point.y as int)) as i32,
    );
    if r.spec_exceeds_quarters(3) {
        e.placement.spec_moved(1, 0)
    } else if r.spec_exceeds_quarters(2) {
        e.placement.spec_moved(-1, 0)
    } else if r.spec_exceeds_quarters(1) {
        e.placement.spec_moved(0, -1)
    } else {
        e.placement.spec_moved(0, 1)
    }
}

/// What one entity's turn does to it, given the other entities of the
/// roster and the player: an entity without the Move ability stays put;
/// one with it steps onto its candidate rectangle unless the player or
/// any other entity already touches that rectangle, in which case the
/// move is silently discarded.
pub open spec fn spec_turn_result(
    e: Entity,
    others: Seq<Entity>,
    player: Entity,
    time: u32,
    level_number: i32,
) -> Entity {
    if !e.abilities.spec_has(Ability::Move) {
        e
    } else {
        let cand = spec_turn_candidate(e, time, level_number);
        if player.placement.spec_collides(cand) || spec_roster_hit(others, cand) {
            e
        } else {
            e.spec_with_placement(cand)
        }
    }
}

/// The roster after the entities from index `i` onward each take one
/// turn, in order.  While an entity acts it is taken out of the roster,
/// so it never collides with itself; afterwards it returns to its own
/// place, so the roster's relative order never changes.
pub open spec fn spec_tick_from(
    objs: Seq<Entity>,
    i: int,
    player: Entity,
    time: u32,
    level_number: i32,
) -> Seq<Entity>
    decreases objs.len() - i,
{
    if i < 0 || i >= objs.len() {
        objs
    } else {
        let acted = spec_turn_result(objs[i], objs.remove(i), player, time, level_number);
        spec_tick_from(objs.update(i, acted), i + 1, player, time, level_number)
    }
}

/// A structure that stores data for tiny RPG: the world state.
#[derive(Debug)]
pub struct Data {
    /// The player entity.
    pub player: Entity,
    /// The live roster of non-player entities on the current level.
    pub objects: Vec<Entity>,
    /// The world map: the current level and the visited ones.
    pub map: WorldMap,
    /// The key bindings.
    pub settings: Settings,
    /// The turn counter; never resets, never decrements.
    pub time: u32,
}

impl Data {
    /// The number of the level the game currently stands on.
    pub open spec fn spec_level_number(self) -> i32 {
        self.map.current_level.level_number
    }

    /// The seed arithmetic of the pseudo-randomness stays in range for
    /// the current turn counter and level number.
    pub open spec fn spec_rand_wf(self) -> bool {
        &&& i32::MIN as int <= 10 * (self.time as int) + (self.spec_level_number() as int)
        &&& 10 * (self.time as int) + (self.spec_level_number() as int) <= i32::MAX as int
    }

    /// Everything one resolved world turn relies on: the turn counter
    /// can still grow, the seed arithmetic stays in range after it does,
    /// the player stands on a well-formed rectangle, and every roster
    /// entity stands on a well-formed rectangle with one tile of slack
    /// and coordinates whose product the randomness arithmetic can take.
    pub open spec fn spec_turn_ready(self) -> bool {
        &&& self.time < u32::MAX
        &&& i32::MIN as int <= 10 * (self.time as int + 1) + (self.spec_level_number() as int)
        &&& 10 * (self.time as int + 1) + (self.spec_level_number() as int) <= i32::MAX as int
        &&& self.player.placement.wf()
        &&& forall|i: int|
            0 <= i < self.objects@.len() ==> (#[trigger] self.objects@[i]).placement.wf_margin()
        &&& forall|i: int|
            0 <= i < self.objects@.len() ==> -46340 <= ((
            #[trigger] self.objects@[i]).placement.point.x as int) * (
            self.objects@[i].placement.point.y as int)
        &&& forall|i: int|
            0 <= i < self.objects@.len() ==> ((#[trigger] self.objects@[i]).placement.point.x
                as int) * (self.objects@[i].placement.point.y as int) <= 46340
    }

    /// Creates a new instance of Data: the player at (5, 5), an empty
    /// roster, my_map, default wasd bindings and the turn counter at
    /// zero.
    pub fn new() -> (r: Data)
        ensures
            r.player.placement == (Rectangle {
                point: crate::math::Point { x: 5, y: 5 },
                dimension: crate::math::Dimension { width: 1, height: 1 },
            }),
            r.player.abilities@ == Seq::<Ability>::empty(),
            r.objects@.len() == 0,
            r.map.current_level.level_type == LevelType::MainMenu,
            r.map.current_level.level_number == 1,
            r.map.current_level.level_entities@.len() == 6,
            spec_is_mover(r.map.current_level.level_entities@[0], 7, 7),
            spec_is_mover(r.map.current_level.level_entities@[1], 9, 9),
            spec_is_wall(r.map.current_level.level_entities@[2], 0, 0, 50, 1),
            spec_is_wall(r.map.current_level.level_entities@[3], 0, 1, 1, 48),
            spec_is_wall(r.map.current_level.level_entities@[4], 49, 1, 1, 48),
            spec_is_wall(r.map.current_level.level_entities@[5], 0, 49, 50, 1),
            r.map.modified_levels@.len() == 0,
            r.settings.bindings@ == spec_default_bindings(),
            r.time == 0,
    {
        Data {
            player: Entity::new_player(5, 5),
            objects: Vec::new(),
            map: WorldMap::my_map(),
            settings: Settings::new().build().unwrap(),
            time: 0,
        }
    }

    /// Takes a level and, when the switch really changes level, gets
    /// the live roster from it: the roster becomes a copy of the new
    /// current level's entities.
    pub fn set_level(&mut self, level: Level)
        ensures
            crate::maps::spec_change_level_step(
                old(self).map,
                level,
                final(self).map,
                !level.spec_key_eq(old(self).map.current_level),
            ),
            level.spec_key_eq(old(self).map.current_level) ==> final(self).objects
                == old(self).objects,
            !level.spec_key_eq(old(self).map.current_level) ==> {
                &&& final(self).objects@.len() == final(self).map.current_level.level_entities@.len()
                &&& forall|i: int|
                    0 <= i < final(self).objects@.len() ==> spec_entity_like(
                        #[trigger] final(self).objects@[i],
                        final(self).map.current_level.level_entities@[i],
                    )
            },
            final(self).player == old(self).player,
            final(self).settings == old(self).settings,
            final(self).time == old(self).time,
    {
        if self.map.change_level(level) {
            let cloned = self.map.get_current_level().get_level_entities().clone();
            proof {
                assert forall|i: int| 0 <= i < cloned@.len() implies spec_entity_like(
                    #[trigger] cloned@[i],
                    self.map.current_level.level_entities@[i],
                ) by {
                    assert(vstd::pervasive::cloned::<Entity>(
                        self.map.current_level.level_entities@[i],
                        cloned@[i],
                    ));
                }
            }
            self.objects = cloned;
        }
    }

    /// Returns Some of the first non-player entity whose placement
    /// collides with the position, scanning the roster in order; None
    /// when none collides.  The player is excluded.
    pub fn check_position(&self, position: Rectangle) -> (r: Option<&Entity>)
        requires
            position.wf(),
            forall|i: int|
                0 <= i < self.objects@.len() ==> (#[trigger] self.objects@[i]).placement.wf(),
        ensures
            match r {
                Some(e) => exists|i: int|
                    {
                        &&& 0 <= i < self.objects@.len()
                        &&& (#[trigger] self.objects@[i]).placement.spec_collides(position)
                        &&& *e == self.objects@[i]
                        &&& forall|j: int|
                            0 <= j < i ==> !self.objects@[j].placement.spec_collides(position)
                    },
                None => !spec_roster_hit(self.objects@, position),
            },
    {
        let mut i: usize = 0;
        while i < self.objects.len()
            invariant
                i <= self.objects.len(),
                position.wf(),
                forall|j: int|
                    0 <= j < self.objects@.len() ==> (#[trigger] self.objects@[j]).placement.wf(),
                forall|j: int|
                    0 <= j < i ==> !(#[trigger] self.objects@[j]).placement.spec_collides(position),
            decreases self.objects.len() - i,
        {
            if self.objects[i].get_rectangle().is_colliding(position) {
                return Some(&self.objects[i]);
            }
            i = i + 1;
        }
        None
    }

    /// Returns a reference to the player if they are at the position.
    pub fn check_position_player(&self, position: Rectangle) -> (r: Option<&Entity>)
        requires
            position.wf(),
            self.player.placement.wf(),
        ensures
            match r {
                Some(e) => self.player.placement.spec_collides(position) && *e == self.player,
                None => !self.player.placement.spec_collides(position),
            },
    {
        if self.get_player().get_rectangle().is_not_colliding(position) {
            return None;
        }
        Some(self.get_player())
    }

    /// Returns the entity at the position, the player first, else the
    /// first colliding roster entity, else None.
    pub fn check_position_both(&self, position: Rectangle) -> (r: Option<&Entity>)
        requires
            position.wf(),
            self.player.placement.wf(),
            forall|i: int|
                0 <= i < self.objects@.len() ==> (#[trigger] self.objects@[i]).placement.wf(),
        ensures
            r is Some <==> (self.player.placement.spec_collides(position) || spec_roster_hit(
                self.objects@,
                position,
            )),
            self.player.placement.spec_collides(position) ==> r == Some(&self.player),
            !self.player.placement.spec_collides(position) ==> match r {
                Some(e) => exists|i: int|
                    {
                        &&& 0 <= i < self.objects@.len()
                        &&& (#[trigger] self.objects@[i]).placement.spec_collides(position)
                        &&& *e == self.objects@[i]
                        &&& forall|j: int|
                            0 <= j < i ==> !self.objects@[j].placement.spec_collides(position)
                    },
                None => !spec_roster_hit(self.objects@, position),
            },
    {
        match self.check_position_player(position) {
            Some(player) => Some(player),
            None => match self.check_position(position) {
                Some(entity) => Some(entity),
                None => None,
            },
        }
    }

    /// Sets the player to a given Entity.
    pub fn set_player(&mut self, player: Entity)
        ensures
            final(self).player == player,
            final(self).objects == old(self).objects,
            final(self).map == old(self).map,
            final(self).settings == old(self).settings,
            final(self).time == old(self).time,
    {
        self.player = player;
    }

    /// Returns a reference to the player.
    pub fn get_player(&self) -> (r: &Entity)
        ensures
            r == self.player,
    {
        &self.player
    }

    /// Returns a mutable reference to the player.
    pub fn get_mut_player(&mut self) -> (r: &mut Entity)
        ensures
            *r == old(self).player,
            final(self).player == *final(r),
            final(self).objects == old(self).objects,
            final(self).map == old(self).map,
            final(self).settings == old(self).settings,
            final(self).time == old(self).time,
    {
        &mut self.player
    }

    /// Returns a reference to settings.
    pub fn get_settings(&self) -> (r: &Settings)
        ensures
            r == self.settings,
    {
        &self.settings
    }

    /// Adds a given Entity to the list of entities.
    pub fn add_entity(&mut self, entity: Entity)
        ensures
            final(self).objects@ == old(self).objects@.push(entity),
            final(self).player == old(self).player,
            final(self).map == old(self).map,
            final(self).settings == old(self).settings,
            final(self).time == old(self).time,
    {
        self.objects.push(entity);
    }

    /// Goes through the list of entities and has each perform its
    /// action: every entity gets exactly one turn, in roster order, and
    /// returns to its own place in the roster.
    pub fn entities_act(&mut self)
        requires
            old(self).spec_rand_wf(),
            old(self).player.placement.wf(),
            forall|i: int|
                0 <= i < old(self).objects@.len() ==> (
                #[trigger] old(self).objects@[i]).placement.wf_margin(),
            forall|i: int|
                0 <= i < old(self).objects@.len() ==> -46340 <= ((
                #[trigger] old(self).objects@[i]).placement.point.x as int) * (
                old(self).objects@[i].placement.point.y as int),
            forall|i: int|
                0 <= i < old(self).objects@.len() ==> ((
                #[trigger] old(self).objects@[i]).placement.point.x as int) * (
                old(self).objects@[i].placement.point.y as int) <= 46340,
        ensures
            final(self).objects@ == spec_tick_from(
                old(self).objects@,
                0,
                old(self).player,
                old(self).time,
                old(self).spec_level_number(),
            ),
            final(self).player == old(self).player,
            final(self).map == old(self).map,
            final(self).settings == old(self).settings,
            final(self).time == old(self).time,
    {
        let n = self.objects.len();
        let mut i: usize = 0;
        while i < n
            invariant
                i <= n,
                self.objects@.len() == n,
                n == old(self).objects@.len(),
                self.player == old(self).player,
                self.map == old(self).map,
                self.settings == old(self).settings,
                self.time == old(self).time,
                self.spec_rand_wf(),
                self.player.placement.wf(),
                spec_tick_from(
                    old(self).objects@,
                    0,
                    old(self).player,
                    old(self).time,
                    old(self).spec_level_number(),
                ) == spec_tick_from(
                    self.objects@,
                    i as int,
                    old(self).player,
                    old(self).time,
                    old(self).spec_level_number(),
                ),
                forall|j: int| i <= j < n ==> self.objects@[j] == old(self).objects@[j],
                forall|j: int|
                    0 <= j < n ==> (#[trigger] self.objects@[j]).placement.wf(),
                forall|j: int|
                    0 <= j < n ==> (#[trigger] old(self).objects@[j]).placement.wf_margin(),
                forall|j: int|
                    0 <= j < n ==> -46340 <= ((
                    #[trigger] old(self).objects@[j]).placement.point.x as int) * (
                    old(self).objects@[j].placement.point.y as int),
                forall|j: int|
                    0 <= j < n ==> ((#[trigger] old(self).objects@[j]).placement.point.x as int) * (
                    old(self).objects@[j].placement.point.y as int) <= 46340,
            decreases n - i,
        {
            let ghost before = self.objects@;
            let mut object = self.objects.remove(i);
            object.perform_turn(self);
            proof {
                assert(object.placement.wf());
            }
            self.objects.insert(i, object);
            proof {
                assert(self.objects@ =~= before.update(
                    i as int,
                    spec_turn_result(
                        before[i as int],
                        before.remove(i as int),
                        old(self).player,
                        old(self).time,
                        old(self).spec_level_number(),
                    ),
                ));
            }
            i = i + 1;
        }
    }

    /// Gets a reference to the entities in the level.
    pub fn get_entities(&self) -> (r: &Vec<Entity>)
        ensures
            r == self.objects,
    {
        &self.objects
    }

    /// Gets a mutable reference to the entities in the level.
    pub fn get_mut_entities(&mut self) -> (r: &mut Vec<Entity>)
        ensures
            *r == old(self).objects,
            final(self).objects == *final(r),
            final(self).player == old(self).player,
            final(self).map == old(self).map,
            final(self).settings == old(self).settings,
            final(self).time == old(self).time,
    {
        &mut self.objects
    }

    /// Changes out the entities in the level.  Useful for room changes.
    pub fn change_entities(&mut self, entities: Vec<Entity>)
        ensures
            final(self).objects == entities,
            final(self).player == old(self).player,
            final(self).map == old(self).map,
            final(self).settings == old(self).settings,
            final(self).time == old(self).time,
    {
        self.objects = entities;
    }

    /// Changes the time by one.  Time is the turn counter.
    pub fn add_one_time(&mut self)
        requires
            old(self).time < u32::MAX,
        ensures
            final(self).time == old(self).time + 1,
            final(self).player == old(self).player,
            final(self).objects == old(self).objects,
            final(self).map == old(self).map,
            final(self).settings == old(self).settings,
    {
        self.time = self.time + 1;
    }

    /// Gets the game time.  Time is the turn counter.
    pub fn get_time(&self) -> (r: u32)
        ensures
            r == self.time,
    {
        self.time
    }

    /// Returns a reference to the current level.
    pub fn get_level(&self) -> (r: &Level)
        ensures
            r == self.map.current_level,
    {
        self.map.get_current_level()
    }

    /// Tries to give the program randomness based on game events: a
    /// deterministic value derived from the turn counter and the level
    /// number, normalized to magnitude at most one.
    pub fn get_randomness(&self) -> (r: Randomness)
        requires
            self.spec_rand_wf(),
        ensures
            r == randomness_of(self.time, self.spec_level_number()),
            r.wf(),
    {
        proof {
            lemma_randomness_of_wf(self.time, self.spec_level_number());
        }
        let time = self.get_time();
        let level_number = self.get_level().get_level_number();
        let s: i64 = 10 * (time as i64) + (level_number as i64);
        let v: i128 = (s as i128) * ((s as i128) + (time as i128));
        proof {
            assert(-0x1_0000_0000_0000_0000 <= (s as int) * ((s as int) + (time as int))
                <= 0x1_0000_0000_0000_0000) by (nonlinear_arith)
                requires
                    -0x8000_0000 <= s as int <= 0x8000_0000,
                    0 <= time as int,
                    (time as int) < 0x1_0000_0000,
            ;
        }
        let norm = norm_from(v, 0, 1);
        Randomness { num: v, pow: norm.0 }
    }

    /// Same as randomness but with an added number to make things
    /// different: the value is multiplied by the square of the number
    /// and normalized again.
    pub fn get_randomness_with(&self, number: i32) -> (r: Randomness)
        requires
            self.spec_rand_wf(),
            (number as int) * (number as int) <= i32::MAX as int,
        ensures
            r == randomness_with_of(self.time, self.spec_level_number(), number),
            r.wf(),
    {
        proof {
            lemma_randomness_of_wf(self.time, self.spec_level_number());
            lemma_randomness_with_of_wf(self.time, self.spec_level_number(), number);
            assert(0 <= (number as int) * (number as int)) by (nonlinear_arith);
        }
        let base = self.get_randomness();
        let nn: i32 = number * number;
        proof {
            assert((base.num as int) * (nn as int) == (base.num as int) * (number as int) * (
            number as int)) by (nonlinear_arith)
                requires
                    nn as int == (number as int) * (number as int),
            ;
            assert(-0x8000_0000_0000_0000_0000_0000 <= (base.num as int) * (nn as int)
                <= 0x8000_0000_0000_0000_0000_0000) by (nonlinear_arith)
                requires
                    -0x1_0000_0000_0000_0000 <= base.num as int <= 0x1_0000_0000_0000_0000,
                    0 <= nn as int <= 0x8000_0000,
            ;
        }
        let num2: i128 = base.num * (nn as i128);
        let p1 = pow10_i128(base.pow);
        let norm = norm_from(num2, base.pow, p1);
        Randomness { num: num2, pow: norm.0 }
    }
}

/// The placement `b` is at most one tile away from `a`: the same
/// rectangle, or that rectangle shifted one tile in one of the four
/// directions.
pub open spec fn spec_one_step_at_most(a: Rectangle, b: Rectangle) -> bool {
    ||| b == a
    ||| b == a.spec_moved(1, 0)
    ||| b == a.spec_moved(-1, 0)
    ||| b == a.spec_moved(0, -1)
    ||| b == a.spec_moved(0, 1)
}

/// Two entities that differ at most in where they stand: every field
/// but the placement's anchor point agrees.
pub open spec fn spec_same_identity(a: Entity, b: Entity) -> bool {
    &&& a.skin == b.skin
    &&& a.stats == b.stats
    &&& a.abilities == b.abilities
    &&& a.inventory == b.inventory
    &&& a.alignment == b.alignment
    &&& a.placement.dimension == b.placement.dimension
}

proof fn lemma_tick_from_preserves_roster(
    objs: Seq<Entity>,
    i: int,
    player: Entity,
    time: u32,
    level_number: i32,
)
    requires
        0 <= i <= objs.len(),
    ensures
        spec_tick_from(objs, i, player, time, level_number).len() == objs.len(),
        forall|j: int|
            0 <= j < i ==> spec_tick_from(objs, i, player, time, level_number)[j] == objs[j],
        forall|j: int|
            i <= j < objs.len() ==> spec_same_identity(
                #[trigger] spec_tick_from(objs, i, player, time, level_number)[j],
                objs[j],
            ) && spec_one_step_at_most(
                objs[j].placement,
                spec_tick_from(objs, i, player, time, level_number)[j].placement,
            ),
    decreases objs.len() - i,
{
    if i < objs.len() {
        let acted = spec_turn_result(objs[i], objs.remove(i), player, time, level_number);
        lemma_tick_from_preserves_roster(objs.update(i, acted), i + 1, player, time, level_number);
    }
}

/// One world tick touches every roster entity exactly once, in roster
/// order, and leaves the roster's relative order unchanged: afterwards
/// the entry at each index is the same entity - same looks, stats,
/// abilities, inventory, alignment and extent - standing at most one
/// tile from where it stood, even though entities with the Move ability
/// may have changed position.
pub proof fn lemma_tick_preserves_roster(
    objs: Seq<Entity>,
    player: Entity,
    time: u32,
    level_number: i32,
)
    ensures
        spec_tick_from(objs, 0, player, time, level_number).len() == objs.len(),
        forall|j: int|
            0 <= j < objs.len() ==> spec_same_identity(
                #[trigger] spec_tick_from(objs, 0, player, time, level_number)[j],
                objs[j],
            ) && spec_one_step_at_most(
                objs[j].placement,
                spec_tick_from(objs, 0, player, time, level_number)[j].placement,
            ),
{
    lemma_tick_from_preserves_roster(objs, 0, player, time, level_number);
}

/// Builds the Settings struct.
///
/// Settings are things that can be changed in game or on the main menu.
#[derive(Debug)]
pub struct SettingsBuilder {
    /// The bindings the built Settings will hold.
    pub bindings: Vec<(i32, PlayerAction)>,
}

impl Builder for SettingsBuilder {
    type product = Settings;

    open spec fn spec_is_new(self) -> bool {
        self.bindings@ == spec_default_bindings()
    }

    open spec fn spec_build_ok(self) -> bool {
        true
    }

    open spec fn spec_built(self) -> Settings {
        Settings { bindings: self.bindings }
    }

    /// Creates a new instance of SettingsBuilder with the default wasd
    /// movement bindings.
    fn new() -> (r: SettingsBuilder) {
        let bindings = vec![
            (KEY_A, PlayerAction::MoveLeft),
            (KEY_D, PlayerAction::MoveRight),
            (KEY_S, PlayerAction::MoveDown),
            (KEY_W, PlayerAction::MoveUp),
        ];
        proof {
            assert(bindings@ =~= spec_default_bindings());
        }
        SettingsBuilder { bindings }
    }

    /// Creates an instance of Settings from the SettingsBuilder.
    fn build(self) -> (r: Result<Settings, BuilderError>) {
        Ok(Settings { bindings: self.bindings })
    }
}

/// Settings that can be changed in game or on the main menu: the
/// ordered list of key bindings, looked up first match first.
#[derive(Debug)]
pub struct Settings {
    /// Pairs of key code and the action the key triggers.
    pub bindings: Vec<(i32, PlayerAction)>,
}

impl Settings {
    /// Creates an instance of SettingsBuilder to help build an instance
    /// of Settings.
    pub fn new() -> (r: SettingsBuilder)
        ensures
            r.spec_is_new(),
    {
        SettingsBuilder::new()
    }

    /// Returns a reference to the bindings attribute: a list of pairs
    /// of key code followed by action.
    pub fn get_bindings(&self) -> (r: &Vec<(i32, PlayerAction)>)
        ensures
            r == self.bindings,
    {
        &self.bindings
    }
}

} // verus!
