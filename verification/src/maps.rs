//! Things related to levels and the world map go here: a current level
//! plus the set of "modified" (visited or edited) levels, with
//! level-switch semantics that preserve edits.

use vstd::prelude::*;

use crate::entity::{seq_has_ability, spec_ability_add, spec_ability_add_all, spec_entity_like, Ability, Entity, Skin};
use crate::helper::{Builder, BuilderError};
use crate::math::{Dimension, Point, Rectangle};
use vstd::pervasive::VecAdditionalExecFns;

verus! {

/// The LevelType of the game.  Used mostly to help keep the game levels
/// ordered without having to dictate menus or other things as level
/// numbers.
#[derive(Copy, Clone, Debug, Eq, PartialEq, Structural)]
pub enum LevelType {
    /// A MainMenu of the game.
    MainMenu,
    /// A Settings menu of the game.
    Settings,
    /// A level in the game.  Intended to be played on with enemies and
    /// more.
    Game,
}

/// What identifies a level: its type together with a number unique
/// within that type.  Two levels with the same identity count as the
/// same level, whatever entities they hold.
#[derive(Copy, Clone, Debug, Eq, PartialEq, Structural)]
pub struct LevelId {
    /// The kind of level.
    pub level_type: LevelType,
    /// The number unique within the kind.
    pub level_number: i32,
}

/// Represents a level: a LevelType, a level number that is unique for
/// the level type, and a list of the entities that fill the level's map.
#[derive(Debug)]
pub struct Level {
    /// The kind of level.
    pub level_type: LevelType,
    /// The number unique within the kind.
    pub level_number: i32,
    /// The entities the level holds at rest.
    pub level_entities: Vec<Entity>,
}

impl Level {
    /// The identity of the level: its type and number, without its
    /// contents.
    pub open spec fn spec_id(self) -> LevelId {
        LevelId { level_type: self.level_type, level_number: self.level_number }
    }

    /// Two levels count as the same when their identities agree; the
    /// entities are ignored.  This is load-bearing for level-switch
    /// deduplication.
    pub open spec fn spec_key_eq(self, other: Level) -> bool {
        self.spec_id() == other.spec_id()
    }

    /// Creates an instance of LevelBuilder to help build an instance of
    /// Level.
    pub fn new() -> (r: LevelBuilder)
        ensures
            r.spec_is_new(),
    {
        LevelBuilder::new()
    }

    /// Returns the level number.
    pub fn get_level_number(&self) -> (r: i32)
        ensures
            r == self.level_number,
    {
        self.level_number
    }

    /// Returns the level type.
    pub fn get_level_type(&self) -> (r: LevelType)
        ensures
            r == self.level_type,
    {
        self.level_type
    }

    /// Returns the level's identity: its type and number.
    pub fn get_id(&self) -> (r: LevelId)
        ensures
            r == self.spec_id(),
    {
        LevelId { level_type: self.level_type, level_number: self.level_number }
    }

    /// Returns a reference to the level's vector of entities.
    pub fn get_level_entities(&self) -> (r: &Vec<Entity>)
        ensures
            r == self.level_entities,
    {
        &self.level_entities
    }
}

impl Clone for Level {
    /// A cloned level has the same identity and entities like the
    /// original's, entry for entry.
    fn clone(&self) -> (r: Level)
        ensures
            r.level_type == self.level_type,
            r.level_number == self.level_number,
            r.level_entities@.len() == self.level_entities@.len(),
            forall|i: int|
                0 <= i < self.level_entities@.len() ==> spec_entity_like(
                    #[trigger] r.level_entities@[i],
                    self.level_entities@[i],
                ),
    {
        Level {
            level_type: self.level_type,
            level_number: self.level_number,
            level_entities: self.level_entities.clone(),
        }
    }
}

impl PartialEq for Level {
    /// Checks the level type and number for equality.  The entities are
    /// ignored.
    fn eq(&self, other: &Self) -> (r: bool) {
        self.level_type == other.level_type && self.level_number == other.level_number
    }
}

impl vstd::std_specs::cmp::PartialEqSpecImpl for Level {
    open spec fn obeys_eq_spec() -> bool {
        true
    }

    open spec fn eq_spec(&self, other: &Level) -> bool {
        self.spec_key_eq(*other)
    }
}

/// Builds an instance of Level.  Requires a set number and entities
/// list; defaults a Game LevelType.
#[derive(Debug)]
pub struct LevelBuilder {
    /// The kind of level being built; defaults to Game.
    pub level_type: LevelType,
    /// The number unique within the kind; required.
    pub number: Option<i32>,
    /// The entities the level will hold; required.
    pub entities: Option<Vec<Entity>>,
}

impl LevelBuilder {
    /// Sets the LevelType of the Level.  Default is LevelType::Game.
    pub fn set_level_type(self, level_type: LevelType) -> (r: Self)
        ensures
            r == (LevelBuilder { level_type, ..self }),
    {
        LevelBuilder { level_type, ..self }
    }

    /// Short hand for set_level_type.  Sets the level type.
    pub fn level_type(self, level_type: LevelType) -> (r: Self)
        ensures
            r == (LevelBuilder { level_type, ..self }),
    {
        self.set_level_type(level_type)
    }

    /// Sets the number of the Level.  Required to build.
    ///
    /// The number, along with the LevelType, gives the level a unique
    /// identifier and gives an order to the game's levels.
    pub fn set_number(self, number: i32) -> (r: Self)
        ensures
            r == (LevelBuilder { number: Some(number), ..self }),
    {
        LevelBuilder { number: Some(number), ..self }
    }

    /// Short hand for set_number.  Sets the number.
    pub fn number(self, number: i32) -> (r: Self)
        ensures
            r == (LevelBuilder { number: Some(number), ..self }),
    {
        self.set_number(number)
    }

    /// Sets the list of entities.  Required to build.
    ///
    /// Very few levels will require no entities.  Suggest adding the
    /// get_boundry_entities associated function from the WorldMap
    /// struct.
    pub fn set_entities(self, entities: Vec<Entity>) -> (r: Self)
        ensures
            r == (LevelBuilder { entities: Some(entities), ..self }),
    {
        LevelBuilder { entities: Some(entities), ..self }
    }

    /// Short hand for set_entities.  Sets the entities vector.
    pub fn entities(self, entities: Vec<Entity>) -> (r: Self)
        ensures
            r == (LevelBuilder { entities: Some(entities), ..self }),
    {
        self.set_entities(entities)
    }
}

impl Builder for LevelBuilder {
    type product = Level;

    open spec fn spec_is_new(self) -> bool {
        &&& self.level_type == LevelType::Game
        &&& self.number is None
        &&& self.entities is None
    }

    open spec fn spec_build_ok(self) -> bool {
        &&& self.number is Some
        &&& self.entities is Some
    }

    open spec fn spec_built(self) -> Level {
        Level {
            level_type: self.level_type,
            level_number: self.number->Some_0,
            level_entities: self.entities->Some_0,
        }
    }

    /// Creates an instance of LevelBuilder.
    fn new() -> (r: LevelBuilder) {
        LevelBuilder { level_type: LevelType::Game, number: None, entities: None }
    }

    /// Builds an instance of Level from LevelBuilder.
    ///
    /// Returns an error if the level number or entities were not set.
    fn build(self) -> (r: Result<Level, BuilderError>) {
        if self.number.is_none() {
            return Err(
                BuilderError::new("Need to include a level number, use set_level_number method."),
            );
        }
        if self.entities.is_none() {
            return Err(BuilderError::new("Need to add entities, use set_entities method."));
        }
        let number = self.number.unwrap();
        let entities = self.entities.unwrap();
        Ok(Level { level_type: self.level_type, level_number: number, level_entities: entities })
    }
}

/// True iff some level in the sequence has the given identity.
pub open spec fn seq_has_level_id(ms: Seq<Level>, id: LevelId) -> bool {
    exists|i: int| 0 <= i < ms.len() && ms[i].spec_id() == id
}

/// True iff some Game level in the sequence has the given number.
pub open spec fn spec_game_number_used(ms: Seq<Level>, n: int) -> bool {
    exists|i: int|
        0 <= i < ms.len() && ms[i].level_type == LevelType::Game && ms[i].level_number as int == n
}

/// `n` is the lowest positive Game level number that no level in the
/// sequence uses yet.
pub open spec fn spec_is_lowest_unused_game(ms: Seq<Level>, n: int) -> bool {
    &&& 1 <= n
    &&& !spec_game_number_used(ms, n)
    &&& forall|m: int| 1 <= m < n ==> spec_game_number_used(ms, m)
}

/// No two levels of the modified list share an identity.
pub open spec fn spec_modified_wf(ms: Seq<Level>) -> bool {
    forall|i: int, j: int|
        0 <= i < j < ms.len() ==> (#[trigger] ms[i]).spec_id() != (#[trigger] ms[j]).spec_id()
}

/// How one `change_level` call relates the map before it (`pre`) to the
/// map after it (`post`), together with what the call returned.
///
/// Switching to the level the map already stands on does nothing and
/// returns false.  Otherwise the outgoing level is captured: appended to
/// the modified list if its identity is new there, or written over the
/// first entry carrying its identity; the incoming level becomes
/// current, and the call returns true.
pub open spec fn spec_change_level_step(pre: WorldMap, l: Level, post: WorldMap, r: bool) -> bool {
    &&& r == !l.spec_key_eq(pre.current_level)
    &&& (!r ==> post.current_level == pre.current_level && post.modified_levels@
        == pre.modified_levels@)
    &&& (r ==> post.current_level == l)
    &&& (r ==> (if seq_has_level_id(pre.modified_levels@, pre.current_level.spec_id()) {
        exists|i: int|
            {
                &&& 0 <= i < pre.modified_levels@.len()
                &&& (#[trigger] pre.modified_levels@[i]).spec_id() == pre.current_level.spec_id()
                &&& forall|j: int|
                    0 <= j < i ==> pre.modified_levels@[j].spec_id()
                        != pre.current_level.spec_id()
                &&& post.modified_levels@ == pre.modified_levels@.update(i, pre.current_level)
            }
    } else {
        post.modified_levels@ == pre.modified_levels@.push(pre.current_level)
    }))
}

/// A map holds the levels of the game: the level the game stands on and
/// the list of levels already visited or edited, kept so edits persist
/// across navigation.
#[derive(Debug)]
pub struct WorldMap {
    /// The level the game currently stands on.
    pub current_level: Level,
    /// The levels already visited or edited, at most one per identity.
    pub modified_levels: Vec<Level>,
}

impl WorldMap {
    /// At most one modified level per identity.
    pub open spec fn wf(self) -> bool {
        spec_modified_wf(self.modified_levels@)
    }

    /// My first map: an instance of WorldMap that is a set of test
    /// levels.  One main-menu level numbered 1, holding two movers and
    /// the four boundary walls of a 50 by 50 room.
    pub fn my_map() -> (r: WorldMap)
        ensures
            r.current_level.level_type == LevelType::MainMenu,
            r.current_level.level_number == 1,
            r.modified_levels@.len() == 0,
            r.current_level.level_entities@.len() == 6,
            spec_is_mover(r.current_level.level_entities@[0], 7, 7),
            spec_is_mover(r.current_level.level_entities@[1], 9, 9),
            spec_is_wall(r.current_level.level_entities@[2], 0, 0, 50, 1),
            spec_is_wall(r.current_level.level_entities@[3], 0, 1, 1, 48),
            spec_is_wall(r.current_level.level_entities@[4], 49, 1, 1, 48),
            spec_is_wall(r.current_level.level_entities@[5], 0, 49, 50, 1),
            r.wf(),
    {
        let mover_a = Entity::new().set_xy(7, 7).set_abilities(vec![Ability::Move]).build().unwrap();
        let mover_b = Entity::new().set_xy(9, 9).set_abilities(vec![Ability::Move]).build().unwrap();
        proof {
            reveal_with_fuel(spec_ability_add_all, 3);
            let none: Seq<Ability> = Seq::<Ability>::empty();
            let one: Seq<Ability> = seq![Ability::Move];
            assert(one.drop_last() =~= none);
            assert(!seq_has_ability(none, Ability::Move));
            assert(spec_ability_add(none, Ability::Move) =~= one);
            assert(spec_ability_add_all(none, one) == one);
            assert(spec_is_mover(mover_a, 7, 7));
            assert(spec_is_mover(mover_b, 9, 9));
        }
        let mut first_entities = vec![mover_a, mover_b];
        let mut walls = WorldMap::get_boundry_entities(Rectangle::new(0, 0, 50, 50));
        first_entities.append(&mut walls);
        let level = Level::new().level_type(
            LevelType::MainMenu,
        ).number(1).entities(first_entities).build().unwrap();
        WorldMap { current_level: level, modified_levels: Vec::new() }
    }
}

/// A freshly built creature that can move: a one-tile entity at (x, y)
/// with the builder's default skin and nothing but the Move ability.
pub open spec fn spec_is_mover(e: Entity, x: i32, y: i32) -> bool {
    &&& e.placement == (Rectangle {
        point: Point { x, y },
        dimension: Dimension { width: 1, height: 1 },
    })
    &&& e.skin == Skin::RGB(255, 255, 0)
    &&& e.abilities@ == seq![Ability::Move]
    &&& e.inventory is None
    &&& e.alignment is None
}

/// A wall entity: the given rectangle, the fixed gray skin, and no
/// abilities at all.
pub open spec fn spec_is_wall(e: Entity, x: i32, y: i32, width: u32, height: u32) -> bool {
    &&& e.placement == (Rectangle { point: Point { x, y }, dimension: Dimension { width, height } })
    &&& e.skin == Skin::RGB(90, 90, 90)
    &&& e.abilities@ == Seq::<Ability>::empty()
    &&& e.inventory is None
    &&& e.alignment is None
}

impl WorldMap {
    /// Adds a game level to the map and fills it with the given
    /// entities.  Auto-assigns the lowest unused positive number among
    /// the Game-type modified levels.
    pub fn add_game_level(&mut self, entities: Vec<Entity>)
        requires
            forall|i: int|
                0 <= i < old(self).modified_levels@.len() && (
                #[trigger] old(self).modified_levels@[i]).level_type == LevelType::Game ==> old(self).modified_levels@[i].level_number < i32::MAX,
        ensures
            final(self).current_level == old(self).current_level,
            exists|n: i32|
                {
                    &&& spec_is_lowest_unused_game(old(self).modified_levels@, n as int)
                    &&& final(self).modified_levels@ == old(self).modified_levels@.push(
                        (Level {
                            level_type: LevelType::Game,
                            level_number: n,
                            level_entities: entities,
                        }),
                    )
                },
    {
        let ghost pre = self.modified_levels@;
        let mut max_game: i32 = 0;
        let mut i: usize = 0;
        while i < self.modified_levels.len()
            invariant
                i <= self.modified_levels.len(),
                *self == *old(self),
                self.modified_levels@ == pre,
                0 <= max_game,
                forall|j: int|
                    0 <= j < i && (#[trigger] pre[j]).level_type == LevelType::Game ==> pre[j].level_number <= max_game,
                max_game as int == 0 || spec_game_number_used(pre, max_game as int),
                forall|j: int|
                    0 <= j < pre.len() && (#[trigger] pre[j]).level_type == LevelType::Game ==> pre[j].level_number < i32::MAX,
            decreases self.modified_levels.len() - i,
        {
            let level = &self.modified_levels[i];
            if level.get_level_type() == LevelType::Game && level.get_level_number() > max_game {
                max_game = level.get_level_number();
            }
            i = i + 1;
        }
        let mut counter: i32 = 1;
        while self.is_game_number_used(counter)
            invariant
                *self == *old(self),
                self.modified_levels@ == pre,
                1 <= counter,
                counter as int <= max_game as int + 1,
                max_game < i32::MAX,
                forall|m: int| 1 <= m < counter as int ==> spec_game_number_used(pre, m),
                forall|j: int|
                    0 <= j < pre.len() && (#[trigger] pre[j]).level_type == LevelType::Game ==> pre[j].level_number <= max_game,
            decreases max_game + 1 - counter,
        {
            counter = counter + 1;
        }
        proof {
            assert(spec_is_lowest_unused_game(pre, counter as int));
        }
        let level = Level::new().number(counter).level_type(
            LevelType::Game,
        ).entities(entities).build().unwrap();
        proof {
            if seq_has_level_id(pre, level.spec_id()) {
                let w = choose|w: int| 0 <= w < pre.len() && pre[w].spec_id() == level.spec_id();
                assert(pre[w].level_type == LevelType::Game);
                assert(spec_game_number_used(pre, counter as int));
            }
        }
        self.add_level(level).unwrap();
        proof {
            let n = counter;
            assert(spec_is_lowest_unused_game(old(self).modified_levels@, n as int)
                && final(self).modified_levels@ == old(self).modified_levels@.push(
                    (Level {
                        level_type: LevelType::Game,
                        level_number: n,
                        level_entities: entities,
                    }),
                ));
        }
    }

    /// True iff some Game-type modified level carries the given number.
    fn is_game_number_used(&self, n: i32) -> (r: bool)
        ensures
            r == spec_game_number_used(self.modified_levels@, n as int),
    {
        let mut i: usize = 0;
        while i < self.modified_levels.len()
            invariant
                i <= self.modified_levels.len(),
                forall|j: int|
                    0 <= j < i ==> !((#[trigger] self.modified_levels@[j]).level_type
                        == LevelType::Game && self.modified_levels@[j].level_number as int
                        == n as int),
            decreases self.modified_levels.len() - i,
        {
            let level = &self.modified_levels[i];
            if level.get_level_type() == LevelType::Game && level.get_level_number() == n {
                return true;
            }
            i = i + 1;
        }
        false
    }

    /// Gets a reference to the current level.
    pub fn get_current_level(&self) -> (r: &Level)
        ensures
            r == self.current_level,
    {
        &self.current_level
    }

    /// Adds a given level.  Use over add_game_level if you want
    /// something specific or a menu.  Rejects a level whose identity is
    /// already among the modified levels, without mutating anything.
    pub fn add_level(&mut self, level: Level) -> (r: Result<(), &'static str>)
        ensures
            r is Ok <==> !seq_has_level_id(old(self).modified_levels@, level.spec_id()),
            r is Ok ==> final(self).current_level == old(self).current_level && final(self).modified_levels@ == old(self).modified_levels@.push(level),
            r is Err ==> *final(self) == *old(self),
    {
        if self.is_modified(&level) {
            return Err("The Level you are trying to add already exists.");
        }
        self.modified_levels.push(level);
        Ok(())
    }

    /// Changes the level with the given one.  Returns false, changing
    /// nothing, when the given level is the one the map already stands
    /// on; otherwise captures the current level among the modified
    /// levels, makes the given level current, and returns true.
    pub fn change_level(&mut self, level: Level) -> (r: bool)
        ensures
            spec_change_level_step(*old(self), level, *final(self), r),
    {
        if level == self.current_level {
            return false;
        }
        let mut found: Option<usize> = None;
        let mut i: usize = 0;
        while i < self.modified_levels.len()
            invariant
                i <= self.modified_levels.len(),
                match found {
                    Some(k) => {
                        &&& 0 <= k < self.modified_levels@.len()
                        &&& self.modified_levels@[k as int].spec_id()
                            == self.current_level.spec_id()
                        &&& forall|j: int|
                            0 <= j < k ==> self.modified_levels@[j].spec_id()
                                != self.current_level.spec_id()
                    },
                    None => forall|j: int|
                        0 <= j < i ==> self.modified_levels@[j].spec_id()
                            != self.current_level.spec_id(),
                },
            decreases self.modified_levels.len() - i,
        {
            if found.is_none() && self.modified_levels[i] == self.current_level {
                found = Some(i);
            }
            i = i + 1;
        }
        let mut outgoing = level;
        core::mem::swap(&mut self.current_level, &mut outgoing);
        match found {
            Some(k) => {
                self.modified_levels.set(k, outgoing);
            },
            None => {
                self.modified_levels.push(outgoing);
            },
        }
        true
    }
}

impl WorldMap {
    /// An associated function that returns 4 wall entities to use as
    /// level borders that can be appended to a level's entities: the top
    /// edge full width, the left and right edges offset by one tile and
    /// two tiles short so the corners are not covered twice, and the
    /// bottom edge full width.
    pub fn get_boundry_entities(boundry: Rectangle) -> (r: Vec<Entity>)
        requires
            boundry.wf(),
            2 <= boundry.dimension.height,
        ensures
            r@.len() == 4,
            spec_is_wall(r@[0], boundry.point.x, boundry.point.y, boundry.dimension.width, 1),
            spec_is_wall(
                r@[1],
                boundry.point.x,
                (boundry.point.y + 1) as i32,
                1,
                (boundry.dimension.height - 2) as u32,
            ),
            spec_is_wall(
                r@[2],
                boundry.spec_x_max() as i32,
                (boundry.point.y + 1) as i32,
                1,
                (boundry.dimension.height - 2) as u32,
            ),
            spec_is_wall(
                r@[3],
                boundry.point.x,
                boundry.spec_y_max() as i32,
                boundry.dimension.width,
                1,
            ),
    {
        vec![
            Entity::new_wall(boundry.x(), boundry.y(), boundry.width(), 1),
            Entity::new_wall(boundry.x(), boundry.y() + 1, 1, boundry.height() - 2),
            Entity::new_wall(boundry.x_max(), boundry.y() + 1, 1, boundry.height() - 2),
            Entity::new_wall(boundry.x(), boundry.y_max(), boundry.width(), 1),
        ]
    }

    /// True iff a level with the given level's identity is already among
    /// the modified levels.
    fn is_modified(&self, level: &Level) -> (r: bool)
        ensures
            r == seq_has_level_id(self.modified_levels@, level.spec_id()),
    {
        let mut i: usize = 0;
        while i < self.modified_levels.len()
            invariant
                i <= self.modified_levels.len(),
                forall|j: int|
                    0 <= j < i ==> (#[trigger] self.modified_levels@[j]).spec_id()
                        != level.spec_id(),
            decreases self.modified_levels.len() - i,
        {
            if &self.modified_levels[i] == level {
                return true;
            }
            i = i + 1;
        }
        false
    }
}

/// Accepting a new level keeps the modified list free of duplicate
/// identities: only a level whose identity is not yet there is pushed.
pub proof fn lemma_add_level_preserves_wf(ms: Seq<Level>, level: Level)
    requires
        spec_modified_wf(ms),
        !seq_has_level_id(ms, level.spec_id()),
    ensures
        spec_modified_wf(ms.push(level)),
{
    assert forall|a: int, b: int|
        0 <= a < b < ms.push(level).len() implies (#[trigger] ms.push(level)[a]).spec_id() != (
    #[trigger] ms.push(level)[b]).spec_id() by {
        if b < ms.len() {
            assert(ms[a].spec_id() != ms[b].spec_id());
        } else {
            assert(ms.push(level)[b] == level);
            assert(ms.push(level)[a] == ms[a]);
        }
    }
}

/// Switching a second time to a level the map was just switched to does
/// nothing: the second call returns false and leaves the map exactly as
/// the first call left it.
pub proof fn lemma_change_level_twice(m0: WorldMap, m1: WorldMap, m2: WorldMap, l1: Level, l2: Level, r1: bool, r2: bool)
    requires
        spec_change_level_step(m0, l1, m1, r1),
        spec_change_level_step(m1, l2, m2, r2),
        l2.spec_key_eq(l1),
    ensures
        r2 == false,
        m2.current_level == m1.current_level,
        m2.modified_levels@ == m1.modified_levels@,
{
}

/// A level switch keeps the modified list free of duplicate identities.
pub proof fn lemma_change_level_preserves_wf(m0: WorldMap, m1: WorldMap, l: Level, r: bool)
    requires
        spec_change_level_step(m0, l, m1, r),
        m0.wf(),
    ensures
        m1.wf(),
{
    if r {
        let ms = m0.modified_levels@;
        let cur = m0.current_level;
        if seq_has_level_id(ms, cur.spec_id()) {
            let i = choose|i: int|
                {
                    &&& 0 <= i < ms.len()
                    &&& (#[trigger] ms[i]).spec_id() == cur.spec_id()
                    &&& forall|j: int| 0 <= j < i ==> ms[j].spec_id() != cur.spec_id()
                    &&& m1.modified_levels@ == ms.update(i, cur)
                };
            assert forall|a: int, b: int|
                0 <= a < b < m1.modified_levels@.len() implies (
            #[trigger] m1.modified_levels@[a]).spec_id() != (
            #[trigger] m1.modified_levels@[b]).spec_id() by {
                assert(ms[a].spec_id() != ms[b].spec_id());
            }
        } else {
            assert forall|a: int, b: int|
                0 <= a < b < m1.modified_levels@.len() implies (
            #[trigger] m1.modified_levels@[a]).spec_id() != (
            #[trigger] m1.modified_levels@[b]).spec_id() by {
                if b < ms.len() {
                    assert(ms[a].spec_id() != ms[b].spec_id());
                }
            }
        }
    }
}

/// Edit preservation, round trip: after a switch away from the level the
/// map stood on, the modified list records that level with exactly the
/// entities it had at departure, and a switch back onto its identity
/// leaves that record untouched.
pub proof fn lemma_level_round_trip(m0: WorldMap, m1: WorldMap, m2: WorldMap, l1: Level, l2: Level, r1: bool, r2: bool)
    requires
        m0.wf(),
        spec_change_level_step(m0, l1, m1, r1),
        !l1.spec_key_eq(m0.current_level),
        spec_change_level_step(m1, l2, m2, r2),
        l2.spec_key_eq(m0.current_level),
    ensures
        m2.current_level == l2,
        exists|i: int|
            {
                &&& 0 <= i < m2.modified_levels@.len()
                &&& (#[trigger] m2.modified_levels@[i]).spec_id() == m0.current_level.spec_id()
                &&& m2.modified_levels@[i].level_entities@ == m0.current_level.level_entities@
            },
{
    let x = m0.current_level;
    let ms0 = m0.modified_levels@;
    let ms1 = m1.modified_levels@;
    assert(r1);
    if seq_has_level_id(ms0, x.spec_id()) {
        let i = choose|i: int|
            {
                &&& 0 <= i < ms0.len()
                &&& (#[trigger] ms0[i]).spec_id() == x.spec_id()
                &&& forall|j: int| 0 <= j < i ==> ms0[j].spec_id() != x.spec_id()
                &&& ms1 == ms0.update(i, x)
            };
        assert(ms1[i] == x);
        witness_round_trip(m1, m2, l2, r2, x, i);
    } else {
        assert(ms1 == ms0.push(x));
        let i = ms0.len() as int;
        assert(ms1[i] == x);
        witness_round_trip(m1, m2, l2, r2, x, i);
    }
}

/// The second half of the round trip: a switch onto the old level's
/// identity does not touch the modified entry that records it.
proof fn witness_round_trip(m1: WorldMap, m2: WorldMap, l2: Level, r2: bool, x: Level, i: int)
    requires
        spec_change_level_step(m1, l2, m2, r2),
        l2.spec_key_eq(x),
        m1.current_level == l2 || !m1.current_level.spec_key_eq(x),
        0 <= i < m1.modified_levels@.len(),
        m1.modified_levels@[i] == x,
    ensures
        exists|k: int|
            {
                &&& 0 <= k < m2.modified_levels@.len()
                &&& (#[trigger] m2.modified_levels@[k]).spec_id() == x.spec_id()
                &&& m2.modified_levels@[k].level_entities@ == x.level_entities@
            },
{
    let ms1 = m1.modified_levels@;
    if !r2 {
        assert(m2.modified_levels@[i] == x);
    } else {
        assert(!m1.current_level.spec_key_eq(x));
        if seq_has_level_id(ms1, m1.current_level.spec_id()) {
            let j = choose|j: int|
                {
                    &&& 0 <= j < ms1.len()
                    &&& (#[trigger] ms1[j]).spec_id() == m1.current_level.spec_id()
                    &&& forall|k: int| 0 <= k < j ==> ms1[k].spec_id() != m1.current_level.spec_id()
                    &&& m2.modified_levels@ == ms1.update(j, m1.current_level)
                };
            assert(j != i);
            assert(m2.modified_levels@[i] == x);
        } else {
            assert(m2.modified_levels@ == ms1.push(m1.current_level));
            assert(m2.modified_levels@[i] == x);
        }
    }
}

} // verus!
