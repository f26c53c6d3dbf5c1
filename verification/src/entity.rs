//! A group of structures for creating a very general entity.  An entity
//! can be nearly anything: walls, zones, enemies, the player.
//!
//! While it has a builder, a few premade entities exist for things such
//! as walls.

use vstd::prelude::*;

use crate::data::{spec_roster_hit, spec_turn_candidate, spec_turn_result, Data};
use crate::helper::{Builder, BuilderError};
use crate::maps::LevelId;
use crate::math::{Dimension, Point, Rectangle, TwoDimensional};

verus! {

/// Holds any currencies in the game.  Empty for now.
#[derive(Copy, Clone, Debug, Eq, PartialEq, Structural)]
pub struct Currencies {}

/// Inventory holds currency, along with a bunch of items.  Empty for now.
#[derive(Copy, Clone, Debug, Eq, PartialEq, Structural)]
pub struct Inventory {}

/// The stats on an entity.  Empty for now; will have strength and such.
#[derive(Copy, Clone, Debug, Eq, PartialEq, Structural)]
pub struct Stats {}

/// Sets alignment, used with Option for neutral.  Helps tell the allies
/// and the villains apart.
#[derive(Copy, Clone, Debug, Eq, PartialEq, Structural)]
pub enum Alignment {
    /// The player should probably be set to good.  Good isn't good
    /// per-se, just good for the player.
    Good,
    /// Evil should have logic to attack the player or bother them.
    Evil,
}

/// An ability an entity can perform.  Entities should be explicit about
/// what they can exactly do so game logic can react appropriately.
#[derive(Copy, Clone, Debug, Eq, PartialEq, Structural)]
pub enum Ability {
    /// Can the Entity move?  Walls can't; the player and creatures can.
    Move,
    /// Can the Entity speak?  For things such as communicating with the
    /// player.
    Speak,
    /// Interacting with this entity warps targets to another place: the
    /// identity of the target level, and the target point in it.
    Warp(LevelId, Point),
    /// You do not go through the object when interacting.
    Physical,
    /// Can clone itself.
    Clone,
    /// Lasts the given number of turns.
    Temporary(u32),
}

/// True iff the sequence holds the given ability.  Equality decides
/// duplication, so two Warp abilities count as the same one only when
/// both their target level and their target point agree.
pub open spec fn seq_has_ability(s: Seq<Ability>, ability: Ability) -> bool {
    exists|i: int| 0 <= i < s.len() && s[i] == ability
}

/// The sequence after an ability is offered to it: unchanged when an
/// equal ability is already present, extended at the end otherwise.
pub open spec fn spec_ability_add(s: Seq<Ability>, ability: Ability) -> Seq<Ability> {
    if seq_has_ability(s, ability) {
        s
    } else {
        s.push(ability)
    }
}

/// The sequence after every ability of `more` is offered to it in order.
pub open spec fn spec_ability_add_all(s: Seq<Ability>, more: Seq<Ability>) -> Seq<Ability>
    decreases more.len(),
{
    if more.len() == 0 {
        s
    } else {
        spec_ability_add(spec_ability_add_all(s, more.drop_last()), more.last())
    }
}

/// A structure that holds a bunch of abilities that entities can
/// perform.  It has set semantics: offering an ability it already holds
/// changes nothing.
#[derive(Debug)]
pub struct Abilities(pub Vec<Ability>);

impl View for Abilities {
    type V = Seq<Ability>;

    open spec fn view(&self) -> Seq<Ability> {
        self.0@
    }
}

impl Clone for Abilities {
    /// Cloned abilities hold exactly the same ability sequence.
    fn clone(&self) -> (r: Abilities)
        ensures
            r@ == self@,
    {
        let r = Abilities(self.0.clone());
        proof {
            assert(r.0@ =~= self.0@);
        }
        r
    }
}

impl Abilities {
    /// True iff the collection holds the given ability.
    pub open spec fn spec_has(self, ability: Ability) -> bool {
        seq_has_ability(self@, ability)
    }

    /// Create a new instance of Abilities with no abilities.
    pub fn new() -> (r: Abilities)
        ensures
            r@ == Seq::<Ability>::empty(),
    {
        Abilities(Vec::new())
    }

    /// Checks through the list of abilities and returns true if Abilities
    /// has the ability and false if not.
    fn check_for_ability(&self, ability: &Ability) -> (r: bool)
        ensures
            r == self.spec_has(*ability),
    {
        let mut i: usize = 0;
        while i < self.0.len()
            invariant
                i <= self.0.len(),
                forall|j: int| 0 <= j < i ==> self.0@[j] != *ability,
            decreases self.0.len() - i,
        {
            if self.0[i] == *ability {
                return true;
            }
            i = i + 1;
        }
        false
    }

    /// Checks if the Ability Warp exists and if so returns where
    /// something is supposed to teleport: the first Warp in the list
    /// wins.  Else returns None.
    pub fn is_warp(&self) -> (r: Option<(LevelId, Point)>)
        ensures
            match r {
                Some(lp) => exists|i: int|
                    {
                        &&& 0 <= i < self@.len()
                        &&& self@[i] == Ability::Warp(lp.0, lp.1)
                        &&& forall|j: int| 0 <= j < i ==> !(self@[j] is Warp)
                    },
                None => forall|i: int| 0 <= i < self@.len() ==> !(self@[i] is Warp),
            },
    {
        let mut i: usize = 0;
        while i < self.0.len()
            invariant
                i <= self.0.len(),
                forall|j: int| 0 <= j < i ==> !(self.0@[j] is Warp),
            decreases self.0.len() - i,
        {
            let owned_ability = self.0[i];
            if let Ability::Warp(l, p) = owned_ability {
                return Some((l, p));
            }
            i = i + 1;
        }
        None
    }

    /// Checks if the ability list includes speaking.
    pub fn can_speak(&self) -> (r: bool)
        ensures
            r == self.spec_has(Ability::Speak),
    {
        if !self.check_for_ability(&Ability::Speak) {
            return false;
        }
        true
    }

    /// Checks if the ability list does not include speaking.
    pub fn can_not_speak(&self) -> (r: bool)
        ensures
            r == !self.spec_has(Ability::Speak),
    {
        !self.can_speak()
    }

    /// Checks if the ability list includes moving.
    pub fn can_move(&self) -> (r: bool)
        ensures
            r == self.spec_has(Ability::Move),
    {
        if !self.check_for_ability(&Ability::Move) {
            return false;
        }
        true
    }

    /// Checks if the ability list does not include moving.
    pub fn can_not_move(&self) -> (r: bool)
        ensures
            r == !self.spec_has(Ability::Move),
    {
        !self.can_move()
    }

    /// Add an ability to the list of Abilities, unless an equal one is
    /// already there.
    pub fn add_ability(&mut self, ability: Ability)
        ensures
            final(self)@ == spec_ability_add(old(self)@, ability),
    {
        if !self.check_for_ability(&ability) {
            self.0.push(ability);
        }
    }
}

/// The possible skins in the game.  For now only an RGB rectangle.
#[derive(Copy, Clone, Debug, Eq, PartialEq, Structural)]
pub enum Skin {
    /// RGB rectangle: a tuple of (r, g, b) to draw rectangles with
    /// colour.
    RGB(u8, u8, u8),
}

impl Skin {
    /// The raw colour channels of the skin.
    pub open spec fn spec_rgb(self) -> (u8, u8, u8) {
        match self {
            Skin::RGB(r, g, b) => (r, g, b),
        }
    }

    /// Gets the rgb value if it is rgb, otherwise returns an error.
    pub fn get_rgb(&self) -> (r: Result<Skin, &'static str>)
        ensures
            r is Ok,
            r->Ok_0 == *self,
    {
        match self {
            Skin::RGB(red, green, blue) => Ok(Skin::RGB(*red, *green, *blue)),
        }
    }

    /// Just gets the pure values from the rgb as a tuple instead of
    /// surrounding it in a Skin like get_rgb.
    pub fn get_rgb_colors(&self) -> (r: Result<(u8, u8, u8), &'static str>)
        ensures
            r is Ok,
            r->Ok_0 == self.spec_rgb(),
    {
        match self {
            Skin::RGB(red, green, blue) => Ok((*red, *green, *blue)),
        }
    }
}

/// Builds an instance of Entity.  Requires a position to be set, in
/// order to place the entity; everything else defaults.
#[derive(Debug)]
pub struct EntityBuilder {
    /// Where the entity will stand; required.
    pub position: Option<Point>,
    /// The entity's extent; defaults to one tile.
    pub size: Dimension,
    /// The entity's looks; defaults to a placeholder colour.
    pub skin: Skin,
    /// The entity's stats; empty for now.
    pub stats: Stats,
    /// What the entity will be able to do; defaults to nothing.
    pub abilities: Abilities,
    /// What the entity carries; defaults to nothing.
    pub inventory: Option<Inventory>,
    /// Which side the entity is on; defaults to neutral.
    pub alignment: Option<Alignment>,
}

impl EntityBuilder {
    /// Everything of the builder but its ability list, compared
    /// field by field.
    pub open spec fn spec_same_but_abilities(self, other: EntityBuilder) -> bool {
        &&& self.position == other.position
        &&& self.size == other.size
        &&& self.skin == other.skin
        &&& self.stats == other.stats
        &&& self.inventory == other.inventory
        &&& self.alignment == other.alignment
    }

    /// Set the position of an Entity using a Point.  Position is the top
    /// left of an object: lower values are upward for y and leftward for
    /// x.
    pub fn set_position(self, point: Point) -> (r: Self)
        ensures
            r.position == Some(point),
            r.size == self.size,
            r.skin == self.skin,
            r.stats == self.stats,
            r.abilities@ == self.abilities@,
            r.inventory == self.inventory,
            r.alignment == self.alignment,
    {
        EntityBuilder { position: Some(point), ..self }
    }

    /// Same as set_position except instead of using a Point, you can
    /// simply use x and y.
    pub fn set_xy(self, x: i32, y: i32) -> (r: Self)
        ensures
            r.position == Some(Point { x, y }),
            r.size == self.size,
            r.skin == self.skin,
            r.stats == self.stats,
            r.abilities@ == self.abilities@,
            r.inventory == self.inventory,
            r.alignment == self.alignment,
    {
        EntityBuilder { position: Some(Point::new(x, y)), ..self }
    }

    /// Set the width and height of an entity by a Dimension.
    pub fn set_dimension(self, dimension: Dimension) -> (r: Self)
        ensures
            r.size == dimension,
            r.position == self.position,
            r.skin == self.skin,
            r.stats == self.stats,
            r.abilities@ == self.abilities@,
            r.inventory == self.inventory,
            r.alignment == self.alignment,
    {
        EntityBuilder { size: dimension, ..self }
    }

    /// Set the width and height of an entity using u32 values.
    pub fn set_size(self, width: u32, height: u32) -> (r: Self)
        ensures
            r.size == (Dimension { width, height }),
            r.position == self.position,
            r.skin == self.skin,
            r.stats == self.stats,
            r.abilities@ == self.abilities@,
            r.inventory == self.inventory,
            r.alignment == self.alignment,
    {
        EntityBuilder { size: Dimension::new(width, height), ..self }
    }

    /// Give the entity builder a vector of abilities to have.  Each is
    /// offered in order, with set semantics: duplicates are dropped.
    pub fn set_abilities(self, abilities: Vec<Ability>) -> (r: Self)
        ensures
            r.abilities@ == spec_ability_add_all(self.abilities@, abilities@),
            r.spec_same_but_abilities(self),
    {
        let mut builder = self;
        let mut i: usize = 0;
        while i < abilities.len()
            invariant
                i <= abilities.len(),
                builder.abilities@ == spec_ability_add_all(self.abilities@, abilities@.take(i as int)),
                builder.spec_same_but_abilities(self),
            decreases abilities.len() - i,
        {
            builder.abilities.add_ability(abilities[i]);
            proof {
                assert(abilities@.take(i as int + 1).drop_last() =~= abilities@.take(i as int));
                assert(abilities@.take(i as int + 1).last() == abilities@[i as int]);
            }
            i = i + 1;
        }
        proof {
            assert(abilities@.take(abilities@.len() as int) =~= abilities@);
        }
        builder
    }
}

impl Builder for EntityBuilder {
    type product = Entity;

    open spec fn spec_is_new(self) -> bool {
        &&& self.position is None
        &&& self.size == (Dimension { width: 1, height: 1 })
        &&& self.skin == Skin::RGB(255, 255, 0)
        &&& self.inventory is None
        &&& self.stats == (Stats {  })
        &&& self.abilities@ == Seq::<Ability>::empty()
        &&& self.alignment is None
    }

    open spec fn spec_build_ok(self) -> bool {
        self.position is Some
    }

    open spec fn spec_built(self) -> Entity {
        Entity {
            placement: Rectangle {
                point: self.position->Some_0,
                dimension: self.size,
            },
            skin: self.skin,
            stats: self.stats,
            abilities: self.abilities,
            inventory: self.inventory,
            alignment: self.alignment,
        }
    }

    /// Creates a new instance of EntityBuilder with some defaults.
    /// Still need to specify a position.
    fn new() -> (r: EntityBuilder) {
        EntityBuilder {
            position: None,
            size: Dimension::new(1, 1),
            skin: Skin::RGB(255, 255, 0),
            inventory: None,
            stats: Stats {  },
            abilities: Abilities::new(),
            alignment: None,
        }
    }

    /// Creates an instance of Entity from EntityBuilder; errors when no
    /// position was set.
    fn build(self) -> (r: Result<Entity, BuilderError>) {
        if self.position.is_none() {
            return Err(
                BuilderError::new(
                    "Could not build Entity, no position set. use set_position or set_xy methods to set position.",
                ),
            );
        }
        let position = self.position.unwrap();
        let placement = Rectangle::new(
            position.get_x(),
            position.get_y(),
            self.size.get_width(),
            self.size.get_height(),
        );
        Ok(
            Entity {
                placement,
                skin: self.skin,
                inventory: self.inventory,
                stats: self.stats,
                abilities: self.abilities,
                alignment: self.alignment,
            },
        )
    }
}

/// An Entity can be nearly anything: a field, a wall, a creature.  It
/// has values to allow interactions to intermingle.
#[derive(Debug)]
pub struct Entity {
    /// Where the entity stands and how much room it takes.
    pub placement: Rectangle,
    /// How the entity is drawn.
    pub skin: Skin,
    /// The entity's stats; empty for now.
    pub stats: Stats,
    /// What the entity can do.
    pub abilities: Abilities,
    /// What the entity carries, when anything.
    pub inventory: Option<Inventory>,
    /// Which side the entity is on, when any.
    pub alignment: Option<Alignment>,
}

/// Two entities that agree on every observable field: equal placement,
/// looks, stats, ability sequence, inventory and alignment.  A clone is
/// "like" its original.
pub open spec fn spec_entity_like(a: Entity, b: Entity) -> bool {
    &&& a.placement == b.placement
    &&& a.skin == b.skin
    &&& a.stats == b.stats
    &&& a.abilities@ == b.abilities@
    &&& a.inventory == b.inventory
    &&& a.alignment == b.alignment
}

impl Clone for Entity {
    /// A cloned entity agrees with its original on every observable
    /// field.
    fn clone(&self) -> (r: Entity)
        ensures
            spec_entity_like(r, *self),
    {
        Entity {
            placement: self.placement,
            skin: self.skin,
            stats: self.stats,
            abilities: self.abilities.clone(),
            inventory: self.inventory,
            alignment: self.alignment,
        }
    }
}

impl Entity {
    /// The same entity standing somewhere else: every field kept, the
    /// placement replaced.
    pub open spec fn spec_with_placement(self, placement: Rectangle) -> Entity {
        Entity {
            placement,
            skin: self.skin,
            stats: self.stats,
            abilities: self.abilities,
            inventory: self.inventory,
            alignment: self.alignment,
        }
    }

    /// Creates a good default player.  Asks for a position.
    pub fn new_player(x: i32, y: i32) -> (r: Entity)
        ensures
            r.placement == (Rectangle {
                point: Point { x, y },
                dimension: Dimension { width: 1, height: 1 },
            }),
            r.skin == Skin::RGB(255, 0, 0),
            r.inventory is None,
            r.stats == (Stats {  }),
            r.abilities@ == Seq::<Ability>::empty(),
            r.alignment == Some(Alignment::Good),
    {
        Entity {
            placement: Rectangle::new(x, y, 1, 1),
            skin: Skin::RGB(255, 0, 0),
            inventory: None,
            stats: Stats {  },
            abilities: Abilities::new(),
            alignment: Some(Alignment::Good),
        }
    }

    /// Creates an evil slimer entity.
    pub fn new_slimer_entity(x: i32, y: i32) -> (r: Entity)
        ensures
            r.placement == (Rectangle {
                point: Point { x, y },
                dimension: Dimension { width: 1, height: 1 },
            }),
            r.skin == Skin::RGB(30, 215, 30),
            r.inventory is None,
            r.stats == (Stats {  }),
            r.abilities@ == Seq::<Ability>::empty(),
            r.alignment == Some(Alignment::Evil),
    {
        Entity {
            placement: Rectangle::new(x, y, 1, 1),
            skin: Skin::RGB(30, 215, 30),
            inventory: None,
            stats: Stats {  },
            abilities: Abilities::new(),
            alignment: Some(Alignment::Evil),
        }
    }

    /// Creates a wall where you specify position and extent.  Walls get
    /// no abilities and a fixed gray skin.  Note the argument order: the
    /// third argument becomes the rectangle's width and the fourth its
    /// height.
    pub fn new_wall(x: i32, y: i32, height: u32, width: u32) -> (r: Entity)
        ensures
            r.placement == (Rectangle {
                point: Point { x, y },
                dimension: Dimension { width: height, height: width },
            }),
            r.skin == Skin::RGB(90, 90, 90),
            r.inventory is None,
            r.stats == (Stats {  }),
            r.abilities@ == Seq::<Ability>::empty(),
            r.alignment is None,
    {
        Entity {
            placement: Rectangle::new(x, y, height, width),
            skin: Skin::RGB(90, 90, 90),
            inventory: None,
            stats: Stats {  },
            abilities: Abilities::new(),
            alignment: None,
        }
    }
}

impl Entity {
    /// Returns a rectangle of the entity if it moved by movement amount,
    /// without mutating the entity: lets a caller validate before
    /// committing.
    pub fn get_move(&self, movement: Point) -> (r: Rectangle)
        requires
            i32::MIN as int <= movement.x as int + self.placement.point.x as int <= i32::MAX as int,
            i32::MIN as int <= movement.y as int + self.placement.point.y as int <= i32::MAX as int,
        ensures
            r == self.placement.spec_moved(movement.x as int, movement.y as int),
    {
        let mut new_rect = self.placement;
        new_rect.move_xy(movement);
        new_rect
    }

    /// Returns movement if the entity moved 1 left.
    pub fn get_move_left(&self) -> (r: Rectangle)
        requires
            (i32::MIN as int) < self.placement.point.x as int,
        ensures
            r == self.placement.spec_moved(-1, 0),
    {
        self.get_move(Point::new(-1, 0))
    }

    /// Returns movement if the entity moved 1 right.
    pub fn get_move_right(&self) -> (r: Rectangle)
        requires
            self.placement.point.x as int + 1 <= i32::MAX as int,
        ensures
            r == self.placement.spec_moved(1, 0),
    {
        self.get_move(Point::new(1, 0))
    }

    /// Returns movement if the entity moved 1 up.
    pub fn get_move_up(&self) -> (r: Rectangle)
        requires
            (i32::MIN as int) < self.placement.point.y as int,
        ensures
            r == self.placement.spec_moved(0, -1),
    {
        self.get_move(Point::new(0, -1))
    }

    /// Returns movement if the entity moved 1 down.
    pub fn get_move_down(&self) -> (r: Rectangle)
        requires
            self.placement.point.y as int + 1 <= i32::MAX as int,
        ensures
            r == self.placement.spec_moved(0, 1),
    {
        self.get_move(Point::new(0, 1))
    }

    /// Moves the entity one left, unconditionally.  Should usually be
    /// used with get_move_left first.
    pub fn move_left(&mut self)
        requires
            (i32::MIN as int) < old(self).placement.point.x as int,
        ensures
            *final(self) == old(self).spec_with_placement(old(self).placement.spec_moved(-1, 0)),
    {
        self.placement.move_x(-1);
    }

    /// Moves the entity one right, unconditionally.  Should usually be
    /// used with get_move_right first.
    pub fn move_right(&mut self)
        requires
            old(self).placement.point.x as int + 1 <= i32::MAX as int,
        ensures
            *final(self) == old(self).spec_with_placement(old(self).placement.spec_moved(1, 0)),
    {
        self.placement.move_x(1);
    }

    /// Moves the entity one up, unconditionally.  Should usually be used
    /// with get_move_up first.
    pub fn move_up(&mut self)
        requires
            (i32::MIN as int) < old(self).placement.point.y as int,
        ensures
            *final(self) == old(self).spec_with_placement(old(self).placement.spec_moved(0, -1)),
    {
        self.placement.move_y(-1);
    }

    /// Moves the entity one down, unconditionally.  Should usually be
    /// used with get_move_down first.
    pub fn move_down(&mut self)
        requires
            old(self).placement.point.y as int + 1 <= i32::MAX as int,
        ensures
            *final(self) == old(self).spec_with_placement(old(self).placement.spec_moved(0, 1)),
    {
        self.placement.move_y(1);
    }
}

impl Entity {
    /// Creates an instance of EntityBuilder to start building an Entity.
    pub fn new() -> (r: EntityBuilder)
        ensures
            r.spec_is_new(),
    {
        EntityBuilder::new()
    }

    /// Returns the current position of the entity.
    pub fn get_position(&self) -> (r: Point)
        ensures
            r == self.placement.point,
    {
        self.placement.get_point()
    }

    /// Returns the size of the entity.
    pub fn get_size(&self) -> (r: Dimension)
        ensures
            r == self.placement.dimension,
    {
        self.placement.get_dimension()
    }

    /// Returns both the size and position of an entity using a
    /// Rectangle.
    pub fn get_rectangle(&self) -> (r: Rectangle)
        ensures
            r == self.placement,
    {
        self.placement
    }

    /// Returns the skin of the entity.
    pub fn get_skin(&self) -> (r: Skin)
        ensures
            r == self.skin,
    {
        self.skin
    }

    /// Returns a reference to the abilities of an entity.
    pub fn get_abilities(&self) -> (r: &Abilities)
        ensures
            r == self.abilities,
    {
        &self.abilities
    }
}

impl Entity {
    /// The entity performs an action based on its environment: an
    /// entity with the Move ability picks a direction from the world's
    /// pseudo-randomness and attempts one step; when anything - the
    /// player or another entity - already occupies the candidate
    /// rectangle, the move is silently discarded.  The world itself is
    /// read, never changed.
    pub fn perform_turn(&mut self, data: &mut Data)
        requires
            old(self).placement.wf_margin(),
            -46340 <= (old(self).placement.point.x as int) * (old(self).placement.point.y as int),
            (old(self).placement.point.x as int) * (old(self).placement.point.y as int) <= 46340,
            old(data).spec_rand_wf(),
            old(data).player.placement.wf(),
            forall|i: int|
                0 <= i < old(data).objects@.len() ==> (
                #[trigger] old(data).objects@[i]).placement.wf(),
        ensures
            *final(data) == *old(data),
            *final(self) == spec_turn_result(
                *old(self),
                old(data).objects@,
                old(data).player,
                old(data).time,
                old(data).spec_level_number(),
            ),
    {
        if self.abilities.can_move() {
            let x = self.get_rectangle().x();
            let y = self.get_rectangle().y();
            proof {
                let p = (x as int) * (y as int);
                assert(p * p <= 46340 * 46340) by (nonlinear_arith)
                    requires
                        -46340 <= p <= 46340,
                ;
            }
            let rand = data.get_randomness_with(x * y);
            let new_position = if rand.exceeds_quarters(3) {
                self.get_move_right()
            } else if rand.exceeds_quarters(2) {
                self.get_move_left()
            } else if rand.exceeds_quarters(1) {
                self.get_move_up()
            } else {
                self.get_move_down()
            };
            proof {
                assert(new_position == spec_turn_candidate(
                    *self,
                    data.time,
                    data.spec_level_number(),
                ));
            }
            self.move_direction(data, new_position);
        }
    }

    /// Commits the move onto the given rectangle unless anything - the
    /// player included - already occupies it.
    fn move_direction(&mut self, data: &mut Data, new_rectangle: Rectangle)
        requires
            new_rectangle.wf(),
            old(data).player.placement.wf(),
            forall|i: int|
                0 <= i < old(data).objects@.len() ==> (
                #[trigger] old(data).objects@[i]).placement.wf(),
        ensures
            *final(data) == *old(data),
            (old(data).player.placement.spec_collides(new_rectangle) || spec_roster_hit(
                old(data).objects@,
                new_rectangle,
            )) ==> *final(self) == *old(self),
            !(old(data).player.placement.spec_collides(new_rectangle) || spec_roster_hit(
                old(data).objects@,
                new_rectangle,
            )) ==> *final(self) == old(self).spec_with_placement(new_rectangle),
    {
        match data.check_position_both(new_rectangle) {
            Some(_e) => {},
            None => {
                self.placement = new_rectangle;
            },
        };
    }
}

/// Another builder for an entity that builds an Evil entity.  Empty for
/// now.
pub struct EnemyBuilder {}

} // verus!
