//! Handles events in the game.  Events occur from the player moving:
//! first the player's action is read; based on the action the other
//! entities take their turns as well.

use vstd::prelude::*;

use crate::data::{spec_roster_hit, spec_tick_from, Data};
use crate::entity::Entity;
use crate::math::Rectangle;

verus! {

/// An enum of the player's possible actions.  These should be bound to
/// keys for use by the player.
#[derive(Copy, Clone, Debug, Eq, PartialEq, Structural)]
pub enum PlayerAction {
    /// Moves the player left and updates the game world.
    MoveLeft,
    /// Moves the player right and updates the game world.
    MoveRight,
    /// Moves the player up and updates the game world.
    MoveUp,
    /// Moves the player down and updates the game world.
    MoveDown,
    /// Allows the player to check their inventory.  Unimplemented.
    Inventory,
    /// Allows the player to check their settings.  Unimplemented.
    Settings,
}

impl PlayerAction {
    /// True iff the action asks for a one-tile move.
    pub open spec fn spec_is_move(self) -> bool {
        self is MoveLeft || self is MoveRight || self is MoveUp || self is MoveDown
    }

    /// The rectangle a movement action aims the given entity at; for
    /// the other actions, the entity's own placement.
    pub open spec fn spec_move_target(self, e: Entity) -> Rectangle {
        match self {
            PlayerAction::MoveLeft => e.placement.spec_moved(-1, 0),
            PlayerAction::MoveRight => e.placement.spec_moved(1, 0),
            PlayerAction::MoveUp => e.placement.spec_moved(0, -1),
            PlayerAction::MoveDown => e.placement.spec_moved(0, 1),
            PlayerAction::Inventory => e.placement,
            PlayerAction::Settings => e.placement,
        }
    }
}

/// What resolving one player action does to the world.  A movement
/// action computes the player's candidate rectangle; when no non-player
/// entity occupies it the player's move is committed, otherwise it is
/// silently cancelled; either way the turn counter grows by exactly one
/// and every roster entity takes one turn, with the player already
/// standing wherever the action left them.  The inventory and settings
/// actions do nothing yet.
pub open spec fn spec_action_step(a: PlayerAction, pre: Data, post: Data) -> bool {
    if a.spec_is_move() {
        let cand = a.spec_move_target(pre.player);
        let blocked = spec_roster_hit(pre.objects@, cand);
        let moved_player = if blocked {
            pre.player
        } else {
            pre.player.spec_with_placement(cand)
        };
        &&& post.time == pre.time + 1
        &&& post.player == moved_player
        &&& post.map == pre.map
        &&& post.settings == pre.settings
        &&& post.objects@ == spec_tick_from(
            pre.objects@,
            0,
            moved_player,
            (pre.time + 1) as u32,
            pre.spec_level_number(),
        )
    } else {
        post == pre
    }
}

impl PlayerAction {
    /// The action is read and a method is performed based on it.
    ///
    /// data is required because most actions need to know about the
    /// world.
    pub fn perform_action(&self, data: &mut Data)
        requires
            old(data).spec_turn_ready(),
            old(data).player.placement.wf_margin(),
        ensures
            spec_action_step(*self, *old(data), *final(data)),
    {
        match self {
            PlayerAction::MoveLeft => self.move_left(data),
            PlayerAction::MoveRight => self.move_right(data),
            PlayerAction::MoveUp => self.move_up(data),
            PlayerAction::MoveDown => self.move_down(data),
            PlayerAction::Inventory => self.inventory(data),
            PlayerAction::Settings => self.settings(data),
        }
    }

    fn move_left(&self, data: &mut Data)
        requires
            old(data).spec_turn_ready(),
            old(data).player.placement.wf_margin(),
        ensures
            spec_action_step(PlayerAction::MoveLeft, *old(data), *final(data)),
    {
        if data.check_position(data.get_player().get_move_left()).is_none() {
            data.get_mut_player().move_left();
        }
        move_world_forward(data);
    }

    fn move_right(&self, data: &mut Data)
        requires
            old(data).spec_turn_ready(),
            old(data).player.placement.wf_margin(),
        ensures
            spec_action_step(PlayerAction::MoveRight, *old(data), *final(data)),
    {
        if data.check_position(data.get_player().get_move_right()).is_none() {
            data.get_mut_player().move_right();
        }
        move_world_forward(data);
    }

    fn move_up(&self, data: &mut Data)
        requires
            old(data).spec_turn_ready(),
            old(data).player.placement.wf_margin(),
        ensures
            spec_action_step(PlayerAction::MoveUp, *old(data), *final(data)),
    {
        if data.check_position(data.get_player().get_move_up()).is_none() {
            data.get_mut_player().move_up();
        }
        move_world_forward(data);
    }

    fn move_down(&self, data: &mut Data)
        requires
            old(data).spec_turn_ready(),
            old(data).player.placement.wf_margin(),
        ensures
            spec_action_step(PlayerAction::MoveDown, *old(data), *final(data)),
    {
        if data.check_position(data.get_player().get_move_down()).is_none() {
            data.get_mut_player().move_down();
        }
        move_world_forward(data);
    }

    fn inventory(&self, data: &mut Data)
        ensures
            *final(data) == *old(data),
    {
    }

    fn settings(&self, data: &mut Data)
        ensures
            *final(data) == *old(data),
    {
    }
}

/// A movement action whose target rectangle is occupied by a blocking
/// entity does not change the player's position - but the turn counter
/// still increments by exactly one, and the other entities still act.
pub proof fn lemma_blocked_move_costs_turn(a: PlayerAction, pre: Data, post: Data)
    requires
        spec_action_step(a, pre, post),
        a.spec_is_move(),
        spec_roster_hit(pre.objects@, a.spec_move_target(pre.player)),
    ensures
        post.player == pre.player,
        post.time == pre.time + 1,
{
}

/// Moves the game time one tick and gives all non-player entities their
/// turns.
pub fn move_world_forward(data: &mut Data)
    requires
        old(data).spec_turn_ready(),
    ensures
        final(data).time == old(data).time + 1,
        final(data).player == old(data).player,
        final(data).map == old(data).map,
        final(data).settings == old(data).settings,
        final(data).objects@ == spec_tick_from(
            old(data).objects@,
            0,
            old(data).player,
            (old(data).time + 1) as u32,
            old(data).spec_level_number(),
        ),
{
    data.add_one_time();
    data.entities_act();
}

/// Handles one key press, given as a plain key code.  The first binding
/// whose key matches wins and its action is performed; a key with no
/// binding does nothing.
pub fn handle_key_code(keycode: i32, data: &mut Data)
    requires
        old(data).spec_turn_ready(),
        old(data).player.placement.wf_margin(),
    ensures
        (exists|i: int|
            0 <= i < old(data).settings.bindings@.len() && (
            #[trigger] old(data).settings.bindings@[i]).0 == keycode) ==> exists|i: int|
            {
                &&& 0 <= i < old(data).settings.bindings@.len()
                &&& (#[trigger] old(data).settings.bindings@[i]).0 == keycode
                &&& forall|j: int|
                    0 <= j < i ==> old(data).settings.bindings@[j].0 != keycode
                &&& spec_action_step(
                    old(data).settings.bindings@[i].1,
                    *old(data),
                    *final(data),
                )
            },
        (forall|i: int|
            0 <= i < old(data).settings.bindings@.len() ==> (
            #[trigger] old(data).settings.bindings@[i]).0 != keycode) ==> *final(data) == *old(
            data,
        ),
{
    let mut action: Option<PlayerAction> = None;
    let ghost bs = data.settings.bindings@;
    let mut i: usize = 0;
    let n = data.get_settings().get_bindings().len();
    while i < n && action.is_none()
        invariant
            i <= n,
            n == bs.len(),
            data.settings.bindings@ == bs,
            *data == *old(data),
            match action {
                Some(a) => exists|k: int|
                    {
                        &&& 0 <= k < bs.len()
                        &&& (#[trigger] bs[k]).0 == keycode
                        &&& forall|j: int| 0 <= j < k ==> bs[j].0 != keycode
                        &&& a == bs[k].1
                    },
                None => forall|j: int| 0 <= j < i ==> (#[trigger] bs[j]).0 != keycode,
            },
        decreases n - i,
    {
        let binding = data.get_settings().get_bindings()[i];
        if binding.0 == keycode {
            action = Some(binding.1);
        }
        i = i + 1;
    }
    match action {
        Some(a) => a.perform_action(data),
        None => {},
    }
}

} // verus!
