//! The player's control state: mouse capture, jumping, weapon selection,
//! shooting and health.
//!
//! Each frame the embedding reads the input devices into a [`Controls`]
//! value, hands it to [`Player::handle_controls`] and carries out the
//! [`ControlActions`] that come back. Speeds, positions and angles stay with
//! the engine; the state here is the part of the player that decides.

use vstd::arithmetic::div_mod::lemma_add_mod_noop;
use vstd::arithmetic::div_mod::lemma_small_mod;
use vstd::prelude::*;

verus! {

/// Health of a player who has taken no damage.
pub const FULL_HEALTH: i32 = 100;

/// The deciding part of the player's state.
#[derive(Clone, Copy, Debug, PartialEq, Eq)]
pub struct Player {
    /// Slot of the weapon in hand; `None` until the first weapon is drawn.
    pub weapon: Option<usize>,
    /// Slot chosen by the last weapon switch. The weapon in hand follows it
    /// once the switch has played out.
    pub weapon_index: usize,
    /// The mouse pointer is captured and steers the view.
    pub mouse_captured: bool,
    /// Health in percent; below zero the player is dead.
    pub health: i32,
    /// The player stood on the floor at the end of the last physics step.
    pub previously_floored: bool,
    /// A jump from the floor is available.
    pub jump_single: bool,
    /// A jump in mid-air is available.
    pub jump_double: bool,
}

/// What the input devices and the weapon's cooldown timer report in one frame.
#[derive(Clone, Copy, Debug, PartialEq, Eq)]
pub struct Controls {
    /// The action that captures the mouse was just pressed.
    pub mouse_capture: bool,
    /// The action that frees the mouse was just pressed.
    pub mouse_capture_exit: bool,
    /// The trigger is held down.
    pub shoot: bool,
    /// The weapon's cooldown timer is not running.
    pub cooldown_stopped: bool,
    /// The jump action was just pressed.
    pub jump: bool,
    /// The action that switches weapons was just pressed.
    pub weapon_toggle: bool,
    /// Number of weapons that the player carries.
    pub weapon_count: usize,
}

/// What the embedding has to carry out after a frame's controls, in the order
/// of the fields.
#[derive(Clone, Copy, Debug, PartialEq, Eq)]
pub struct ControlActions {
    /// Put the mouse in captured mode.
    pub capture_mouse: bool,
    /// Put the mouse in visible mode and forget its last motion.
    pub release_mouse: bool,
    /// Fire the weapon in this slot.
    pub fire: Option<usize>,
    /// Start a jump: play one of the jump sounds and give the player the
    /// upward speed of a jump.
    pub jump: bool,
    /// Start swapping to the weapon in this slot, and play the sound of it.
    pub switch_weapon: Option<usize>,
}

/// What a hit does to the player.
#[derive(Clone, Copy, Debug, PartialEq, Eq)]
pub struct DamageReport {
    /// Health after the hit, to be announced to the listeners.
    pub health: i32,
    /// The player is dead and the scene starts over.
    pub reload_scene: bool,
}

impl Controls {
    /// The trigger is held and the weapon is ready.
    pub open spec fn fires(self) -> bool {
        self.shoot && self.cooldown_stopped
    }
}

impl Player {
    /// Number of jumps that the player can still start before touching the
    /// floor again.
    pub open spec fn jumps_left(self) -> nat {
        if self.jump_single {
            2
        } else if self.jump_double {
            1
        } else {
            0
        }
    }

    /// The slot after `self.weapon_index`, going round a belt of
    /// `weapon_count` weapons.
    pub open spec fn next_slot(self, weapon_count: usize) -> int
        recommends
            weapon_count > 0,
    {
        (self.weapon_index + 1) % (weapon_count as int)
    }

    /// The chosen slot and the weapon in hand, if there is one, are slots of a
    /// belt of `weapon_count` weapons.
    pub open spec fn on_belt(self, weapon_count: usize) -> bool {
        &&& self.weapon_index < weapon_count
        &&& self.weapon matches Some(slot) ==> slot < weapon_count
    }

    /// The state after a press of the jump action.
    pub open spec fn after_jump_press(self) -> Player {
        Player { jump_single: false, jump_double: self.jump_single, ..self }
    }

    /// The controls ask for nothing that the player's state cannot give: a
    /// shot needs a weapon in hand, a switch needs a weapon to switch to.
    pub open spec fn admits(self, controls: Controls) -> bool {
        &&& controls.fires() ==> self.weapon is Some
        &&& controls.weapon_toggle ==> controls.weapon_count > 0
    }

    /// The state after a frame's controls.
    pub open spec fn after_controls(self, controls: Controls) -> Player {
        let jumped = if controls.jump {
            self.after_jump_press()
        } else {
            self
        };
        Player {
            mouse_captured: if controls.mouse_capture_exit {
                false
            } else if controls.mouse_capture {
                true
            } else {
                self.mouse_captured
            },
            weapon_index: if controls.weapon_toggle {
                self.next_slot(controls.weapon_count) as usize
            } else {
                self.weapon_index
            },
            ..jumped
        }
    }

    /// The actions that a frame's controls call for.
    pub open spec fn control_actions(self, controls: Controls) -> ControlActions {
        ControlActions {
            capture_mouse: controls.mouse_capture,
            release_mouse: controls.mouse_capture_exit,
            fire: if controls.fires() {
                self.weapon
            } else {
                None
            },
            jump: controls.jump && self.jumps_left() > 0,
            switch_weapon: if controls.weapon_toggle {
                Some(self.next_slot(controls.weapon_count) as usize)
            } else {
                None
            },
        }
    }

    /// A player at full health, standing by with the first weapon slot
    /// chosen, the mouse captured and both jumps available.
    pub fn new() -> (player: Player)
        ensures
            player == (Player {
                weapon: None,
                weapon_index: 0,
                mouse_captured: true,
                health: FULL_HEALTH,
                previously_floored: false,
                jump_single: true,
                jump_double: true,
            }),
    {
        Player {
            weapon: None,
            weapon_index: 0,
            mouse_captured: true,
            health: FULL_HEALTH,
            previously_floored: false,
            jump_single: true,
            jump_double: true,
        }
    }

    /// Enters the scene: the weapon in the chosen slot comes to hand, and the
    /// swap to it is started. Returns the slot to swap to.
    pub fn ready(&mut self, weapon_count: usize) -> (slot: usize)
        requires
            old(self).weapon_index < weapon_count,
        ensures
            slot == old(self).weapon_index,
            *final(self) == (Player { weapon: Some(slot), ..*old(self) }),
            final(self).on_belt(weapon_count),
    {
        self.change_weapon(weapon_count);
        self.initiate_change_weapon(self.weapon_index);
        self.weapon_index
    }

    /// Applies one frame of controls, in this order: mouse capture, mouse
    /// release, shooting, jumping, weapon switch.
    ///
    /// A press of the jump action starts a jump while one is left: the first
    /// from the floor, the second in mid-air.
    pub fn handle_controls(&mut self, controls: &Controls) -> (actions: ControlActions)
        requires
            old(self).admits(*controls),
        ensures
            *final(self) == old(self).after_controls(*controls),
            actions == old(self).control_actions(*controls),
            old(self).on_belt(controls.weapon_count) ==> final(self).on_belt(
                controls.weapon_count,
            ),
    {
        if controls.mouse_capture {
            self.mouse_captured = true;
        }
        if controls.mouse_capture_exit {
            self.mouse_captured = false;
        }
        let fire = self.action_shoot(controls.shoot, controls.cooldown_stopped);
        let mut jump = false;
        if controls.jump {
            if self.jump_double {
                jump = true;
                self.jump_double = false;
            }
            if self.jump_single {
                jump = true;
                self.action_jump();
            }
        }
        let switch_weapon = self.action_weapon_toggle(controls.weapon_toggle, controls.weapon_count);
        ControlActions {
            capture_mouse: controls.mouse_capture,
            release_mouse: controls.mouse_capture_exit,
            fire,
            jump,
            switch_weapon,
        }
    }

    /// Lets gravity act for one physics step. `falling` says that the
    /// player's downward speed is positive after the step's acceleration,
    /// `on_floor` that the player stands on the floor.
    ///
    /// A falling player on the floor has landed: the jump from the floor is
    /// available again, and the result tells the embedding to set the
    /// downward speed to zero.
    pub fn handle_gravity(&mut self, falling: bool, on_floor: bool) -> (grounded: bool)
        ensures
            grounded == (falling && on_floor),
            *final(self) == (Player {
                jump_single: old(self).jump_single || grounded,
                ..*old(self)
            }),
    {
        if falling && on_floor {
            self.jump_single = true;
            true
        } else {
            false
        }
    }

    /// Records at the end of a physics step whether the player stands on the
    /// floor. `falling_fast` says that the downward speed is above the
    /// threshold of a hard landing.
    ///
    /// Returns whether the player has just landed hard: on the floor now, not
    /// on it a step ago, and falling fast. The embedding then plays the
    /// landing sound and dips the camera.
    pub fn track_floor(&mut self, on_floor: bool, falling_fast: bool) -> (landed: bool)
        ensures
            landed == (on_floor && falling_fast && !old(self).previously_floored),
            *final(self) == (Player { previously_floored: on_floor, ..*old(self) }),
    {
        let landed = on_floor && falling_fast && !self.previously_floored;
        self.previously_floored = on_floor;
        landed
    }

    /// Starts a jump from the floor: that jump is used up, and the jump in
    /// mid-air becomes available.
    pub fn action_jump(&mut self)
        ensures
            *final(self) == (Player { jump_single: false, jump_double: true, ..*old(self) }),
    {
        self.jump_single = false;
        self.jump_double = true;
    }

    /// Decides whether the weapon fires: it does while the trigger is held
    /// and the cooldown timer is not running. Returns the slot of the weapon
    /// to fire.
    pub fn action_shoot(&self, shoot: bool, cooldown_stopped: bool) -> (fire: Option<usize>)
        requires
            shoot && cooldown_stopped ==> self.weapon is Some,
        ensures
            fire == if shoot && cooldown_stopped {
                self.weapon
            } else {
                None::<usize>
            },
    {
        if shoot && cooldown_stopped {
            self.weapon
        } else {
            None
        }
    }

    /// On a press of the switch action, chooses the next weapon slot, going
    /// round after the last, and returns it for the swap to start.
    pub fn action_weapon_toggle(&mut self, pressed: bool, weapon_count: usize) -> (slot: Option<
        usize,
    >)
        requires
            pressed ==> weapon_count > 0,
        ensures
            pressed ==> slot == Some(old(self).next_slot(weapon_count) as usize),
            pressed ==> *final(self) == (Player {
                weapon_index: old(self).next_slot(weapon_count) as usize,
                ..*old(self)
            }),
            pressed ==> final(self).weapon_index < weapon_count,
            !pressed ==> slot is None && *final(self) == *old(self),
    {
        if pressed {
            let slot = self.weapon_index % weapon_count;
            proof {
                lemma_next_slot(self.weapon_index as int, weapon_count as int);
            }
            let next = (slot + 1) % weapon_count;
            self.initiate_change_weapon(next);
            Some(next)
        } else {
            None
        }
    }

    /// Chooses a weapon slot. The weapon in hand stays until
    /// [`Player::change_weapon`] completes the swap.
    pub fn initiate_change_weapon(&mut self, weapon_index: usize)
        ensures
            *final(self) == (Player { weapon_index, ..*old(self) }),
    {
        self.weapon_index = weapon_index;
    }

    /// Completes a swap: the weapon in the chosen slot comes to hand.
    #[allow(unused_variables)]
    pub fn change_weapon(&mut self, weapon_count: usize)
        requires
            old(self).weapon_index < weapon_count,
        ensures
            *final(self) == (Player { weapon: Some(old(self).weapon_index), ..*old(self) }),
            final(self).on_belt(weapon_count),
    {
        self.weapon = Some(self.weapon_index);
    }

    /// Takes `amount` points of damage. The player dies when health falls
    /// below zero; at zero the player still lives.
    pub fn damage(&mut self, amount: i32) -> (report: DamageReport)
        requires
            i32::MIN <= old(self).health - amount <= i32::MAX,
        ensures
            report.health == old(self).health - amount,
            report.reload_scene == (old(self).health - amount < 0),
            *final(self) == (Player { health: report.health, ..*old(self) }),
    {
        self.health = self.health - amount;
        DamageReport { health: self.health, reload_scene: self.health < 0 }
    }
}

/// Stepping from a slot reduced to the belt gives the same slot as stepping
/// from the slot itself.
proof fn lemma_next_slot(index: int, count: int)
    requires
        0 <= index,
        0 < count,
    ensures
        0 <= index % count < count,
        ((index % count) + 1) % count == (index + 1) % count,
{
    lemma_add_mod_noop(index, 1, count);
    if count == 1 {
        assert(1int % 1 == 0);
    } else {
        lemma_small_mod(1, count as nat);
    }
}

/// A press of the jump action starts a jump exactly when one is left, and
/// uses it up: a player who has touched the floor can start two jumps, and no
/// third before touching the floor again.
pub proof fn lemma_jump_budget(player: Player, controls: Controls)
    requires
        controls.jump,
    ensures
        player.control_actions(controls).jump == (player.jumps_left() > 0),
        player.jumps_left() > 0 ==> player.after_controls(controls).jumps_left()
            == player.jumps_left() - 1,
        player.jumps_left() == 0 ==> player.after_controls(controls).jumps_left() == 0,
{
}

/// A weapon switch always chooses a slot on the belt: from a slot before the
/// last it goes one slot on, and from the last slot back to the first.
pub proof fn lemma_switch_stays_on_belt(player: Player, weapon_count: usize)
    requires
        weapon_count > 0,
    ensures
        0 <= player.next_slot(weapon_count) < weapon_count,
        player.weapon_index + 1 < weapon_count ==> player.next_slot(weapon_count)
            == player.weapon_index + 1,
        player.weapon_index + 1 == weapon_count ==> player.next_slot(weapon_count) == 0,
{
    if player.weapon_index + 1 < weapon_count {
        lemma_small_mod((player.weapon_index + 1) as nat, weapon_count as nat);
    } else if player.weapon_index + 1 == weapon_count {
        assert((weapon_count as int) % (weapon_count as int) == 0) by (nonlinear_arith)
            requires
                weapon_count > 0,
        ;
    }
}

} // verus!
