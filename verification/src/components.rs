//! The data a controlled character carries from tick to tick.
//!
//! Speeds, accelerations and velocities are fixed-point integers: the caller
//! picks the scale (for instance thousandths of a world unit per second) and
//! uses it for every value handed to this crate.

use vstd::prelude::*;

verus! {

/// The horizontal direction a character faces.
#[derive(Clone, Copy, Debug, PartialEq, Eq, Structural)]
pub enum LookDirection {
    Left,
    Right,
}

/// The direction a character last moved in. It persists across ticks and only
/// changes while the character actively moves on the ground.
#[derive(Clone, Copy, Debug, PartialEq, Eq, Structural)]
pub struct Direction {
    pub value: LookDirection,
}

/// Present exactly while a character is off the ground.
#[derive(Clone, Copy, Debug, PartialEq, Eq, Structural)]
pub struct Airborne {
    /// The direction faced at takeoff.
    pub direction: LookDirection,
    /// Whether the character has started to fall since takeoff.
    pub reached_jump_apex: bool,
}

/// The state of one logical button during one tick.
#[derive(Clone, Copy, Debug, PartialEq, Eq, Structural)]
pub struct ButtonEvent {
    /// The button is held.
    pub down: bool,
    /// The button went from released to held this tick.
    pub pressed_this_frame: bool,
    /// The button went from held to released this tick.
    pub released_this_frame: bool,
}

impl ButtonEvent {
    /// A button that is not held and did not change.
    pub open spec fn idle() -> ButtonEvent {
        ButtonEvent { down: false, pressed_this_frame: false, released_this_frame: false }
    }
}

impl Default for ButtonEvent {
    fn default() -> (event: ButtonEvent)
        ensures
            event == ButtonEvent::idle(),
    {
        ButtonEvent { down: false, pressed_this_frame: false, released_this_frame: false }
    }
}

/// The three logical actions of a character, rewritten every tick.
#[derive(Clone, Copy, Debug, PartialEq, Eq, Structural)]
pub struct GameplayInputs {
    pub move_left: ButtonEvent,
    pub move_right: ButtonEvent,
    pub jump: ButtonEvent,
}

impl GameplayInputs {
    /// No action is held.
    pub open spec fn idle() -> GameplayInputs {
        GameplayInputs {
            move_left: ButtonEvent::idle(),
            move_right: ButtonEvent::idle(),
            jump: ButtonEvent::idle(),
        }
    }
}

impl Default for GameplayInputs {
    fn default() -> (inputs: GameplayInputs)
        ensures
            inputs == GameplayInputs::idle(),
    {
        GameplayInputs {
            move_left: ButtonEvent::default(),
            move_right: ButtonEvent::default(),
            jump: ButtonEvent::default(),
        }
    }
}

/// The movement tunables of a character, fixed when it is created.
///
/// Speeds and accelerations are magnitudes, so they are unsigned: a negative
/// one cannot be written down.
#[derive(Clone, Copy, Debug, PartialEq, Eq, Structural)]
pub struct Movement {
    /// The largest horizontal speed on the ground.
    pub max_speed: u32,
    /// The horizontal speed gained per tick while a direction is held.
    pub horizontal_acceleration: u32,
    /// The vertical velocity a jump sets.
    pub jump_power: u32,
    /// The largest horizontal speed in the air towards the takeoff direction.
    pub air_forward_max_speed: u32,
    /// The largest horizontal speed in the air against the takeoff direction.
    pub air_backward_max_speed: u32,
    /// The gravity scale meant for the rising part of a jump.
    pub rising_gravity_scale: i32,
    /// The gravity scale meant for the falling part of a jump.
    pub falling_gravity_scale: i32,
    /// Whether the takeoff direction decides the speed caps in the air.
    pub commit_jump_direction: bool,
}

/// Present exactly while the dash is unavailable: a countdown in the caller's
/// unit of time.
#[derive(Clone, Copy, Debug, PartialEq, Eq, Structural)]
pub struct DashCooldown {
    /// The time left until the dash is available again.
    pub remaining: u64,
}

} // verus!
