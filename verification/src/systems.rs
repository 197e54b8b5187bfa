//! The update rules of one tick, each on the components of one character.
//!
//! The physics engine owns the bodies. A rule that reads a body takes the
//! velocity that its handle resolved to, or `None` where it resolved to
//! nothing, and returns the velocity to write back.

use vstd::prelude::*;
use vstd::math::{max, min};
use crate::components::{
    Airborne, ButtonEvent, DashCooldown, Direction, GameplayInputs, LookDirection, Movement,
};
use crate::physics::Velocity;

verus! {

/// The raw hold state of the five physical keys: two per horizontal
/// direction and one for the jump. A key that cannot be read is not held.
#[derive(Clone, Copy, Debug, PartialEq, Eq, Structural)]
pub struct Keyboard {
    pub a: bool,
    pub left: bool,
    pub d: bool,
    pub right: bool,
    pub space: bool,
}

/// How the hold state of a key becomes a `ButtonEvent`.
#[derive(Clone, Copy, Debug, PartialEq, Eq, Structural)]
pub enum ButtonSemantics {
    /// All three flags repeat the hold state of this tick.
    Level,
    /// `down` is the hold state; the other two flags are its changes against
    /// the previous tick.
    Edge,
}

/// The event of a button that is `held` now and was `previous` a tick ago.
pub open spec fn button_event_of(
    held: bool,
    previous: ButtonEvent,
    semantics: ButtonSemantics,
) -> ButtonEvent {
    match semantics {
        ButtonSemantics::Level => ButtonEvent {
            down: held,
            pressed_this_frame: held,
            released_this_frame: held,
        },
        ButtonSemantics::Edge => ButtonEvent {
            down: held,
            pressed_this_frame: held && !previous.down,
            released_this_frame: !held && previous.down,
        },
    }
}

/// The inputs of a tick: either key of a direction moves that way.
pub open spec fn captured_inputs(
    keyboard: Keyboard,
    semantics: ButtonSemantics,
    previous: GameplayInputs,
) -> GameplayInputs {
    GameplayInputs {
        move_left: button_event_of(keyboard.a || keyboard.left, previous.move_left, semantics),
        move_right: button_event_of(keyboard.d || keyboard.right, previous.move_right, semantics),
        jump: button_event_of(keyboard.space, previous.jump, semantics),
    }
}

/// Computes the event of one button.
pub fn button_event(held: bool, previous: &ButtonEvent, semantics: ButtonSemantics) -> (event:
    ButtonEvent)
    ensures
        event == button_event_of(held, *previous, semantics),
{
    match semantics {
        ButtonSemantics::Level => ButtonEvent {
            down: held,
            pressed_this_frame: held,
            released_this_frame: held,
        },
        ButtonSemantics::Edge => ButtonEvent {
            down: held,
            pressed_this_frame: held && !previous.down,
            released_this_frame: !held && previous.down,
        },
    }
}

/// Overwrites the inputs of the previous tick with those read from the
/// keyboard.
pub fn keyboard_input(keyboard: &Keyboard, semantics: ButtonSemantics, inputs: &mut GameplayInputs)
    ensures
        *final(inputs) == captured_inputs(*keyboard, semantics, *old(inputs)),
{
    let move_left = button_event(keyboard.a || keyboard.left, &inputs.move_left, semantics);
    let move_right = button_event(keyboard.d || keyboard.right, &inputs.move_right, semantics);
    let jump = button_event(keyboard.space, &inputs.jump, semantics);
    inputs.move_left = move_left;
    inputs.move_right = move_right;
    inputs.jump = jump;
}

/// The time left on a countdown of `remaining` once `elapsed` has passed.
pub open spec fn remaining_after(remaining: u64, elapsed: u64) -> int {
    max(remaining - elapsed, 0)
}

/// Advances the countdown by `elapsed` and tells whether it ran out, in
/// which case the cooldown is to be taken off its character.
pub fn update_dash_cooldown(cooldown: &mut DashCooldown, elapsed: u64) -> (finished: bool)
    ensures
        final(cooldown).remaining == remaining_after(old(cooldown).remaining, elapsed),
        finished == (elapsed >= old(cooldown).remaining),
{
    if elapsed >= cooldown.remaining {
        cooldown.remaining = 0;
        true
    } else {
        cooldown.remaining = cooldown.remaining - elapsed;
        false
    }
}

/// The horizontal velocity after one tick of steering: towards the right up
/// to `right_cap`, else towards the left down to `-left_cap`, else a stop at
/// once. The right wins where both directions are held.
pub open spec fn steered(
    inputs: GameplayInputs,
    x: int,
    acceleration: int,
    right_cap: int,
    left_cap: int,
) -> int {
    if inputs.move_right.down {
        min(x + acceleration, right_cap)
    } else if inputs.move_left.down {
        max(x - acceleration, -left_cap)
    } else {
        0
    }
}

/// Computes the horizontal velocity after one tick of steering.
pub fn steer(
    inputs: &GameplayInputs,
    x: i64,
    acceleration: u32,
    right_cap: u32,
    left_cap: u32,
) -> (next: i64)
    ensures
        next == steered(*inputs, x as int, acceleration as int, right_cap as int, left_cap as int),
{
    let gain: i64 = acceleration as i64;
    if inputs.move_right.down {
        let cap: i64 = right_cap as i64;
        if x >= cap - gain {
            cap
        } else {
            x + gain
        }
    } else if inputs.move_left.down {
        let cap: i64 = left_cap as i64;
        if x <= gain - cap {
            -cap
        } else {
            x - gain
        }
    } else {
        0
    }
}

/// The largest horizontal speed in the air for a character that steers
/// towards `input_direction`.
pub open spec fn air_max_speed(
    input_direction: LookDirection,
    airborne: Airborne,
    movement: Movement,
) -> u32 {
    if !movement.commit_jump_direction {
        movement.max_speed
    } else if airborne.direction == input_direction {
        movement.air_forward_max_speed
    } else {
        movement.air_backward_max_speed
    }
}

/// Computes the largest horizontal speed in the air for a character that
/// steers towards `input_direction`.
pub fn get_air_max_speed(
    input_direction: LookDirection,
    airborne: &Airborne,
    movement: &Movement,
) -> (cap: u32)
    ensures
        cap == air_max_speed(input_direction, *airborne, *movement),
{
    if !movement.commit_jump_direction {
        movement.max_speed
    } else if airborne.direction == input_direction {
        movement.air_forward_max_speed
    } else {
        movement.air_backward_max_speed
    }
}

/// What a tick on the ground does to a character whose body resolved.
#[derive(Clone, Copy, Debug, PartialEq, Eq)]
pub struct GroundStep {
    /// The velocity to write to the body.
    pub velocity: Velocity,
    /// The flight state to attach, where the character jumped.
    pub takeoff: Option<Airborne>,
}

/// The direction faced after a tick on the ground.
pub open spec fn ground_direction(direction: Direction, inputs: GameplayInputs) -> Direction {
    if inputs.move_right.down {
        Direction { value: LookDirection::Right }
    } else if inputs.move_left.down {
        Direction { value: LookDirection::Left }
    } else {
        direction
    }
}

/// The horizontal velocity after a tick on the ground.
pub open spec fn ground_x(movement: Movement, inputs: GameplayInputs, x: int) -> int {
    steered(
        inputs,
        x,
        movement.horizontal_acceleration as int,
        movement.max_speed as int,
        movement.max_speed as int,
    )
}

/// The vertical velocity after a tick on the ground: a jump sets it, it is
/// not added to.
pub open spec fn ground_y(movement: Movement, inputs: GameplayInputs, y: int) -> int {
    if inputs.jump.pressed_this_frame {
        movement.jump_power as int
    } else {
        y
    }
}

/// The flight state that a tick on the ground attaches.
pub open spec fn ground_takeoff(direction: Direction, inputs: GameplayInputs) -> Option<Airborne> {
    if inputs.jump.pressed_this_frame {
        Some(
            Airborne {
                direction: ground_direction(direction, inputs).value,
                reached_jump_apex: false,
            },
        )
    } else {
        None
    }
}

/// Moves a character that is on the ground.
///
/// Where `body` is `None` the character is skipped: nothing changes and
/// nothing is returned.
pub fn player_movement(
    movement: &Movement,
    direction: &mut Direction,
    inputs: &GameplayInputs,
    body: Option<Velocity>,
) -> (step: Option<GroundStep>)
    ensures
        body.is_none() ==> step.is_none() && *final(direction) == *old(direction),
        body.is_some() ==> step.is_some() && *final(direction) == ground_direction(
            *old(direction),
            *inputs,
        ),
        body.is_some() ==> step.unwrap().velocity.x == ground_x(
            *movement,
            *inputs,
            body.unwrap().x as int,
        ),
        body.is_some() ==> step.unwrap().velocity.y == ground_y(
            *movement,
            *inputs,
            body.unwrap().y as int,
        ),
        body.is_some() ==> step.unwrap().takeoff == ground_takeoff(*old(direction), *inputs),
{
    match body {
        None => None,
        Some(velocity) => {
            if inputs.move_right.down {
                direction.value = LookDirection::Right;
            } else if inputs.move_left.down {
                direction.value = LookDirection::Left;
            }
            let x: i64 = steer(
                inputs,
                velocity.x,
                movement.horizontal_acceleration,
                movement.max_speed,
                movement.max_speed,
            );
            if inputs.jump.pressed_this_frame {
                Some(
                    GroundStep {
                        velocity: Velocity { x, y: movement.jump_power as i64 },
                        takeoff: Some(
                            Airborne { direction: direction.value, reached_jump_apex: false },
                        ),
                    },
                )
            } else {
                Some(GroundStep { velocity: Velocity { x, y: velocity.y }, takeoff: None })
            }
        },
    }
}

/// The horizontal velocity after a tick in the air.
pub open spec fn air_x(
    airborne: Airborne,
    movement: Movement,
    inputs: GameplayInputs,
    x: int,
) -> int {
    steered(
        inputs,
        x,
        movement.horizontal_acceleration as int,
        air_max_speed(LookDirection::Right, airborne, movement) as int,
        air_max_speed(LookDirection::Left, airborne, movement) as int,
    )
}

/// Moves a character that is in the air and returns the velocity to write to
/// its body. The vertical velocity is left alone.
///
/// Where `body` is `None` the character is skipped and nothing is returned.
pub fn player_air_movement(
    airborne: &Airborne,
    movement: &Movement,
    inputs: &GameplayInputs,
    body: Option<Velocity>,
) -> (next: Option<Velocity>)
    ensures
        body.is_none() ==> next.is_none(),
        body.is_some() ==> next.is_some() && next.unwrap().y == body.unwrap().y,
        body.is_some() ==> next.unwrap().x == air_x(
            *airborne,
            *movement,
            *inputs,
            body.unwrap().x as int,
        ),
{
    match body {
        None => None,
        Some(velocity) => {
            let right_cap: u32 = get_air_max_speed(LookDirection::Right, airborne, movement);
            let left_cap: u32 = get_air_max_speed(LookDirection::Left, airborne, movement);
            let x: i64 = steer(
                inputs,
                velocity.x,
                movement.horizontal_acceleration,
                right_cap,
                left_cap,
            );
            Some(Velocity { x, y: velocity.y })
        },
    }
}

/// Whether a character with this flight state and body has passed the apex
/// of its jump: it had before, or it is falling now.
pub open spec fn apex_reached(airborne: Airborne, body: Option<Velocity>) -> bool {
    airborne.reached_jump_apex || (body.is_some() && body.unwrap().y < 0)
}

/// Marks the apex of a jump once the body falls. The mark is never taken
/// back, and a body that did not resolve changes nothing.
pub fn apex_detection(airborne: &mut Airborne, body: Option<Velocity>)
    ensures
        final(airborne).direction == old(airborne).direction,
        final(airborne).reached_jump_apex == apex_reached(*old(airborne), body),
{
    if let Some(velocity) = body {
        if !airborne.reached_jump_apex && velocity.y < 0 {
            airborne.reached_jump_apex = true;
        }
    }
}

/// The gravity scale that a flight calls for: the rising one until the apex
/// is marked, the falling one from then on.
pub open spec fn flight_gravity_scale(movement: Movement, airborne: Airborne) -> i32 {
    if airborne.reached_jump_apex {
        movement.falling_gravity_scale
    } else {
        movement.rising_gravity_scale
    }
}

/// Computes the gravity scale that a flight calls for. No rule of a tick
/// applies it: a caller that wants the fall to be heavier than the rise
/// gives the body this scale after the tick.
pub fn gravity_scale(movement: &Movement, airborne: &Airborne) -> (scale: i32)
    ensures
        scale == flight_gravity_scale(*movement, *airborne),
{
    if airborne.reached_jump_apex {
        movement.falling_gravity_scale
    } else {
        movement.rising_gravity_scale
    }
}

} // verus!
