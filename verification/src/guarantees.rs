//! What the update rules guarantee, proved from their definitions.

use vstd::prelude::*;
use vstd::math::{max, min};
use crate::components::{
    Airborne, ButtonEvent, Direction, GameplayInputs, LookDirection, Movement,
};
use crate::physics::{contact_started, BodyHandle, ContactEvent, Velocity};
use crate::player::{flight_after, Player};
use crate::systems::{
    air_max_speed, air_x, apex_reached, captured_inputs, ground_direction, ground_takeoff,
    ground_x, ground_y, steered, ButtonSemantics, Keyboard,
};

verus! {

/// The horizontal velocity after `ticks` ticks of steering with the same
/// inputs, where nothing else touches the body in between.
pub open spec fn steered_for(
    inputs: GameplayInputs,
    x: int,
    acceleration: int,
    right_cap: int,
    left_cap: int,
    ticks: nat,
) -> int
    decreases ticks,
{
    if ticks == 0 {
        x
    } else {
        steered(
            inputs,
            steered_for(inputs, x, acceleration, right_cap, left_cap, (ticks - 1) as nat),
            acceleration,
            right_cap,
            left_cap,
        )
    }
}

/// The inputs with the left released.
pub open spec fn without_left(inputs: GameplayInputs) -> GameplayInputs {
    GameplayInputs { move_left: ButtonEvent::idle(), ..inputs }
}

/// Whether the apex is marked after the ticks that found the body at
/// `bodies`, oldest first, on a flight that began them as `airborne`.
pub open spec fn apex_after(airborne: Airborne, bodies: Seq<Option<Velocity>>) -> bool
    decreases bodies.len(),
{
    if bodies.len() == 0 {
        airborne.reached_jump_apex
    } else {
        apex_reached(
            Airborne {
                direction: airborne.direction,
                reached_jump_apex: apex_after(airborne, bodies.drop_last()),
            },
            bodies.last(),
        )
    }
}

/// On the ground with the right held, a tick takes the horizontal velocity
/// to the smaller of the previous one plus the acceleration and the largest
/// speed, whatever the velocity was before; so it ends at or under the
/// largest speed, and a body at the largest speed stays there.
pub proof fn ground_right_clamps(movement: Movement, inputs: GameplayInputs, x: int)
    requires
        inputs.move_right.down,
    ensures
        ground_x(movement, inputs, x) == min(
            x + movement.horizontal_acceleration,
            movement.max_speed as int,
        ),
        ground_x(movement, inputs, x) <= movement.max_speed,
        ground_x(movement, inputs, movement.max_speed as int) == movement.max_speed,
{
}

/// On the ground with the left held and the right released, a tick takes the
/// horizontal velocity to the larger of the previous one minus the
/// acceleration and the negated largest speed; so it ends at or over the
/// negated largest speed, and a body at that speed stays there.
pub proof fn ground_left_clamps(movement: Movement, inputs: GameplayInputs, x: int)
    requires
        inputs.move_left.down,
        !inputs.move_right.down,
    ensures
        ground_x(movement, inputs, x) == max(
            x - movement.horizontal_acceleration,
            -(movement.max_speed as int),
        ),
        ground_x(movement, inputs, x) >= -(movement.max_speed as int),
        ground_x(movement, inputs, -(movement.max_speed as int)) == -(movement.max_speed as int),
{
}

/// With the right held for any number of ticks, one at least, the
/// horizontal velocity is the start plus the acceleration of every tick,
/// cut at the cap: it never passes the cap, however long the key is held.
pub proof fn steering_right_never_exceeds_cap(
    inputs: GameplayInputs,
    x: int,
    acceleration: int,
    right_cap: int,
    left_cap: int,
    ticks: nat,
)
    requires
        inputs.move_right.down,
        0 <= acceleration,
        1 <= ticks,
    ensures
        steered_for(inputs, x, acceleration, right_cap, left_cap, ticks) == min(
            x + ticks * acceleration,
            right_cap,
        ),
        steered_for(inputs, x, acceleration, right_cap, left_cap, ticks) <= right_cap,
    decreases ticks,
{
    let before = (ticks - 1) as nat;
    assert(ticks * acceleration == before * acceleration + acceleration) by (nonlinear_arith)
        requires
            before == ticks - 1,
    ;
    if ticks == 1 {
        assert(ticks * acceleration == acceleration) by (nonlinear_arith)
            requires
                ticks == 1,
        ;
        assert(steered_for(inputs, x, acceleration, right_cap, left_cap, 0) == x);
    } else {
        steering_right_never_exceeds_cap(inputs, x, acceleration, right_cap, left_cap, before);
    }
}

/// With the left held and the right released for any number of ticks, one at
/// least, the horizontal velocity is the start minus the acceleration of
/// every tick, cut at the negated cap.
pub proof fn steering_left_never_exceeds_cap(
    inputs: GameplayInputs,
    x: int,
    acceleration: int,
    right_cap: int,
    left_cap: int,
    ticks: nat,
)
    requires
        inputs.move_left.down,
        !inputs.move_right.down,
        0 <= acceleration,
        1 <= ticks,
    ensures
        steered_for(inputs, x, acceleration, right_cap, left_cap, ticks) == max(
            x - ticks * acceleration,
            -left_cap,
        ),
        steered_for(inputs, x, acceleration, right_cap, left_cap, ticks) >= -left_cap,
    decreases ticks,
{
    let before = (ticks - 1) as nat;
    assert(ticks * acceleration == before * acceleration + acceleration) by (nonlinear_arith)
        requires
            before == ticks - 1,
    ;
    if ticks == 1 {
        assert(ticks * acceleration == acceleration) by (nonlinear_arith)
            requires
                ticks == 1,
        ;
        assert(steered_for(inputs, x, acceleration, right_cap, left_cap, 0) == x);
    } else {
        steering_left_never_exceeds_cap(inputs, x, acceleration, right_cap, left_cap, before);
    }
}

/// With both directions held the right wins: on the ground and in the air
/// a tick does what it does with the right held alone.
pub proof fn right_wins_over_left(
    movement: Movement,
    direction: Direction,
    airborne: Airborne,
    inputs: GameplayInputs,
    velocity: Velocity,
)
    requires
        inputs.move_right.down,
    ensures
        ground_x(movement, inputs, velocity.x as int) == ground_x(
            movement,
            without_left(inputs),
            velocity.x as int,
        ),
        ground_y(movement, inputs, velocity.y as int) == ground_y(
            movement,
            without_left(inputs),
            velocity.y as int,
        ),
        ground_direction(direction, inputs) == ground_direction(direction, without_left(inputs)),
        ground_takeoff(direction, inputs) == ground_takeoff(direction, without_left(inputs)),
        air_x(airborne, movement, inputs, velocity.x as int) == air_x(
            airborne,
            movement,
            without_left(inputs),
            velocity.x as int,
        ),
{
}

/// With neither direction held the horizontal velocity is zero after one
/// tick, on the ground and in the air, whatever it was before.
pub proof fn no_direction_stops_at_once(
    movement: Movement,
    airborne: Airborne,
    inputs: GameplayInputs,
    x: int,
)
    requires
        !inputs.move_right.down,
        !inputs.move_left.down,
    ensures
        ground_x(movement, inputs, x) == 0,
        air_x(airborne, movement, inputs, x) == 0,
{
}

/// A jump from the ground sets the vertical velocity to the jump power and
/// attaches a flight state whose apex is not marked and whose direction is
/// the one faced when the jump begins: the direction held this tick, or the
/// one faced before where none is held.
pub proof fn jump_takes_off(
    movement: Movement,
    direction: Direction,
    inputs: GameplayInputs,
    y: int,
)
    requires
        inputs.jump.pressed_this_frame,
    ensures
        ground_y(movement, inputs, y) == movement.jump_power,
        ground_takeoff(direction, inputs) == Some(
            Airborne {
                direction: ground_direction(direction, inputs).value,
                reached_jump_apex: false,
            },
        ),
        !inputs.move_right.down && !inputs.move_left.down ==> ground_takeoff(direction, inputs)
            == Some(Airborne { direction: direction.value, reached_jump_apex: false }),
{
}

/// A character on the ground whose body resolved and whose jump key goes
/// down ends that very tick in the air, whatever contacts the tick reports,
/// and the velocity written to its body points up with the jump power.
pub proof fn tick_with_jump_ends_airborne(
    player: Player,
    keyboard: Keyboard,
    semantics: ButtonSemantics,
    elapsed: u64,
    velocity: Velocity,
    events: Seq<ContactEvent>,
)
    requires
        player.airborne.is_none(),
        keyboard.space,
        semantics == ButtonSemantics::Edge ==> !player.inputs.jump.down,
    ensures
        player.ticked(keyboard, semantics, elapsed, Some(velocity), events).airborne == Some(
            Airborne {
                direction: player.ticked(
                    keyboard,
                    semantics,
                    elapsed,
                    Some(velocity),
                    events,
                ).direction.value,
                reached_jump_apex: false,
            },
        ),
        player.ticked_y(keyboard, semantics, velocity.y as int) == player.movement.jump_power,
{
}

/// The apex mark of a flight goes up on the first tick that finds the body
/// falling and never comes down again: after any ticks it is up exactly if
/// it was up before them or one of them found the body falling.
pub proof fn apex_is_marked_once(airborne: Airborne, bodies: Seq<Option<Velocity>>)
    ensures
        apex_after(airborne, bodies) == (airborne.reached_jump_apex || exists|k: int|
            0 <= k < bodies.len() && (#[trigger] bodies[k]).is_some() && bodies[k].unwrap().y < 0),
    decreases bodies.len(),
{
    if bodies.len() > 0 {
        let earlier = bodies.drop_last();
        apex_is_marked_once(airborne, earlier);
        let last = bodies.len() - 1;
        assert(forall|k: int| 0 <= k < last ==> earlier[k] == bodies[k]);
        if apex_after(airborne, bodies) && !airborne.reached_jump_apex {
            if apex_after(airborne, earlier) {
                let k = choose|k: int|
                    0 <= k < earlier.len() && (#[trigger] earlier[k]).is_some()
                        && earlier[k].unwrap().y < 0;
                assert(bodies[k].is_some() && bodies[k].unwrap().y < 0);
            } else {
                assert(bodies[last].is_some() && bodies[last].unwrap().y < 0);
            }
        }
        if exists|k: int|
            0 <= k < bodies.len() && (#[trigger] bodies[k]).is_some() && bodies[k].unwrap().y < 0 {
            let k = choose|k: int|
                0 <= k < bodies.len() && (#[trigger] bodies[k]).is_some() && bodies[k].unwrap().y
                    < 0;
            if k < last {
                assert(earlier[k].is_some() && earlier[k].unwrap().y < 0);
            }
        }
    }
}

/// While a flight lasts, a tick never takes the apex mark back, and it keeps
/// the takeoff direction.
pub proof fn apex_mark_is_kept(
    airborne: Airborne,
    direction: Direction,
    inputs: GameplayInputs,
    body: Option<Velocity>,
)
    requires
        airborne.reached_jump_apex,
    ensures
        flight_after(Some(airborne), direction, inputs, body, false) == Some(airborne),
{
}

/// An event that reports a started contact of a character's body takes its
/// flight state away in the tick that consumes it, wherever in the queue the
/// event stands.
pub proof fn started_contact_grounds(player: Player, events: Seq<ContactEvent>, k: int)
    requires
        0 <= k < events.len(),
        events[k].starts_contact_of(player.body),
    ensures
        contact_started(events, player.body),
        player.landed(events).airborne.is_none(),
        forall|
            keyboard: Keyboard,
            semantics: ButtonSemantics,
            elapsed: u64,
            body: Option<Velocity>,
        |
            player.airborne.is_some() ==> (#[trigger] player.ticked(
                keyboard,
                semantics,
                elapsed,
                body,
                events,
            )).airborne.is_none(),
{
}

/// Events that report ended contacts, and started contacts of other bodies,
/// ground nobody: without an event that reports a started contact of its
/// body a character keeps its flight state.
pub proof fn other_events_do_not_ground(player: Player, events: Seq<ContactEvent>)
    requires
        forall|k: int|
            0 <= k < events.len() ==> match #[trigger] events[k] {
                ContactEvent::Started(first, second) => first != player.body && second
                    != player.body,
                ContactEvent::Stopped(_, _) => true,
            },
    ensures
        !contact_started(events, player.body),
        player.landed(events) == player,
{
}

/// An ended contact never counts as a started one, whatever bodies it names.
pub proof fn ended_contact_is_ignored(first: BodyHandle, second: BodyHandle, body: BodyHandle)
    ensures
        !ContactEvent::Stopped(first, second).starts_contact_of(body),
        !contact_started(seq![ContactEvent::Stopped(first, second)], body),
{
}

/// A character that committed to its takeoff direction and steers against
/// it is held to the backward cap: after a takeoff to the right, with the
/// left held alone, the horizontal velocity is the larger of the previous
/// one minus the acceleration and the negated backward cap.
pub proof fn committed_jump_caps_backward_speed(
    airborne: Airborne,
    movement: Movement,
    inputs: GameplayInputs,
    x: int,
)
    requires
        movement.commit_jump_direction,
        airborne.direction == LookDirection::Right,
        inputs.move_left.down,
        !inputs.move_right.down,
    ensures
        air_max_speed(LookDirection::Left, airborne, movement) == movement.air_backward_max_speed,
        air_x(airborne, movement, inputs, x) == max(
            x - movement.horizontal_acceleration,
            -(movement.air_backward_max_speed as int),
        ),
        air_x(airborne, movement, inputs, x) >= -(movement.air_backward_max_speed as int),
{
}

/// A character that committed to its takeoff direction is held to the
/// forward cap towards it and to the backward cap against it.
pub proof fn committed_jump_caps(airborne: Airborne, movement: Movement, towards: LookDirection)
    requires
        movement.commit_jump_direction,
    ensures
        air_max_speed(towards, airborne, movement) == if towards == airborne.direction {
            movement.air_forward_max_speed
        } else {
            movement.air_backward_max_speed
        },
{
}

/// A character that did not commit to its takeoff direction moves in the air
/// under the caps of the ground, whatever direction it took off in.
pub proof fn uncommitted_jump_uses_ground_caps(
    airborne: Airborne,
    movement: Movement,
    inputs: GameplayInputs,
    towards: LookDirection,
    x: int,
)
    requires
        !movement.commit_jump_direction,
    ensures
        air_max_speed(towards, airborne, movement) == movement.max_speed,
        air_x(airborne, movement, inputs, x) == ground_x(movement, inputs, x),
        inputs.move_right.down ==> air_x(airborne, movement, inputs, x) <= movement.max_speed,
        !inputs.move_right.down && inputs.move_left.down ==> air_x(airborne, movement, inputs, x)
            >= -(movement.max_speed as int),
{
}

/// Either key of a direction moves that way, and a key that is held is a
/// button that is down, under both semantics.
pub proof fn held_keys_are_down(
    keyboard: Keyboard,
    semantics: ButtonSemantics,
    previous: GameplayInputs,
)
    ensures
        captured_inputs(keyboard, semantics, previous).move_left.down == (keyboard.a
            || keyboard.left),
        captured_inputs(keyboard, semantics, previous).move_right.down == (keyboard.d
            || keyboard.right),
        captured_inputs(keyboard, semantics, previous).jump.down == keyboard.space,
{
}

} // verus!
