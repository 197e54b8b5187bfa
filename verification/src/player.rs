//! A controlled character as one value, and its whole tick.
//!
//! The flight state is the optional `airborne` field: `None` is grounded, the
//! state a character starts in. One tick takes the character through exactly
//! one of the two movement rules, chosen by the flight state it entered the
//! tick with.

use vstd::prelude::*;
use crate::components::{Airborne, DashCooldown, Direction, GameplayInputs, Movement};
use crate::physics::{contact_started, has_contact_started, BodyHandle, ContactEvent, Velocity};
use crate::systems::{
    air_x, apex_detection, apex_reached, captured_inputs, ground_direction, ground_takeoff,
    ground_x, ground_y, keyboard_input, player_air_movement, player_movement,
    update_dash_cooldown, ButtonSemantics, Keyboard,
};

verus! {

/// A controlled character.
#[derive(Clone, Copy, Debug, PartialEq, Eq)]
pub struct Player {
    pub movement: Movement,
    pub direction: Direction,
    pub inputs: GameplayInputs,
    /// `Some` exactly while the character is off the ground.
    pub airborne: Option<Airborne>,
    /// `Some` exactly while the dash is unavailable.
    pub dash_cooldown: Option<DashCooldown>,
    /// The rigid body that the physics engine moves for this character.
    pub body: BodyHandle,
}

/// The cooldown left after `elapsed`: it is gone once it has run out.
pub open spec fn cooled_down(cooldown: Option<DashCooldown>, elapsed: u64) -> Option<DashCooldown> {
    match cooldown {
        Some(running) => if elapsed >= running.remaining {
            None
        } else {
            Some(DashCooldown { remaining: (running.remaining - elapsed) as u64 })
        },
        None => None,
    }
}

/// The flight state after a tick that was entered with `airborne`.
///
/// On the ground only a jump changes it, and only where the body resolved.
/// In the air a contact that started ends the flight; short of that the
/// apex is marked once the body falls.
pub open spec fn flight_after(
    airborne: Option<Airborne>,
    direction: Direction,
    inputs: GameplayInputs,
    body: Option<Velocity>,
    touched: bool,
) -> Option<Airborne> {
    match airborne {
        None => if body.is_some() {
            ground_takeoff(direction, inputs)
        } else {
            None
        },
        Some(flight) => if touched {
            None
        } else {
            Some(
                Airborne {
                    direction: flight.direction,
                    reached_jump_apex: apex_reached(flight, body),
                },
            )
        },
    }
}

/// Advances a dash cooldown, if there is one, and drops it once it has run
/// out.
pub fn cool_down(cooldown: Option<DashCooldown>, elapsed: u64) -> (left: Option<DashCooldown>)
    ensures
        left == cooled_down(cooldown, elapsed),
{
    match cooldown {
        Some(running) => {
            let mut cooldown: DashCooldown = running;
            if update_dash_cooldown(&mut cooldown, elapsed) {
                None
            } else {
                Some(cooldown)
            }
        },
        None => None,
    }
}

impl Player {
    /// A character on the ground, with no input held and the dash available.
    pub fn new(movement: Movement, direction: Direction, body: BodyHandle) -> (player: Player)
        ensures
            player == (Player {
                movement,
                direction,
                inputs: GameplayInputs::idle(),
                airborne: None,
                dash_cooldown: None,
                body,
            }),
    {
        Player {
            movement,
            direction,
            inputs: GameplayInputs::default(),
            airborne: None,
            dash_cooldown: None,
            body,
        }
    }

    /// The character without its flight state where `events` report that its
    /// body began to touch something, else unchanged.
    pub open spec fn landed(self, events: Seq<ContactEvent>) -> Player {
        Player {
            airborne: if contact_started(events, self.body) {
                None
            } else {
                self.airborne
            },
            ..self
        }
    }

    /// The character after one tick.
    pub open spec fn ticked(
        self,
        keyboard: Keyboard,
        semantics: ButtonSemantics,
        elapsed: u64,
        body: Option<Velocity>,
        events: Seq<ContactEvent>,
    ) -> Player {
        let inputs = captured_inputs(keyboard, semantics, self.inputs);
        Player {
            movement: self.movement,
            direction: if self.airborne.is_none() && body.is_some() {
                ground_direction(self.direction, inputs)
            } else {
                self.direction
            },
            inputs,
            airborne: flight_after(
                self.airborne,
                self.direction,
                inputs,
                body,
                contact_started(events, self.body),
            ),
            dash_cooldown: cooled_down(self.dash_cooldown, elapsed),
            body: self.body,
        }
    }

    /// The horizontal velocity that one tick writes to a body that moved at
    /// `x`.
    pub open spec fn ticked_x(self, keyboard: Keyboard, semantics: ButtonSemantics, x: int) -> int {
        let inputs = captured_inputs(keyboard, semantics, self.inputs);
        match self.airborne {
            None => ground_x(self.movement, inputs, x),
            Some(flight) => air_x(flight, self.movement, inputs, x),
        }
    }

    /// The vertical velocity that one tick writes to a body that moved at
    /// `y`: only a jump from the ground changes it.
    pub open spec fn ticked_y(self, keyboard: Keyboard, semantics: ButtonSemantics, y: int) -> int {
        let inputs = captured_inputs(keyboard, semantics, self.inputs);
        match self.airborne {
            None => ground_y(self.movement, inputs, y),
            Some(_) => y,
        }
    }

    /// Runs one tick of this character, in the fixed order: the inputs are
    /// read, the dash cooldown advances, the character moves by the rule of
    /// the flight state it entered the tick with, and a character that
    /// entered it in the air lands on a started contact or else has its apex
    /// looked for.
    ///
    /// `body` is the velocity that the character's handle resolved to, and
    /// `events` are the contact events of this tick, oldest first. The
    /// result is the velocity to write to the body; where `body` is `None`
    /// the character does not move and nothing is to be written.
    pub fn tick(
        &mut self,
        keyboard: &Keyboard,
        semantics: ButtonSemantics,
        elapsed: u64,
        body: Option<Velocity>,
        events: &Vec<ContactEvent>,
    ) -> (written: Option<Velocity>)
        ensures
            *final(self) == old(self).ticked(*keyboard, semantics, elapsed, body, events@),
            body.is_none() ==> written.is_none(),
            body.is_some() ==> written.is_some(),
            body.is_some() ==> written.unwrap().x == old(self).ticked_x(
                *keyboard,
                semantics,
                body.unwrap().x as int,
            ),
            body.is_some() ==> written.unwrap().y == old(self).ticked_y(
                *keyboard,
                semantics,
                body.unwrap().y as int,
            ),
    {
        keyboard_input(keyboard, semantics, &mut self.inputs);
        self.dash_cooldown = cool_down(self.dash_cooldown, elapsed);
        let touched = has_contact_started(events, self.body);
        let movement: Movement = self.movement;
        let inputs: GameplayInputs = self.inputs;
        match self.airborne {
            None => {
                let mut direction: Direction = self.direction;
                let step = player_movement(&movement, &mut direction, &inputs, body);
                self.direction = direction;
                match step {
                    Some(step) => {
                        self.airborne = step.takeoff;
                        Some(step.velocity)
                    },
                    None => None,
                }
            },
            Some(flight) => {
                let written = player_air_movement(&flight, &movement, &inputs, body);
                if touched {
                    self.airborne = None;
                } else {
                    let mut marked: Airborne = flight;
                    apex_detection(&mut marked, written);
                    self.airborne = Some(marked);
                }
                written
            },
        }
    }
}

/// Consumes the contact events of a tick, oldest first, until none is left:
/// every character whose body is named by an event that reports a started
/// contact loses its flight state. Events of other kinds change nothing, and
/// so does an event that names no character in the air.
pub fn grounding(events: &mut Vec<ContactEvent>, players: &mut Vec<Player>)
    ensures
        final(events)@.len() == 0,
        final(players)@.len() == old(players)@.len(),
        forall|i: int|
            0 <= i < old(players)@.len() ==> (#[trigger] final(players)@[i]) == old(players)@[i].landed(
                old(events)@,
            ),
{
    let mut i: usize = 0;
    while i < players.len()
        invariant
            i <= players.len(),
            events@ == old(events)@,
            players@.len() == old(players)@.len(),
            forall|j: int|
                0 <= j < i ==> (#[trigger] players@[j]) == old(players)@[j].landed(old(events)@),
            forall|j: int| i <= j < players@.len() ==> (#[trigger] players@[j]) == old(players)@[j],
        decreases players.len() - i,
    {
        if has_contact_started(events, players[i].body) {
            players[i].airborne = None;
        }
        i += 1;
    }
    events.clear();
}

} // verus!
