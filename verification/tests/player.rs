use jumper::components::{
    Airborne, DashCooldown, Direction, GameplayInputs, LookDirection, Movement,
};
use jumper::physics::{has_contact_started, BodyHandle, ContactEvent, Velocity};
use jumper::player::{cool_down, grounding, Player};
use jumper::systems::{ButtonSemantics, Keyboard};

fn tunables() -> Movement {
    Movement {
        max_speed: 20,
        horizontal_acceleration: 5,
        jump_power: 10,
        air_forward_max_speed: 15,
        air_backward_max_speed: 7,
        rising_gravity_scale: 1,
        falling_gravity_scale: 3,
        commit_jump_direction: true,
    }
}

fn handle(index: usize) -> BodyHandle {
    BodyHandle { index, generation: 0 }
}

fn keys() -> Keyboard {
    Keyboard { a: false, left: false, d: false, right: false, space: false }
}

fn player_on(index: usize) -> Player {
    Player::new(tunables(), Direction { value: LookDirection::Right }, handle(index))
}

fn in_the_air(index: usize) -> Player {
    let mut player = player_on(index);
    player.airborne = Some(Airborne { direction: LookDirection::Right, reached_jump_apex: false });
    player
}

#[test]
fn new_player_is_grounded() {
    let player = player_on(4);
    assert_eq!(player.airborne, None);
    assert_eq!(player.dash_cooldown, None);
    assert_eq!(player.inputs, GameplayInputs::default());
    assert_eq!(player.movement, tunables());
    assert_eq!(player.direction.value, LookDirection::Right);
    assert_eq!(player.body, handle(4));
}

#[test]
fn contact_events_name_bodies() {
    let events = vec![
        ContactEvent::Stopped(handle(1), handle(2)),
        ContactEvent::Started(handle(3), handle(4)),
    ];
    assert!(!has_contact_started(&events, handle(1)));
    assert!(!has_contact_started(&events, handle(2)));
    assert!(has_contact_started(&events, handle(3)));
    assert!(has_contact_started(&events, handle(4)));
    assert!(!has_contact_started(&events, handle(5)));
    assert!(!has_contact_started(&events, BodyHandle { index: 3, generation: 1 }));
    assert!(!has_contact_started(&Vec::new(), handle(3)));
    assert!(ContactEvent::Started(handle(3), handle(4)).names_started(handle(4)));
    assert!(!ContactEvent::Stopped(handle(3), handle(4)).names_started(handle(4)));
}

#[test]
fn grounding_clears_every_named_player() {
    let mut players = vec![in_the_air(1), in_the_air(2), in_the_air(3), player_on(4)];
    let mut events = vec![
        ContactEvent::Started(handle(1), handle(3)),
        ContactEvent::Stopped(handle(2), handle(9)),
        ContactEvent::Started(handle(9), handle(1)),
    ];
    grounding(&mut events, &mut players);
    assert!(events.is_empty());
    assert_eq!(players, vec![player_on(1), in_the_air(2), player_on(3), player_on(4)]);
}

#[test]
fn grounding_ignores_ended_contacts() {
    let mut players = vec![in_the_air(1), in_the_air(2)];
    let mut events = vec![
        ContactEvent::Stopped(handle(1), handle(2)),
        ContactEvent::Stopped(handle(2), handle(1)),
    ];
    grounding(&mut events, &mut players);
    assert!(events.is_empty());
    assert_eq!(players, vec![in_the_air(1), in_the_air(2)]);
}

#[test]
fn grounding_without_events_or_players() {
    let mut players = vec![in_the_air(1)];
    let mut events = Vec::new();
    grounding(&mut events, &mut players);
    assert_eq!(players, vec![in_the_air(1)]);
    let mut nobody: Vec<Player> = Vec::new();
    let mut events = vec![ContactEvent::Started(handle(1), handle(2))];
    grounding(&mut events, &mut nobody);
    assert!(events.is_empty());
    assert!(nobody.is_empty());
}

#[test]
fn cool_down_drops_a_finished_cooldown() {
    assert_eq!(cool_down(None, 5), None);
    assert_eq!(
        cool_down(Some(DashCooldown { remaining: 9 }), 5),
        Some(DashCooldown { remaining: 4 })
    );
    assert_eq!(cool_down(Some(DashCooldown { remaining: 9 }), 9), None);
    assert_eq!(cool_down(Some(DashCooldown { remaining: 9 }), 10), None);
}

#[test]
fn tick_advances_the_dash_cooldown() {
    let mut player = player_on(0);
    player.dash_cooldown = Some(DashCooldown { remaining: 30 });
    player.tick(&keys(), ButtonSemantics::Level, 16, None, &Vec::new());
    assert_eq!(player.dash_cooldown, Some(DashCooldown { remaining: 14 }));
    player.tick(&keys(), ButtonSemantics::Level, 16, None, &Vec::new());
    assert_eq!(player.dash_cooldown, None);
    player.tick(&keys(), ButtonSemantics::Level, 16, None, &Vec::new());
    assert_eq!(player.dash_cooldown, None);
}

#[test]
fn tick_without_a_body_only_reads_the_keys() {
    let mut player = player_on(0);
    let pressed = Keyboard { d: true, space: true, ..keys() };
    let written = player.tick(&pressed, ButtonSemantics::Level, 1, None, &Vec::new());
    assert_eq!(written, None);
    assert!(player.inputs.move_right.down && player.inputs.jump.pressed_this_frame);
    assert_eq!(player.airborne, None);
    assert_eq!(player.direction.value, LookDirection::Right);
    let mut flying = in_the_air(0);
    let written = flying.tick(&pressed, ButtonSemantics::Level, 1, None, &Vec::new());
    assert_eq!(written, None);
    assert_eq!(flying.airborne, in_the_air(0).airborne);
}

#[test]
fn tick_grounds_a_player_without_a_body() {
    let mut flying = in_the_air(6);
    let events = vec![ContactEvent::Started(handle(0), handle(6))];
    let written = flying.tick(&keys(), ButtonSemantics::Level, 1, None, &events);
    assert_eq!(written, None);
    assert_eq!(flying.airborne, None);
}

#[test]
fn tick_keeps_a_jump_that_meets_a_contact() {
    let mut player = player_on(6);
    let events = vec![ContactEvent::Started(handle(6), handle(0))];
    let jump = Keyboard { space: true, ..keys() };
    let body = Some(Velocity { x: 0, y: 0 });
    let written = player.tick(&jump, ButtonSemantics::Level, 1, body, &events);
    assert_eq!(written, Some(Velocity { x: 0, y: 10 }));
    assert_eq!(
        player.airborne,
        Some(Airborne { direction: LookDirection::Right, reached_jump_apex: false })
    );
}

#[test]
fn tick_moves_a_landing_player_by_the_rule_of_the_air() {
    let mut flying = in_the_air(6);
    let events = vec![ContactEvent::Started(handle(6), handle(0))];
    let left = Keyboard { a: true, space: true, ..keys() };
    let body = Some(Velocity { x: 0, y: -8 });
    let written = flying.tick(&left, ButtonSemantics::Level, 1, body, &events);
    assert_eq!(written, Some(Velocity { x: -5, y: -8 }));
    assert_eq!(flying.airborne, None);
    assert_eq!(flying.direction.value, LookDirection::Right);
    let written = flying.tick(&left, ButtonSemantics::Level, 1, written, &Vec::new());
    assert_eq!(written, Some(Velocity { x: -10, y: 10 }));
    assert_eq!(
        flying.airborne,
        Some(Airborne { direction: LookDirection::Left, reached_jump_apex: false })
    );
}

#[test]
fn tick_with_edges_jumps_once_per_press() {
    let mut player = player_on(1);
    let jump = Keyboard { space: true, ..keys() };
    let landing = vec![ContactEvent::Started(handle(1), handle(0))];
    let body = Some(Velocity { x: 0, y: 0 });
    let written = player.tick(&jump, ButtonSemantics::Edge, 1, body, &Vec::new());
    assert_eq!(written, Some(Velocity { x: 0, y: 10 }));
    assert!(player.airborne.is_some());
    player.tick(&jump, ButtonSemantics::Edge, 1, body, &landing);
    assert_eq!(player.airborne, None);
    let written = player.tick(&jump, ButtonSemantics::Edge, 1, body, &Vec::new());
    assert_eq!(written, Some(Velocity { x: 0, y: 0 }));
    assert_eq!(player.airborne, None);
    player.tick(&keys(), ButtonSemantics::Edge, 1, body, &Vec::new());
    assert!(player.inputs.jump.released_this_frame);
    let written = player.tick(&jump, ButtonSemantics::Edge, 1, body, &Vec::new());
    assert_eq!(written, Some(Velocity { x: 0, y: 10 }));
    assert!(player.airborne.is_some());
}

#[test]
fn tick_with_levels_jumps_while_the_key_is_held() {
    let mut player = player_on(1);
    let jump = Keyboard { space: true, ..keys() };
    let landing = vec![ContactEvent::Started(handle(1), handle(0))];
    let body = Some(Velocity { x: 0, y: 0 });
    player.tick(&jump, ButtonSemantics::Level, 1, body, &Vec::new());
    assert!(player.airborne.is_some());
    player.tick(&jump, ButtonSemantics::Level, 1, body, &landing);
    assert_eq!(player.airborne, None);
    let written = player.tick(&jump, ButtonSemantics::Level, 1, body, &Vec::new());
    assert_eq!(written, Some(Velocity { x: 0, y: 10 }));
    assert!(player.airborne.is_some());
}

#[test]
fn jump_arc_from_takeoff_to_landing() {
    let mut player = player_on(7);
    let none = Vec::new();
    let mut velocity = Velocity { x: 0, y: 0 };

    let jump = Keyboard { space: true, ..keys() };
    velocity = player.tick(&jump, ButtonSemantics::Edge, 16, Some(velocity), &none).unwrap();
    assert_eq!(velocity, Velocity { x: 0, y: 10 });
    assert_eq!(
        player.airborne,
        Some(Airborne { direction: LookDirection::Right, reached_jump_apex: false })
    );

    let right = Keyboard { right: true, ..keys() };
    velocity = player.tick(&right, ButtonSemantics::Edge, 16, Some(velocity), &none).unwrap();
    assert_eq!(velocity, Velocity { x: 5, y: 10 });
    assert_eq!(
        player.airborne,
        Some(Airborne { direction: LookDirection::Right, reached_jump_apex: false })
    );

    velocity.y = -2;
    velocity = player.tick(&right, ButtonSemantics::Edge, 16, Some(velocity), &none).unwrap();
    assert_eq!(velocity, Velocity { x: 10, y: -2 });
    assert_eq!(
        player.airborne,
        Some(Airborne { direction: LookDirection::Right, reached_jump_apex: true })
    );

    let landing = vec![ContactEvent::Started(handle(0), handle(7))];
    player.tick(&keys(), ButtonSemantics::Edge, 16, Some(velocity), &landing);
    assert_eq!(player.airborne, None);
}
