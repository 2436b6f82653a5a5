//! The routines that are not tied to one kind of entity: input, the effects
//! of a hit, knockback, and death.

use crate::clock::{
    duration_nanos, span_from_nanos, stopwatch_state, timer_finished, timer_just_finished,
    timer_new, timer_state, timer_tick, TimerState,
};
use crate::components::{
    get_delta, Color, Damage, Dead, Distance, Health, HitBlinkTimer, Invulnerable, Player, PointWorth,
    Pushed, ReloadStopwatch, ReloadTime, Shooter, ShotSpeed, Sprite, Transform, Visibility,
};
use crate::events::{MoveDirection, PlayerMoveEvent, ShootEvent};
use crate::fire_control::{after_trigger, cooldown_over, fire_control};
use crate::geometry::Vector;
use crate::projectiles::flight_step;
use crate::states::{GameState, NextState};
use bevy::time::TimerMode;
use std::time::Duration;
use vstd::prelude::*;

verus! {

/// The keys the game knows.
#[derive(Clone, Copy, Debug, PartialEq, Eq, Structural)]
pub enum KeyCode {
    Escape,
    KeyW,
    KeyA,
    KeyS,
    KeyD,
    Other,
}

/// What a frame needs to know of an entity to decide on its death: its hit
/// points, whether they changed in this frame, and the tags that matter.
#[derive(Clone, Copy, Debug, PartialEq, Eq, Structural)]
pub struct Vitals {
    pub health: Health,
    pub changed: bool,
    pub player: Option<Player>,
    pub point_worth: Option<PointWorth>,
    pub dead: Option<Dead>,
}

/// The visibility after one blink: what was hidden shows, all else hides.
pub open spec fn blinked(visibility: Visibility) -> Visibility {
    match visibility {
        Visibility::Hidden => Visibility::Visible,
        _ => Visibility::Hidden,
    }
}

/// The visibility of a protected entity after a frame: visible once the
/// protection is over, flipped if a blink fell into the frame, else as
/// before.
pub open spec fn visibility_after(
    visibility: Visibility,
    blink: TimerState,
    protection: TimerState,
) -> Visibility {
    if protection.finished {
        Visibility::Visible
    } else if blink.just_finished() {
        blinked(visibility)
    } else {
        visibility
    }
}

/// Lets the protection of one entity run on by `delta`.
///
/// Both timers advance. A blink that falls into this frame flips the
/// visibility. When the protection is over the entity is visible, and the
/// result tells the caller to take the protection away.
pub fn invulnerable_tick(inv: &mut Invulnerable, vis: &mut Visibility, delta: &Duration) -> (expired:
    bool)
    requires
        timer_state(old(inv).invuln_timer).can_tick(duration_nanos(*delta)),
        timer_state(old(inv).blink_timer).can_tick(duration_nanos(*delta)),
    ensures
        timer_state(final(inv).invuln_timer) == timer_state(old(inv).invuln_timer).ticked(
            duration_nanos(*delta),
        ),
        timer_state(final(inv).blink_timer) == timer_state(old(inv).blink_timer).ticked(
            duration_nanos(*delta),
        ),
        expired == timer_state(final(inv).invuln_timer).finished,
        *final(vis) == visibility_after(
            *old(vis),
            timer_state(final(inv).blink_timer),
            timer_state(final(inv).invuln_timer),
        ),
{
    timer_tick(&mut inv.invuln_timer, delta);
    timer_tick(&mut inv.blink_timer, delta);
    if timer_just_finished(&inv.blink_timer) {
        match *vis {
            Visibility::Hidden => {
                *vis = Visibility::Visible;
            },
            Visibility::Visible => {
                *vis = Visibility::Hidden;
            },
            Visibility::Inherited => {
                *vis = Visibility::Hidden;
            },
        }
    }
    if timer_finished(&inv.invuln_timer) {
        *vis = Visibility::Visible;
        true
    } else {
        false
    }
}

/// The distance that is left of a knockback after a step: never below zero.
pub open spec fn distance_left(distance: int, step: Vector) -> int {
    if distance - step.length() <= 0 {
        0
    } else {
        distance - step.length()
    }
}

/// Carries one entity on along its knockback for a frame.
///
/// The entity moves by direction times speed times `delta`, and the length
/// of that step comes off the distance that is left. When nothing is left the
/// result tells the caller to end the knockback.
pub fn push_processor(push_tr: &mut Transform, push_info: &mut Pushed, delta: &Duration) -> (done:
    bool)
    requires
        old(push_info).direction.0.is_direction(),
    ensures
        final(push_tr).translation == old(push_tr).translation.moved(
            flight_step(old(push_info).direction, old(push_info).speed, duration_nanos(*delta)),
        ),
        final(push_tr).translation.in_world(),
        final(push_info).distance.0 == distance_left(
            old(push_info).distance.0 as int,
            flight_step(old(push_info).direction, old(push_info).speed, duration_nanos(*delta)),
        ),
        final(push_info).direction == old(push_info).direction,
        final(push_info).speed == old(push_info).speed,
        done == (final(push_info).distance.0 == 0),
{
    let step = get_delta(&push_info.direction, &push_info.speed, delta);
    let length: i128 = step.whole_length() as i128;
    let left: i128 = push_info.distance.0 as i128 - length;
    push_tr.translation = push_tr.translation.translate(step);
    if left <= 0 {
        push_info.distance = Distance(0);
        true
    } else {
        push_info.distance = Distance(left as i64);
        false
    }
}

impl Vitals {
    /// The entity dies in this frame: its hit points changed and are gone.
    pub open spec fn dies(self) -> bool {
        self.changed && self.health.0 <= 0
    }

    /// The entity with the tag of the dead, if it dies in this frame.
    pub open spec fn marked(self) -> Vitals {
        if self.dies() {
            Vitals { dead: Some(Dead), ..self }
        } else {
            self
        }
    }
}

/// Every entity after the marking of the dead.
pub open spec fn all_marked(entities: Seq<Vitals>) -> Seq<Vitals> {
    Seq::new(entities.len(), |i: int| entities[i].marked())
}

/// The player is among those that die in this frame.
pub open spec fn player_dies(entities: Seq<Vitals>) -> bool {
    exists|i: int| 0 <= i < entities.len() && (#[trigger] entities[i]).dies() && entities[i].player is Some
}

/// The entities that are left when the dead are gone, in order.
pub open spec fn survivors(entities: Seq<Vitals>) -> Seq<Vitals>
    decreases entities.len(),
{
    if entities.len() == 0 {
        entities
    } else if entities.last().dead is Some {
        survivors(entities.drop_last())
    } else {
        survivors(entities.drop_last()).push(entities.last())
    }
}

/// Marks the entities that die in this frame.
///
/// An entity whose hit points changed in this frame and are zero or less
/// gets the tag of the dead; it stays among the entities until the cleanup.
/// If the player is one of them, the game is asked to end.
pub fn dead_mark(entities: &mut Vec<Vitals>, next_state: &mut NextState)
    ensures
        final(entities)@ == all_marked(old(entities)@),
        *final(next_state) == if player_dies(old(entities)@) {
            NextState(Some(GameState::GameOver))
        } else {
            *old(next_state)
        },
{
    let mut i: usize = 0;
    while i < entities.len()
        invariant
            i <= entities.len(),
            entities.len() == old(entities).len(),
            forall|k: int| 0 <= k < i ==> #[trigger] entities[k] == old(entities)[k].marked(),
            forall|k: int| i <= k < entities.len() ==> #[trigger] entities[k] == old(entities)[k],
            *next_state == if player_dies(old(entities)@.take(i as int)) {
                NextState(Some(GameState::GameOver))
            } else {
                *old(next_state)
            },
        decreases entities.len() - i,
    {
        let entity = entities[i];
        proof {
            let upto = old(entities)@.take(i as int + 1);
            let so_far = old(entities)@.take(i as int);
            if player_dies(so_far) {
                let w = choose|k: int|
                    0 <= k < so_far.len() && (#[trigger] so_far[k]).dies() && so_far[k].player is Some;
                assert(upto[w] == so_far[w]);
            }
            if player_dies(upto) {
                let w = choose|k: int|
                    0 <= k < upto.len() && (#[trigger] upto[k]).dies() && upto[k].player is Some;
                if w < i {
                    assert(so_far[w] == upto[w]);
                }
            }
            if entity.dies() && entity.player is Some {
                assert(upto[i as int] == entity);
            }
        }
        if entity.changed && entity.health.0 <= 0 {
            entities.set(i, Vitals { dead: Some(Dead), ..entity });
            if entity.player.is_some() {
                next_state.set(GameState::GameOver);
            }
        }
        i += 1;
    }
    proof {
        assert(old(entities)@.take(entities.len() as int) == old(entities)@);
        assert(entities@ =~= all_marked(old(entities)@));
    }
}

/// Removes the entities that carry the tag of the dead.
pub fn dead_cleanup(entities: &mut Vec<Vitals>)
    ensures
        final(entities)@ == survivors(old(entities)@),
{
    let mut kept: Vec<Vitals> = Vec::new();
    let mut i: usize = 0;
    while i < entities.len()
        invariant
            i <= entities.len(),
            entities@ == old(entities)@,
            kept@ == survivors(entities@.take(i as int)),
        decreases entities.len() - i,
    {
        proof {
            let upto = entities@.take(i as int + 1);
            assert(upto.drop_last() == entities@.take(i as int));
            assert(upto.last() == entities[i as int]);
        }
        let entity = entities[i];
        if entity.dead.is_none() {
            kept.push(entity);
        }
        i += 1;
    }
    proof {
        assert(entities@.take(entities.len() as int) == entities@);
    }
    *entities = kept;
}

/// The entity gets the effects of a hit: its hit points changed in this
/// frame, it is not dead, and nothing else recoloured its sprite.
pub open spec fn shows_hit(health_changed: bool, sprite_changed: bool, dead: bool) -> bool {
    health_changed && !dead && !sprite_changed
}

impl HitBlinkTimer {
    /// The flash as it starts: a twentieth of a second, after which the
    /// sprite gets `color` back.
    pub open spec fn starts(self, color: Color) -> bool {
        &&& self.return_to == color
        &&& timer_state(self.timer) == TimerState::fresh(50_000_000, false)
    }
}

/// Shows that one entity was hit.
///
/// If the entity's hit points changed in this frame, it is not dead and its
/// sprite was not recoloured by anyone else, the sprite turns red and the
/// first result is the flash to attach, which remembers the colour before.
/// If the entity is the player and not protected yet, the second result is
/// the protection to attach. Otherwise nothing changes and both are `None`.
pub fn on_hit_highlight(
    sprite: &mut Sprite,
    health_changed: bool,
    sprite_changed: bool,
    dead: bool,
    player: bool,
    invulnerable: bool,
) -> (effects: (Option<HitBlinkTimer>, Option<Invulnerable>))
    ensures
        final(sprite).custom_size == old(sprite).custom_size,
        shows_hit(health_changed, sprite_changed, dead) ==> {
            &&& final(sprite).color == Color::red()
            &&& effects.0 is Some
            &&& effects.0->0.starts(old(sprite).color)
            &&& effects.1 is Some <==> player && !invulnerable
            &&& effects.1 is Some ==> effects.1->0.starts()
        },
        !shows_hit(health_changed, sprite_changed, dead) ==> {
            &&& *final(sprite) == *old(sprite)
            &&& effects.0 is None
            &&& effects.1 is None
        },
{
    if health_changed && !dead && !sprite_changed {
        let flash = span_from_nanos(50_000_000);
        let blink = HitBlinkTimer {
            return_to: sprite.color,
            timer: timer_new(&flash, TimerMode::Once),
        };
        sprite.color = Color::rgb(255, 0, 0);
        let shield = if player && !invulnerable {
            let blink_every = span_from_nanos(100_000_000);
            let lasts = span_from_nanos(2_000_000_000);
            Some(
                Invulnerable {
                    blink_timer: timer_new(&blink_every, TimerMode::Repeating),
                    invuln_timer: timer_new(&lasts, TimerMode::Once),
                },
            )
        } else {
            None
        };
        (Some(blink), shield)
    } else {
        (None, None)
    }
}

/// Lets the flash of one entity run on by `delta`. When it is over the
/// sprite gets its colour back, and the result tells the caller to take the
/// flash away.
pub fn stop_highlight(sprite: &mut Sprite, blink_timer: &mut HitBlinkTimer, delta: &Duration) -> (done:
    bool)
    requires
        timer_state(old(blink_timer).timer).can_tick(duration_nanos(*delta)),
    ensures
        timer_state(final(blink_timer).timer) == timer_state(old(blink_timer).timer).ticked(
            duration_nanos(*delta),
        ),
        final(blink_timer).return_to == old(blink_timer).return_to,
        done == timer_state(final(blink_timer).timer).finished,
        final(sprite).custom_size == old(sprite).custom_size,
        final(sprite).color == if done {
            old(blink_timer).return_to
        } else {
            old(sprite).color
        },
{
    timer_tick(&mut blink_timer.timer, delta);
    if timer_finished(&blink_timer.timer) {
        sprite.color = blink_timer.return_to;
        true
    } else {
        false
    }
}

/// The step that a held key asks of the player, if it is one of the four
/// that move.
pub open spec fn key_move(key: KeyCode) -> Option<PlayerMoveEvent> {
    match key {
        KeyCode::KeyW => Some(PlayerMoveEvent(MoveDirection::Up)),
        KeyCode::KeyA => Some(PlayerMoveEvent(MoveDirection::Left)),
        KeyCode::KeyS => Some(PlayerMoveEvent(MoveDirection::Down)),
        KeyCode::KeyD => Some(PlayerMoveEvent(MoveDirection::Right)),
        _ => None,
    }
}

/// The steps that the held keys ask for, in the order of the keys.
pub open spec fn key_moves(pressed: Seq<KeyCode>) -> Seq<PlayerMoveEvent>
    decreases pressed.len(),
{
    if pressed.len() == 0 {
        Seq::empty()
    } else {
        match key_move(pressed.last()) {
            Some(step) => key_moves(pressed.drop_last()).push(step),
            None => key_moves(pressed.drop_last()),
        }
    }
}

/// The state that Escape asks for: it pauses a running game and resumes a
/// paused one; in the two other states it asks for none.
pub open spec fn escape_request(state: GameState) -> Option<GameState> {
    match state {
        GameState::Running => Some(GameState::Paused),
        GameState::Paused => Some(GameState::Running),
        _ => None,
    }
}

/// Reads the keyboard for one frame.
///
/// `just_pressed` holds the keys that went down in this frame, `pressed`
/// those that are held. Escape pauses or resumes; when the game is over it
/// asks to leave the program instead, which the first result says. The
/// second result holds one step for every held key that moves the player.
pub fn keyboard_input(
    just_pressed: &Vec<KeyCode>,
    pressed: &Vec<KeyCode>,
    pause_state: &GameState,
    next_pause_state: &mut NextState,
) -> (outcome: (bool, Vec<PlayerMoveEvent>))
    ensures
        outcome.0 == (just_pressed@.contains(KeyCode::Escape) && *pause_state
            == GameState::GameOver),
        outcome.1@ == key_moves(pressed@),
        *final(next_pause_state) == if just_pressed@.contains(KeyCode::Escape) && escape_request(
            *pause_state,
        ) is Some {
            NextState(escape_request(*pause_state))
        } else {
            *old(next_pause_state)
        },
{
    let mut escape = false;
    let mut i: usize = 0;
    while i < just_pressed.len()
        invariant
            i <= just_pressed.len(),
            escape == just_pressed@.take(i as int).contains(KeyCode::Escape),
        decreases just_pressed.len() - i,
    {
        proof {
            let upto = just_pressed@.take(i as int + 1);
            let so_far = just_pressed@.take(i as int);
            assert(upto[i as int] == just_pressed[i as int]);
            if so_far.contains(KeyCode::Escape) {
                let w = choose|k: int| 0 <= k < so_far.len() && so_far[k] == KeyCode::Escape;
                assert(upto[w] == KeyCode::Escape);
            }
            if upto.contains(KeyCode::Escape) {
                let w = choose|k: int| 0 <= k < upto.len() && upto[k] == KeyCode::Escape;
                if w < i {
                    assert(so_far[w] == KeyCode::Escape);
                }
            }
        }
        if just_pressed[i] == KeyCode::Escape {
            escape = true;
        }
        i += 1;
    }
    proof {
        assert(just_pressed@.take(just_pressed.len() as int) == just_pressed@);
    }
    let mut exit = false;
    if escape {
        match pause_state {
            GameState::Running => {
                next_pause_state.set(GameState::Paused);
            },
            GameState::Paused => {
                next_pause_state.set(GameState::Running);
            },
            GameState::GameOver => {
                exit = true;
            },
            GameState::Upgrading => {},
        }
    }
    let mut moves: Vec<PlayerMoveEvent> = Vec::new();
    let mut j: usize = 0;
    while j < pressed.len()
        invariant
            j <= pressed.len(),
            moves@ == key_moves(pressed@.take(j as int)),
        decreases pressed.len() - j,
    {
        proof {
            let upto = pressed@.take(j as int + 1);
            assert(upto.drop_last() == pressed@.take(j as int));
            assert(upto.last() == pressed[j as int]);
        }
        match pressed[j] {
            KeyCode::KeyW => {
                moves.push(PlayerMoveEvent(MoveDirection::Up));
            },
            KeyCode::KeyA => {
                moves.push(PlayerMoveEvent(MoveDirection::Left));
            },
            KeyCode::KeyS => {
                moves.push(PlayerMoveEvent(MoveDirection::Down));
            },
            KeyCode::KeyD => {
                moves.push(PlayerMoveEvent(MoveDirection::Right));
            },
            _ => {},
        }
        j += 1;
    }
    proof {
        assert(pressed@.take(pressed.len() as int) == pressed@);
    }
    (exit, moves)
}

/// Reads the mouse for one frame, for a player that exists.
///
/// `left_pressed` says whether the left button is held, `cursor` where the
/// pointer is in the world, if the window and the camera can tell. Only while
/// the button is held and the pointer is known does the reload time run on;
/// once it is over the stopwatch starts again from zero and a shot is
/// reported, from the player's place at the pointer.
pub fn mouse_input(
    player_tr: &Transform,
    reload_watch: &mut ReloadStopwatch,
    reload_time: &ReloadTime,
    player_dmg: &Damage,
    player_shot_speed: &ShotSpeed,
    left_pressed: bool,
    cursor: Option<Vector>,
    delta: &Duration,
) -> (shot: Option<ShootEvent>)
    requires
        stopwatch_state(old(reload_watch).0).can_tick(duration_nanos(*delta)),
    ensures
        !(left_pressed && cursor is Some) ==> shot is None && *final(reload_watch) == *old(
            reload_watch,
        ),
        left_pressed && cursor is Some ==> stopwatch_state(final(reload_watch).0) == after_trigger(
            stopwatch_state(old(reload_watch).0),
            duration_nanos(reload_time.0),
            duration_nanos(*delta),
        ),
        left_pressed && cursor is Some ==> shot == (if cooldown_over(
            stopwatch_state(old(reload_watch).0).ticked(duration_nanos(*delta)).elapsed,
            duration_nanos(reload_time.0),
        ) {
            Some(
                ShootEvent {
                    source: player_tr.translation,
                    target: cursor->0,
                    damage: *player_dmg,
                    shooter: Shooter::Player,
                    bullet_speed: *player_shot_speed,
                },
            )
        } else {
            None
        }),
{
    if !left_pressed {
        return None;
    }
    match cursor {
        None => None,
        Some(world_position) => {
            if fire_control(reload_watch, reload_time, delta) {
                Some(
                    ShootEvent {
                        source: player_tr.translation,
                        target: world_position,
                        damage: *player_dmg,
                        shooter: Shooter::Player,
                        bullet_speed: *player_shot_speed,
                    },
                )
            } else {
                None
            }
        },
    }
}

} // verus!
