//! The hand cannon: a turret that moves one eased step at a time and fires
//! short-lived hands.
//!
//! The controller decides; the engine acts. [`move_cannon`] answers the arrow
//! keys with the step to start, if any, and [`clear_movement_state`] takes the
//! engine's word that the step is done. [`fire_cannon`] answers the trigger
//! with the projectiles to spawn. Lengths are whole world units.

use crate::animations::AnimatableSpriteBundle;
use crate::entity_gc::EntityLifetime;
use crate::hand::{Hand, HandAnimations, HandBundle};
use crate::timer::{Timer, TimerMode};
use vstd::prelude::*;

verus! {

/// How far one step carries the cannon, whatever its direction.
pub const MOVE_DISTANCE: i32 = 100;

/// How long one step takes, in milliseconds.
pub const MOVE_SPEED: u64 = 100;

/// The side of the square of projectiles that one shot fires.
pub const FIRE_AMOUNT: u32 = 1;

/// The distance between neighbours in that square.
pub const FIRE_SPREAD: i32 = 40;

/// How long a projectile lives, in nanoseconds.
pub const PROJECTILE_TTL: u64 = 5_000_000_000;

/// How long a projectile shows each frame of its animation, in nanoseconds.
pub const PROJECTILE_FRAME_TIME: u64 = 250_000_000;

/// How fast a projectile flies, in world units per second.
pub const PROJECTILE_SPEED: i32 = 1000;

/// The part of the game that moves and fires the cannon; [`move_cannon`] and
/// [`fire_cannon`] are its systems, run on every update.
#[derive(Debug, Clone, Copy, PartialEq, Eq, Structural)]
pub struct HandCannonPlugin;

/// A vector of three whole numbers.
#[derive(Debug, Clone, Copy, PartialEq, Eq, Hash, Structural)]
pub struct IVec3 {
    pub x: i32,
    pub y: i32,
    pub z: i32,
}

/// Which of the four arrow keys are held down.
#[derive(Debug, Clone, Copy, PartialEq, Eq, Structural)]
pub struct ArrowKeys {
    pub right: bool,
    pub left: bool,
    pub up: bool,
    pub down: bool,
}

/// Whether a step of the cannon is under way.
#[derive(Debug, Clone, Copy, PartialEq, Eq, Hash, Structural)]
pub enum HandCannonState {
    Idle,
    InMotion,
}

/// How a step gathers and sheds speed.
#[derive(Debug, Clone, Copy, PartialEq, Eq, Hash, Structural)]
pub enum Easing {
    /// Slow at both ends, by the exponential curve.
    ExponentialInOut,
}

/// A step for the engine to carry out: a move from where the cannon stands to
/// the point `distance` away in the direction of `direction`, eased by
/// `easing` over `duration_ms` milliseconds, with a call of
/// [`clear_movement_state`] when it is done.
///
/// `direction` only points: the step is `distance` long along an axis and
/// along a diagonal alike, so the engine scales `direction` to that length.
#[derive(Debug, Clone, Copy, PartialEq, Eq, Structural)]
pub struct Move {
    pub direction: IVec3,
    pub distance: i32,
    pub duration_ms: u64,
    pub easing: Easing,
}

/// What can happen to a cannon: the arrow keys are read, or the engine
/// reports that the step it was given is done.
#[derive(Debug, Clone, Copy, PartialEq, Eq, Structural)]
pub enum CannonEvent {
    Keys(ArrowKeys),
    MoveCompleted,
}

/// The cannon itself, with the timer of its fire rate.
#[derive(Debug, Clone, Copy, PartialEq, Eq, Structural)]
pub struct HandCannon {
    pub fire_rate: Timer,
}

impl HandCannon {
    /// A cannon whose timer repeats every `fire_rate / 1000` milliseconds,
    /// rounded down.
    pub fn new(fire_rate: u64) -> (cannon: HandCannon)
        requires
            fire_rate / 1000 * 1_000_000 <= u64::MAX,
        ensures
            cannon.fire_rate == (Timer {
                duration: (fire_rate / 1000 * 1_000_000) as u64,
                elapsed: 0,
                mode: TimerMode::Repeating,
                finished: false,
                times_finished_this_tick: 0,
            }),
    {
        let millis: u64 = fire_rate / 1000;
        HandCannon { fire_rate: Timer::new(millis * 1_000_000, TimerMode::Repeating) }
    }
}

impl ArrowKeys {
    /// The direction that the keys ask for: one to the right for the right
    /// arrow, one to the left for the left, and so for up and down; opposite
    /// keys cancel.
    pub open spec fn direction(self) -> IVec3 {
        IVec3 {
            x: if self.right == self.left {
                0i32
            } else if self.right {
                1i32
            } else {
                -1i32
            },
            y: if self.up == self.down {
                0i32
            } else if self.up {
                1i32
            } else {
                -1i32
            },
            z: 0,
        }
    }

    /// Whether the keys ask for any direction at all.
    pub open spec fn steer(self) -> bool {
        self.right != self.left || self.up != self.down
    }
}

impl HandCannonState {
    /// The step that the keys start on a cannon in this state: none while a
    /// step is under way or while the keys ask for no direction, else a step
    /// of [`MOVE_DISTANCE`] in the direction asked for, in [`MOVE_SPEED`]
    /// milliseconds.
    pub open spec fn move_for(self, keys: ArrowKeys) -> Option<Move> {
        if self is Idle && keys.steer() {
            Some(
                Move {
                    direction: keys.direction(),
                    distance: MOVE_DISTANCE,
                    duration_ms: MOVE_SPEED,
                    easing: Easing::ExponentialInOut,
                },
            )
        } else {
            None
        }
    }

    /// The state after `event`: in motion once a step starts, idle once one is
    /// reported done, and unchanged otherwise.
    pub open spec fn after(self, event: CannonEvent) -> HandCannonState {
        match event {
            CannonEvent::Keys(keys) => if self.move_for(keys) is Some {
                HandCannonState::InMotion
            } else {
                self
            },
            CannonEvent::MoveCompleted => HandCannonState::Idle,
        }
    }

    /// Whether `event` starts a step on a cannon in this state.
    pub open spec fn starts_move(self, event: CannonEvent) -> bool {
        event matches CannonEvent::Keys(keys) && self.move_for(keys) is Some
    }

    /// The state after all of `events`, in order.
    pub open spec fn after_all(self, events: Seq<CannonEvent>) -> HandCannonState
        decreases events.len(),
    {
        if events.len() == 0 {
            self
        } else {
            self.after_all(events.drop_last()).after(events.last())
        }
    }

    /// How many steps `events` start on a cannon that begins in this state.
    pub open spec fn moves_started(self, events: Seq<CannonEvent>) -> int
        decreases events.len(),
    {
        if events.len() == 0 {
            0
        } else {
            self.moves_started(events.drop_last()) + if self.after_all(
                events.drop_last(),
            ).starts_move(events.last()) {
                1int
            } else {
                0int
            }
        }
    }

    /// Whether every report of a finished step in `events` comes while a step
    /// is under way, as the engine's reports do.
    pub open spec fn completions_due(self, events: Seq<CannonEvent>) -> bool {
        forall|k: int|
            0 <= k < events.len() && #[trigger] events[k] is MoveCompleted ==> self.after_all(
                events.take(k),
            ) is InMotion
    }
}

/// How many steps `events` report as done.
pub open spec fn moves_completed(events: Seq<CannonEvent>) -> int
    decreases events.len(),
{
    if events.len() == 0 {
        0
    } else {
        moves_completed(events.drop_last()) + if events.last() is MoveCompleted {
            1int
        } else {
            0int
        }
    }
}

/// At most one step is ever under way.
///
/// Take a cannon that starts idle and any run of events in which the engine
/// reports a step as done only while one is under way. Then at every point of
/// the run the steps started are as many as the steps done, or one more; and
/// the cannon is in motion exactly when it is one more.
pub proof fn lemma_one_move_in_flight(events: Seq<CannonEvent>, k: int)
    requires
        HandCannonState::Idle.completions_due(events),
        0 <= k <= events.len(),
    ensures
        HandCannonState::Idle.moves_started(events.take(k)) - moves_completed(events.take(k)) == (
        if HandCannonState::Idle.after_all(events.take(k)) is InMotion {
            1int
        } else {
            0int
        }),
    decreases k,
{
    if k > 0 {
        lemma_one_move_in_flight(events, k - 1);
        assert(events.take(k).drop_last() == events.take(k - 1));
        assert(events.take(k).last() == events[k - 1]);
    }
}

/// A cannon in motion stays in motion until its step is reported done:
/// whatever the keys, it starts no other step and does not turn idle.
pub proof fn lemma_in_motion_until_completed(events: Seq<CannonEvent>)
    requires
        forall|k: int| 0 <= k < events.len() ==> #[trigger] events[k] is Keys,
    ensures
        HandCannonState::InMotion.after_all(events) is InMotion,
        HandCannonState::InMotion.moves_started(events) == 0,
    decreases events.len(),
{
    if events.len() > 0 {
        lemma_in_motion_until_completed(events.drop_last());
    }
}

/// Calls `bevy::math::IVec3::length_squared` on the vector of `x`, `y` and
/// `z`.
///
/// Trusted: that the result is the sum of the three squares. The call
/// overflows where that sum does not fit.
#[verifier::external_body]
fn length_squared(x: i32, y: i32, z: i32) -> (squared: i32)
    requires
        x * x + y * y + z * z <= i32::MAX,
    ensures
        squared == x * x + y * y + z * z,
{
    bevy::math::IVec3::new(x, y, z).length_squared()
}

/// The direction that the arrow keys ask for.
pub fn direction_from_input(keys: &ArrowKeys) -> (direction: IVec3)
    ensures
        direction == keys.direction(),
{
    let right: i32 = if keys.right { 1 } else { 0 };
    let left: i32 = if keys.left { 1 } else { 0 };
    let up: i32 = if keys.up { 1 } else { 0 };
    let down: i32 = if keys.down { 1 } else { 0 };
    IVec3 { x: right - left, y: up - down, z: 0 }
}

/// The engine's report that the step is done: the cannon is idle again.
pub fn clear_movement_state(state: &mut HandCannonState)
    ensures
        *final(state) == old(state).after(CannonEvent::MoveCompleted),
        *final(state) is Idle,
{
    *state = HandCannonState::Idle;
}

/// One pass of the controller over the arrow keys.
///
/// An idle cannon whose keys ask for a direction goes into motion and the
/// step to carry out comes back: [`MOVE_DISTANCE`] long, in that direction. A
/// cannon in motion ignores the keys, and so does an idle one whose keys ask
/// for nothing: no step comes back and the state stays.
pub fn move_cannon(keys: &ArrowKeys, state: &mut HandCannonState) -> (started: Option<Move>)
    ensures
        started == old(state).move_for(*keys),
        *final(state) == old(state).after(CannonEvent::Keys(*keys)),
        *old(state) is InMotion ==> started is None && *final(state) is InMotion,
        started is Some ==> *final(state) is InMotion,
        started matches Some(step) ==> step.distance == MOVE_DISTANCE && step.direction
            == keys.direction() && step.direction != (IVec3 { x: 0, y: 0, z: 0 }),
{
    if *state == HandCannonState::InMotion {
        return None;
    }
    let direction = direction_from_input(keys);
    assert(direction.x * direction.x + direction.y * direction.y + direction.z * direction.z <= 2)
        by (nonlinear_arith)
        requires
            -1 <= direction.x <= 1,
            -1 <= direction.y <= 1,
            direction.z == 0,
    ;
    let squared = length_squared(direction.x, direction.y, direction.z);
    assert(squared != 0 <==> keys.steer()) by (nonlinear_arith)
        requires
            squared == direction.x * direction.x + direction.y * direction.y + direction.z
                * direction.z,
            direction.z == 0,
            -1 <= direction.x <= 1,
            -1 <= direction.y <= 1,
            keys.steer() <==> direction.x != 0 || direction.y != 0,
    ;
    if squared != 0 {
        *state = HandCannonState::InMotion;
        Some(
            Move {
                direction,
                distance: MOVE_DISTANCE,
                duration_ms: MOVE_SPEED,
                easing: Easing::ExponentialInOut,
            },
        )
    } else {
        None
    }
}

/// A hand for the engine to spawn.
#[derive(Debug)]
pub struct Projectile<T, L> {
    /// The countdown after which the hand is despawned.
    pub lifetime: EntityLifetime,
    /// The hand and its sprite.
    pub bundle: HandBundle<T, L>,
    /// Where the hand starts, from where the cannon stands.
    pub offset: IVec3,
    /// How far the hand flies in a second.
    pub velocity: IVec3,
}

/// Where the `i`-th projectile of a square of side `amount` starts, from where
/// the cannon stands: the square's cells are [`FIRE_SPREAD`] apart, filled
/// column by column, and the square is centred on the cannon.
pub open spec fn spread(i: int, amount: int) -> IVec3 {
    IVec3 {
        x: ((FIRE_SPREAD / 2) * (2 * (i / amount) - (amount - 1))) as i32,
        y: ((FIRE_SPREAD / 2) * (2 * (i % amount) - (amount - 1))) as i32,
        z: 0,
    }
}

impl<T: Clone, L: Clone> Projectile<T, L> {
    /// Whether `self` is a freshly fired `hand` at `offset`: flying straight up
    /// at [`PROJECTILE_SPEED`], with [`PROJECTILE_TTL`] to live, showing the
    /// first frame of the texture that `animations` keeps for the hand and a
    /// new frame every [`PROJECTILE_FRAME_TIME`].
    pub open spec fn is_shot(self, offset: IVec3, hand: Hand, animations: HandAnimations<T, L>) -> bool {
        &&& self.lifetime == EntityLifetime::fresh(PROJECTILE_TTL)
        &&& self.offset == offset
        &&& self.velocity == (IVec3 { x: 0, y: PROJECTILE_SPEED, z: 0 })
        &&& self.bundle.hand == hand
        &&& self.bundle.in_sync(animations)
        &&& cloned(animations.atlas_layout(), self.bundle.sprite.texture_atlas.layout)
        &&& self.bundle.sprite.texture_atlas.index == animations.frame_indices().first
        &&& self.bundle.sprite.sprite_indices == animations.frame_indices()
        &&& self.bundle.sprite.timer.0 == (Timer {
            duration: PROJECTILE_FRAME_TIME,
            elapsed: 0,
            mode: TimerMode::Repeating,
            finished: false,
            times_finished_this_tick: 0,
        })
    }
}

/// Where the `i`-th projectile of a square of side `amount` starts.
pub fn spread_offset(i: u32, amount: u32) -> (offset: IVec3)
    requires
        0 < amount <= 0xffff,
        i < amount * amount,
    ensures
        offset == spread(i as int, amount as int),
{
    let column: i64 = (i / amount) as i64;
    let row: i64 = (i % amount) as i64;
    let side: i64 = amount as i64;
    let half: i64 = (FIRE_SPREAD / 2) as i64;
    assert(i / amount < amount) by (nonlinear_arith)
        requires
            0 < amount,
            i < amount * amount,
    ;
    let x: i64 = half * (2 * column - (side - 1));
    let y: i64 = half * (2 * row - (side - 1));
    IVec3 { x: x as i32, y: y as i32, z: 0 }
}

/// The projectile that shows `hand` and starts at `offset`.
pub fn projectile<T: Clone, L: Clone>(
    offset: IVec3,
    hand: Hand,
    animations: &HandAnimations<T, L>,
) -> (shot: Projectile<T, L>)
    ensures
        shot.is_shot(offset, hand, *animations),
{
    let texture = animations.get(hand);
    let layout = animations.layout();
    let indices = animations.indices();
    Projectile {
        lifetime: EntityLifetime::new(PROJECTILE_TTL),
        bundle: HandBundle {
            hand,
            sprite: AnimatableSpriteBundle::new(texture, layout, indices, PROJECTILE_FRAME_TIME),
        },
        offset,
        velocity: IVec3 { x: 0, y: PROJECTILE_SPEED, z: 0 },
    }
}

/// One pass of the trigger. If the cannon is to `fire`, a square of
/// [`FIRE_AMOUNT`] by [`FIRE_AMOUNT`] projectiles comes back, each showing a
/// hand picked at random and each at its place in the square; if not, none.
pub fn fire_cannon<T: Clone, L: Clone>(fire: bool, animations: &HandAnimations<T, L>) -> (shots:
    Vec<Projectile<T, L>>)
    ensures
        shots@.len() == (if fire {
            FIRE_AMOUNT * FIRE_AMOUNT
        } else {
            0
        }),
        forall|i: int|
            0 <= i < shots@.len() ==> (#[trigger] shots@[i]).is_shot(
                spread(i, FIRE_AMOUNT as int),
                shots@[i].bundle.hand,
                *animations,
            ),
{
    let mut shots: Vec<Projectile<T, L>> = Vec::new();
    if fire {
        let count: u32 = FIRE_AMOUNT * FIRE_AMOUNT;
        let mut i: u32 = 0;
        while i < count
            invariant
                count == FIRE_AMOUNT * FIRE_AMOUNT,
                i <= count,
                shots@.len() == i,
                forall|j: int|
                    0 <= j < shots@.len() ==> (#[trigger] shots@[j]).is_shot(
                        spread(j, FIRE_AMOUNT as int),
                        shots@[j].bundle.hand,
                        *animations,
                    ),
            decreases count - i,
        {
            let hand = Hand::random();
            shots.push(projectile(spread_offset(i, FIRE_AMOUNT), hand, animations));
            i = i + 1;
        }
    }
    shots
}

} // verus!
