//! The hand a projectile shows, its fixed cycle, and the textures that go
//! with each hand.

use crate::animations::{AnimatableSpriteBundle, AnimationIndices};
use rand::seq::SliceRandom;
use vstd::prelude::*;

verus! {

/// How many frames each hand's sprite sheet has, side by side in one row.
pub const HAND_FRAMES: usize = 4;

/// The width and the height of one frame of a hand's sprite sheet, in pixels.
pub const HAND_FRAME_SIZE: u32 = 32;

/// The part of the game that changes hands on a key press and keeps each
/// hand's texture in step with it; [`change_hand`] and
/// [`sync_hand_animation`] are its systems, run on every update.
#[derive(Debug, Clone, Copy, PartialEq, Eq, Structural)]
pub struct HandPlugin;

/// One of the three hands of the game.
#[derive(Debug, Clone, Copy, PartialEq, Eq, Hash, Structural)]
pub enum Hand {
    Rock,
    Paper,
    Scissors,
}

impl Hand {
    /// The three hands.
    pub open spec fn all() -> Seq<Hand> {
        seq![Hand::Rock, Hand::Paper, Hand::Scissors]
    }

    /// The hand that follows `self` in the cycle Rock, Paper, Scissors, Rock.
    pub open spec fn next(self) -> Hand {
        match self {
            Hand::Rock => Hand::Paper,
            Hand::Paper => Hand::Scissors,
            Hand::Scissors => Hand::Rock,
        }
    }

    /// A hand picked at random among the three.
    ///
    /// Which hand comes back is the generator's to say; like every use of the
    /// thread's generator, the call panics where the system has no entropy to
    /// seed it.
    pub fn random() -> (hand: Hand)
        ensures
            Hand::all().contains(hand),
    {
        let hands = [Hand::Rock, Hand::Paper, Hand::Scissors];
        assert(hands@ == Hand::all());
        let chosen = pick(hands.as_slice());
        chosen.unwrap()
    }

    /// Moves to the next hand of the cycle.
    pub fn cycle(self) -> (next: Hand)
        ensures
            next == self.next(),
    {
        match self {
            Hand::Rock => Hand::Paper,
            Hand::Paper => Hand::Scissors,
            Hand::Scissors => Hand::Rock,
        }
    }

    /// The cycle is one round through all three hands: a step never stays, two
    /// steps never return, and three steps always do.
    pub proof fn lemma_cycle_of_three(self)
        ensures
            self.next() != self,
            self.next().next() != self,
            self.next().next().next() == self,
    {
    }
}

/// Calls `rand::seq::SliceRandom::choose` on `hands` with the generator of
/// `rand::thread_rng`.
///
/// Trusted: that an empty slice gives `None` and any other gives one of its
/// elements.
#[verifier::external_body]
fn pick(hands: &[Hand]) -> (chosen: Option<Hand>)
    ensures
        hands@.len() == 0 ==> chosen is None,
        hands@.len() > 0 ==> chosen is Some && hands@.contains(chosen->0),
{
    hands.choose(&mut rand::thread_rng()).copied()
}

/// The textures of the three hands, with the layout and the frame bounds that
/// their sprite sheets share. `T` is the engine's handle to a texture, `L` its
/// handle to a sheet layout. Made once, then only read.
#[derive(Debug)]
pub struct HandAnimations<T, L> {
    rock: T,
    paper: T,
    scissors: T,
    atlas_layout: L,
    indices: AnimationIndices,
}

impl<T, L> HandAnimations<T, L> {
    /// The texture kept for `hand`.
    pub closed spec fn texture(self, hand: Hand) -> T {
        match hand {
            Hand::Rock => self.rock,
            Hand::Paper => self.paper,
            Hand::Scissors => self.scissors,
        }
    }

    /// The layout that the three sheets share.
    pub closed spec fn atlas_layout(self) -> L {
        self.atlas_layout
    }

    /// The frame bounds that the three sheets share.
    pub closed spec fn frame_indices(self) -> AnimationIndices {
        self.indices
    }

    /// The three textures with their shared layout; the frame bounds are
    /// those of a sheet of [`HAND_FRAMES`] frames.
    pub fn new(rock: T, paper: T, scissors: T, atlas_layout: L) -> (animations: Self)
        ensures
            animations.texture(Hand::Rock) == rock,
            animations.texture(Hand::Paper) == paper,
            animations.texture(Hand::Scissors) == scissors,
            animations.atlas_layout() == atlas_layout,
            animations.frame_indices() == (AnimationIndices {
                first: 0,
                last: (HAND_FRAMES - 1) as usize,
            }),
    {
        HandAnimations {
            rock,
            paper,
            scissors,
            atlas_layout,
            indices: AnimationIndices::from_frames(HAND_FRAMES),
        }
    }

    /// A clone of the texture of `hand`.
    pub fn get(&self, hand: Hand) -> (texture: T) where T: Clone
        ensures
            cloned(self.texture(hand), texture),
    {
        match hand {
            Hand::Rock => self.rock.clone(),
            Hand::Paper => self.paper.clone(),
            Hand::Scissors => self.scissors.clone(),
        }
    }

    /// A clone of the shared layout.
    pub fn layout(&self) -> (layout: L) where L: Clone
        ensures
            cloned(self.atlas_layout(), layout),
    {
        self.atlas_layout.clone()
    }

    /// The shared frame bounds.
    pub fn indices(&self) -> (indices: AnimationIndices)
        ensures
            indices == self.frame_indices(),
    {
        self.indices
    }
}

/// A hand as it stands in the world: which hand it is, and its sprite.
#[derive(Debug)]
pub struct HandBundle<T, L> {
    pub hand: Hand,
    pub sprite: AnimatableSpriteBundle<T, L>,
}

impl<T: Clone, L> HandBundle<T, L> {
    /// The sprite's texture is a clone of the one that `animations` keeps for
    /// the hand.
    pub open spec fn in_sync(self, animations: HandAnimations<T, L>) -> bool {
        cloned(animations.texture(self.hand), self.sprite.texture)
    }
}

/// Gives every hand, which comes with the texture it shows, a clone of the
/// texture that `animations` keeps for it.
pub fn sync_hand_animation<T: Clone, L>(
    hands: &mut Vec<(Hand, T)>,
    animations: &HandAnimations<T, L>,
)
    ensures
        final(hands)@.len() == old(hands)@.len(),
        forall|i: int|
            0 <= i < old(hands)@.len() ==> {
                &&& (#[trigger] final(hands)@[i]).0 == old(hands)@[i].0
                &&& cloned(animations.texture(old(hands)@[i].0), final(hands)@[i].1)
            },
{
    let mut i: usize = 0;
    while i < hands.len()
        invariant
            i <= hands@.len(),
            hands@.len() == old(hands)@.len(),
            forall|j: int|
                0 <= j < i ==> {
                    &&& (#[trigger] hands@[j]).0 == old(hands)@[j].0
                    &&& cloned(animations.texture(old(hands)@[j].0), hands@[j].1)
                },
            forall|j: int| i <= j < hands@.len() ==> hands@[j] == old(hands)@[j],
        decreases hands@.len() - i,
    {
        sync_one(&mut hands[i], animations);
        i = i + 1;
    }
}

fn sync_one<T: Clone, L>(hand: &mut (Hand, T), animations: &HandAnimations<T, L>)
    ensures
        final(hand).0 == old(hand).0,
        cloned(animations.texture(old(hand).0), final(hand).1),
{
    hand.1 = animations.get(hand.0);
}

/// A hand as [`change_hand`] meets it: the hand, and whether its entity
/// already carries a spawner of the particle burst.
#[derive(Debug, Clone, Copy, PartialEq, Eq, Structural)]
pub struct HandEntity {
    pub hand: Hand,
    pub has_spawner: bool,
}

/// What is to happen to an entity's particle burst when its hand changes.
#[derive(Debug, Clone, Copy, PartialEq, Eq, Structural)]
pub enum Burst {
    /// The entity has a spawner: start it again.
    Rearm,
    /// The entity has none: attach the burst.
    Attach,
}

/// What a pass of [`change_hand`] asks of the engine.
#[derive(Debug)]
pub struct HandChange {
    /// Whether to shake the camera.
    pub shake: bool,
    /// For each hand, in order, what to do with its burst; empty if no hand
    /// changed.
    pub bursts: Vec<Burst>,
}

impl HandEntity {
    /// The entity after a change of hands: its hand one step on in the cycle.
    pub open spec fn changed(self) -> HandEntity {
        HandEntity { hand: self.hand.next(), ..self }
    }

    /// What a change of hands does to the entity's burst.
    pub open spec fn burst(self) -> Burst {
        if self.has_spawner {
            Burst::Rearm
        } else {
            Burst::Attach
        }
    }
}

/// One pass of the hand change. If the key was `pressed` on this frame, the
/// camera shakes, every hand moves one step on in the cycle, and every burst
/// is started again or, where there is none yet, attached. If not, nothing
/// happens.
pub fn change_hand(pressed: bool, hands: &mut Vec<HandEntity>) -> (change: HandChange)
    ensures
        change.shake == pressed,
        pressed ==> final(hands)@ == old(hands)@.map_values(|hand: HandEntity| hand.changed()),
        pressed ==> change.bursts@ == old(hands)@.map_values(|hand: HandEntity| hand.burst()),
        !pressed ==> final(hands)@ == old(hands)@ && change.bursts@.len() == 0,
{
    let mut bursts: Vec<Burst> = Vec::new();
    if pressed {
        let mut i: usize = 0;
        while i < hands.len()
            invariant
                i <= hands@.len(),
                hands@.len() == old(hands)@.len(),
                bursts@.len() == i,
                forall|j: int| 0 <= j < i ==> hands@[j] == old(hands)@[j].changed(),
                forall|j: int| 0 <= j < i ==> bursts@[j] == old(hands)@[j].burst(),
                forall|j: int| i <= j < hands@.len() ==> hands@[j] == old(hands)@[j],
            decreases hands@.len() - i,
        {
            let entity = hands[i];
            bursts.push(
                if entity.has_spawner {
                    Burst::Rearm
                } else {
                    Burst::Attach
                },
            );
            hands.set(i, HandEntity { hand: entity.hand.cycle(), has_spawner: entity.has_spawner });
            i = i + 1;
        }
        assert(hands@ =~= old(hands)@.map_values(|hand: HandEntity| hand.changed()));
        assert(bursts@ =~= old(hands)@.map_values(|hand: HandEntity| hand.burst()));
    }
    HandChange { shake: pressed, bursts }
}

} // verus!
