//! Sprite-sheet animation: a frame index that steps through its bounds each
//! time a repeating timer fires.

use crate::timer::{Timer, TimerMode};
use vstd::prelude::*;

verus! {

/// The first and last frame of an animation on a sprite sheet.
#[derive(Debug, Clone, Copy, PartialEq, Eq, Structural)]
pub struct AnimationIndices {
    pub first: usize,
    pub last: usize,
}

impl AnimationIndices {
    /// The bounds are in order.
    pub open spec fn wf(self) -> bool {
        self.first <= self.last
    }

    /// `index` lies within the bounds.
    pub open spec fn contains(self, index: usize) -> bool {
        self.first <= index <= self.last
    }

    /// The frame shown after `index`: the next one, or the first again once
    /// the last is reached.
    pub open spec fn next(self, index: usize) -> usize {
        if index >= self.last {
            self.first
        } else {
            (index + 1) as usize
        }
    }

    /// The bounds of a sheet of `frames` frames, counted from zero.
    pub fn from_frames(frames: usize) -> (indices: AnimationIndices)
        requires
            frames >= 1,
        ensures
            indices.first == 0,
            indices.last == frames - 1,
            indices.wf(),
    {
        AnimationIndices { first: 0, last: frames - 1 }
    }

    /// The frame to show after `index`.
    ///
    /// From a frame within the bounds this is the next frame, wrapping from
    /// the last to the first, and so itself within the bounds.
    pub fn advance(&self, index: usize) -> (next: usize)
        ensures
            next == self.next(index),
            self.contains(index) ==> next == (if index == self.last {
                self.first as int
            } else {
                index + 1
            }),
            self.contains(index) ==> self.contains(next),
    {
        if index >= self.last {
            self.first
        } else {
            index + 1
        }
    }
}

/// The repeating timer that paces an animation: one frame each time it fires.
#[derive(Debug, Clone, Copy, PartialEq, Eq, Structural)]
pub struct AnimationTimer(pub Timer);

impl AnimationTimer {
    /// A timer that fires every `duration` nanoseconds.
    pub fn repeating(duration: u64) -> (timer: AnimationTimer)
        ensures
            timer.0 == (Timer {
                duration,
                elapsed: 0,
                mode: TimerMode::Repeating,
                finished: false,
                times_finished_this_tick: 0,
            }),
            timer.0.wf(),
    {
        AnimationTimer(Timer::new(duration, TimerMode::Repeating))
    }
}

/// Where a sprite stands on its sheet: the sheet's layout and the frame shown.
#[derive(Debug)]
pub struct TextureAtlas<L> {
    pub layout: L,
    pub index: usize,
}

/// What an animated sprite is made of. `T` is the engine's handle to the
/// texture, `L` its handle to the sheet's layout; where the sprite stands and
/// how large it is drawn is the engine's to keep.
#[derive(Debug)]
pub struct AnimatableSpriteBundle<T, L> {
    pub texture: T,
    pub texture_atlas: TextureAtlas<L>,
    pub sprite_indices: AnimationIndices,
    pub timer: AnimationTimer,
}

impl<T, L> AnimatableSpriteBundle<T, L> {
    /// A sprite that shows the first frame of `indices` and moves on every
    /// `frame_time` nanoseconds.
    pub fn new(texture: T, layout: L, indices: AnimationIndices, frame_time: u64) -> (bundle: Self)
        ensures
            bundle.texture == texture,
            bundle.texture_atlas.layout == layout,
            bundle.texture_atlas.index == indices.first,
            bundle.sprite_indices == indices,
            bundle.timer.0 == (Timer {
                duration: frame_time,
                elapsed: 0,
                mode: TimerMode::Repeating,
                finished: false,
                times_finished_this_tick: 0,
            }),
    {
        AnimatableSpriteBundle {
            texture,
            texture_atlas: TextureAtlas { layout, index: indices.first },
            sprite_indices: indices,
            timer: AnimationTimer::repeating(frame_time),
        }
    }
}

/// One frame of one sprite: ticks `timer` by `delta` nanoseconds and returns
/// the frame to show, which is the one after `index` if the timer fired and
/// `index` itself if not.
pub fn animate_sprite(
    delta: u64,
    indices: &AnimationIndices,
    timer: &mut AnimationTimer,
    index: usize,
) -> (shown: usize)
    ensures
        final(timer).0 == old(timer).0.ticked(delta),
        shown == (if final(timer).0.fired() {
            indices.next(index)
        } else {
            index
        }),
        indices.contains(index) ==> indices.contains(shown),
{
    timer.0.tick(delta);
    if timer.0.just_finished() {
        indices.advance(index)
    } else {
        index
    }
}

/// A sprite as the animator meets it: its frame bounds, its timer, and where
/// it stands on its sheet.
pub type Sprite<L> = (AnimationIndices, AnimationTimer, TextureAtlas<L>);

/// The sprite one frame of `delta` nanoseconds later: its timer ticked, and
/// its frame advanced by one if the timer fired.
pub open spec fn animated<L>(sprite: Sprite<L>, delta: u64) -> Sprite<L> {
    let timer = sprite.1.0.ticked(delta);
    (
        sprite.0,
        AnimationTimer(timer),
        TextureAtlas {
            index: if timer.fired() {
                sprite.0.next(sprite.2.index)
            } else {
                sprite.2.index
            },
            ..sprite.2
        },
    )
}

/// One frame of every sprite: each is animated by `delta` nanoseconds.
pub fn animate_sprites<L>(delta: u64, sprites: &mut Vec<Sprite<L>>)
    ensures
        final(sprites)@ == old(sprites)@.map_values(|sprite: Sprite<L>| animated(sprite, delta)),
{
    let mut i: usize = 0;
    while i < sprites.len()
        invariant
            i <= sprites@.len(),
            sprites@.len() == old(sprites)@.len(),
            forall|j: int| 0 <= j < i ==> sprites@[j] == animated(old(sprites)@[j], delta),
            forall|j: int| i <= j < sprites@.len() ==> sprites@[j] == old(sprites)@[j],
        decreases sprites@.len() - i,
    {
        animate_one(delta, &mut sprites[i]);
        i = i + 1;
    }
    assert(sprites@ =~= old(sprites)@.map_values(|sprite: Sprite<L>| animated(sprite, delta)));
}

fn animate_one<L>(delta: u64, sprite: &mut Sprite<L>)
    ensures
        *final(sprite) == animated(*old(sprite), delta),
{
    let shown = animate_sprite(delta, &sprite.0, &mut sprite.1, sprite.2.index);
    sprite.2.index = shown;
}

} // verus!
