//! Timed lifetimes: an entity that carries one leaves the world on the frame
//! its countdown runs out.

use crate::timer::{Timer, TimerMode};
use vstd::prelude::*;

verus! {

/// The one-shot countdown after which its entity is despawned.
#[derive(Debug, Clone, Copy, PartialEq, Eq, Structural)]
pub struct EntityLifetime(pub Timer);

/// The part of the game that collects entities whose lifetime has run out;
/// [`delete_expired_entities`] is its one system, run on every update.
#[derive(Debug, Clone, Copy, PartialEq, Eq, Structural)]
pub struct EntityGcPlugin;

/// An entity, by the engine's number for it, with its lifetime.
pub type Mortal = (u64, EntityLifetime);

impl EntityLifetime {
    /// The lifetime of `ttl` nanoseconds before its first tick.
    pub open spec fn fresh(ttl: u64) -> EntityLifetime {
        EntityLifetime(
            Timer {
                duration: ttl,
                elapsed: 0,
                mode: TimerMode::Once,
                finished: false,
                times_finished_this_tick: 0,
            },
        )
    }

    /// The lifetime one tick of `delta` later.
    pub open spec fn ticked(self, delta: u64) -> EntityLifetime {
        EntityLifetime(self.0.ticked(delta))
    }

    /// Whether the last tick ended the lifetime.
    pub open spec fn expired(self) -> bool {
        self.0.fired()
    }

    /// A lifetime of `ttl` nanoseconds.
    pub fn new(ttl: u64) -> (lifetime: EntityLifetime)
        ensures
            lifetime == Self::fresh(ttl),
            lifetime.0.wf(),
    {
        EntityLifetime(Timer::new(ttl, TimerMode::Once))
    }
}

/// An entity one tick of `delta` later.
pub open spec fn older(delta: u64) -> spec_fn(Mortal) -> Mortal {
    |mortal: Mortal| (mortal.0, mortal.1.ticked(delta))
}

/// Whether an entity's last tick left it alive.
pub open spec fn stays() -> spec_fn(Mortal) -> bool {
    |mortal: Mortal| !mortal.1.expired()
}

/// Whether an entity's last tick ended its lifetime.
pub open spec fn goes() -> spec_fn(Mortal) -> bool {
    |mortal: Mortal| mortal.1.expired()
}

/// An entity's number.
pub open spec fn number() -> spec_fn(Mortal) -> u64 {
    |mortal: Mortal| mortal.0
}

/// Every entity of `entities` with its lifetime ticked by `delta`.
pub open spec fn aged(entities: Seq<Mortal>, delta: u64) -> Seq<Mortal> {
    entities.map_values(older(delta))
}

/// The entities that are still there after a frame of `delta`, in their
/// order: those whose lifetime the frame's tick did not end.
pub open spec fn survivors(entities: Seq<Mortal>, delta: u64) -> Seq<Mortal> {
    aged(entities, delta).filter(stays())
}

/// The entities that a frame of `delta` despawns, in their order.
pub open spec fn despawned(entities: Seq<Mortal>, delta: u64) -> Seq<u64> {
    aged(entities, delta).filter(goes()).map_values(number())
}

/// The entities that are still there after one frame for each of `deltas`.
pub open spec fn survivors_after(entities: Seq<Mortal>, deltas: Seq<u64>) -> Seq<Mortal>
    decreases deltas.len(),
{
    if deltas.len() == 0 {
        entities
    } else {
        survivors(survivors_after(entities, deltas.drop_last()), deltas.last())
    }
}

/// The time that frames of `deltas` take together.
pub open spec fn total(deltas: Seq<u64>) -> int
    decreases deltas.len(),
{
    if deltas.len() == 0 {
        0
    } else {
        total(deltas.drop_last()) + deltas.last()
    }
}

/// Whether `entity` is among `entities`.
pub open spec fn is_alive(entities: Seq<Mortal>, entity: u64) -> bool {
    exists|i: int| 0 <= i < entities.len() && entities[i].0 == entity
}

/// One frame of the collector: ticks every lifetime by `delta` nanoseconds,
/// takes the entities whose lifetime ended on this tick out of `entities` and
/// returns them for despawning.
pub fn delete_expired_entities(entities: &mut Vec<Mortal>, delta: u64) -> (gone: Vec<u64>)
    ensures
        final(entities)@ == survivors(old(entities)@, delta),
        gone@ == despawned(old(entities)@, delta),
{
    let mut kept: Vec<Mortal> = Vec::new();
    let mut gone: Vec<u64> = Vec::new();
    let mut i: usize = 0;
    proof {
        lemma_frame_of_none(delta);
    }
    while i < entities.len()
        invariant
            entities@ == old(entities)@,
            i <= entities@.len(),
            kept@ == survivors(entities@.take(i as int), delta),
            gone@ == despawned(entities@.take(i as int), delta),
        decreases entities@.len() - i,
    {
        let (entity, mut lifetime) = entities[i];
        lifetime.0.tick(delta);
        proof {
            assert(entities@.take(i + 1) == entities@.take(i as int).push(entities@[i as int]));
            lemma_frame_of_one_more(entities@.take(i as int), entities@[i as int], delta);
        }
        if lifetime.0.just_finished() {
            gone.push(entity);
        } else {
            kept.push((entity, lifetime));
        }
        i = i + 1;
    }
    assert(entities@.take(i as int) == entities@);
    *entities = kept;
    gone
}

proof fn lemma_frame_of_none(delta: u64)
    ensures
        survivors(Seq::<Mortal>::empty(), delta) == Seq::<Mortal>::empty(),
        despawned(Seq::<Mortal>::empty(), delta) == Seq::<u64>::empty(),
{
    reveal(Seq::filter);
}

proof fn lemma_frame_of_one_more(entities: Seq<Mortal>, mortal: Mortal, delta: u64)
    ensures
        survivors(entities.push(mortal), delta) == if mortal.1.ticked(delta).expired() {
            survivors(entities, delta)
        } else {
            survivors(entities, delta).push((mortal.0, mortal.1.ticked(delta)))
        },
        despawned(entities.push(mortal), delta) == if mortal.1.ticked(delta).expired() {
            despawned(entities, delta).push(mortal.0)
        } else {
            despawned(entities, delta)
        },
{
    let later = (mortal.0, mortal.1.ticked(delta));
    assert(aged(entities.push(mortal), delta) == aged(entities, delta).push(later));
    aged(entities, delta).lemma_filter_push(later, stays());
    aged(entities, delta).lemma_filter_push(later, goes());
    let left = aged(entities, delta).filter(goes());
    assert(left.push(later).map_values(number()) == left.map_values(number()).push(later.0));
}

/// A lifetime bounds its entity's stay in the world.
///
/// Take a world in which `entity` stands with a fresh lifetime of `ttl`. After
/// one frame for each of `deltas`, the entity is still there exactly if the
/// frames add up to less than `ttl`; before the first frame it is there in any
/// case. While it is there, its lifetime has exactly that sum behind it. The
/// frame that brings the sum to `ttl` despawns it, and no other.
pub proof fn lemma_lifetime_bounds_presence(
    entities: Seq<Mortal>,
    entity: u64,
    ttl: u64,
    deltas: Seq<u64>,
)
    requires
        is_alive(entities, entity),
        forall|i: int|
            0 <= i < entities.len() && entities[i].0 == entity ==> entities[i].1
                == EntityLifetime::fresh(ttl),
    ensures
        is_alive(survivors_after(entities, deltas), entity) <==> (deltas.len() == 0 || total(deltas)
            < ttl),
        deltas.len() > 0 ==> {
            let before = survivors_after(entities, deltas.drop_last());
            let reached_before = deltas.len() > 1 && total(deltas.drop_last()) >= ttl;
            despawned(before, deltas.last()).contains(entity) <==> total(deltas) >= ttl
                && !reached_before
        },
        forall|i: int|
            #![trigger survivors_after(entities, deltas)[i]]
            0 <= i < survivors_after(entities, deltas).len() && survivors_after(
                entities,
                deltas,
            )[i].0 == entity ==> survivors_after(entities, deltas)[i].1.0 == (Timer {
                elapsed: total(deltas) as u64,
                ..EntityLifetime::fresh(ttl).0
            }),
{
    lemma_running_lifetime(entities, entity, ttl, deltas);
    if deltas.len() > 0 {
        let before = survivors_after(entities, deltas.drop_last());
        lemma_running_lifetime(entities, entity, ttl, deltas.drop_last());
        lemma_despawned_holds(before, entity, deltas.last());
    }
}

/// What the world holds of an entity that went in with a fresh lifetime: as
/// long as the frames add up to less than `ttl`, the entity with exactly that
/// much of its lifetime behind it; from then on, nothing.
proof fn lemma_running_lifetime(entities: Seq<Mortal>, entity: u64, ttl: u64, deltas: Seq<u64>)
    requires
        is_alive(entities, entity),
        forall|i: int|
            0 <= i < entities.len() && entities[i].0 == entity ==> entities[i].1
                == EntityLifetime::fresh(ttl),
    ensures
        is_alive(survivors_after(entities, deltas), entity) <==> (deltas.len() == 0 || total(deltas)
            < ttl),
        0 <= total(deltas),
        forall|i: int|
            #![trigger survivors_after(entities, deltas)[i]]
            0 <= i < survivors_after(entities, deltas).len() && survivors_after(
                entities,
                deltas,
            )[i].0 == entity ==> survivors_after(entities, deltas)[i].1.0 == (Timer {
                elapsed: total(deltas) as u64,
                ..EntityLifetime::fresh(ttl).0
            }),
    decreases deltas.len(),
{
    if deltas.len() > 0 {
        let delta = deltas.last();
        let before = survivors_after(entities, deltas.drop_last());
        let now = survivors_after(entities, deltas);
        lemma_running_lifetime(entities, entity, ttl, deltas.drop_last());
        let spent = total(deltas.drop_last());
        lemma_survivors_hold(before, delta);
        assert forall|j: int| 0 <= j < now.len() && (#[trigger] now[j]).0 == entity implies now[j].1.0
            == (Timer { elapsed: total(deltas) as u64, ..EntityLifetime::fresh(ttl).0 })
            && total(deltas) < ttl by {
            assert(grown_from(before, delta, now[j]));
            let i = choose|i: int|
                0 <= i < before.len() && now[j] == older(delta)(#[trigger] before[i]);
            assert(before[i].0 == entity);
            assert(before[i].1.0.elapsed == spent);
            assert(!now[j].1.expired());
        }
        if is_alive(before, entity) && total(deltas) < ttl {
            let i = choose|i: int| 0 <= i < before.len() && before[i].0 == entity;
            assert(before[i].1.0.elapsed == spent);
            assert(!older(delta)(before[i]).1.expired());
            assert(now.contains(older(delta)(before[i])));
            let j = choose|j: int| 0 <= j < now.len() && now[j] == older(delta)(before[i]);
            assert(now[j].0 == entity);
        }
    }
}

/// Whether `mortal` is an entity of `entities` one tick of `delta` later.
spec fn grown_from(entities: Seq<Mortal>, delta: u64, mortal: Mortal) -> bool {
    exists|i: int| 0 <= i < entities.len() && mortal == older(delta)(#[trigger] entities[i])
}

/// What a frame keeps: each survivor is an entity of before the frame, one
/// tick older and not expired, and each such entity is a survivor.
proof fn lemma_survivors_hold(entities: Seq<Mortal>, delta: u64)
    ensures
        forall|j: int|
            0 <= j < survivors(entities, delta).len() ==> {
                &&& !(#[trigger] survivors(entities, delta)[j]).1.expired()
                &&& grown_from(entities, delta, survivors(entities, delta)[j])
            },
        forall|i: int|
            0 <= i < entities.len() && !older(delta)(#[trigger] entities[i]).1.expired()
                ==> survivors(entities, delta).contains(older(delta)(entities[i])),
{
    let old_ones = aged(entities, delta);
    assert forall|j: int| 0 <= j < survivors(entities, delta).len() implies {
        &&& !(#[trigger] survivors(entities, delta)[j]).1.expired()
        &&& grown_from(entities, delta, survivors(entities, delta)[j])
    } by {
        let kept = survivors(entities, delta)[j];
        old_ones.lemma_filter_pred(stays(), j);
        assert(survivors(entities, delta).contains(kept));
        old_ones.lemma_filter_contains_rev(stays(), kept);
        let i = choose|i: int| 0 <= i < old_ones.len() && old_ones[i] == kept;
        assert(kept == older(delta)(entities[i]));
    }
    assert forall|i: int|
        0 <= i < entities.len() && !older(delta)(#[trigger] entities[i]).1.expired()
        implies survivors(entities, delta).contains(older(delta)(entities[i])) by {
        assert(old_ones[i] == older(delta)(entities[i]));
        assert(stays()(old_ones[i]));
        old_ones.lemma_filter_contains(stays(), i);
    }
}

/// What a frame despawns: `entity` is among them exactly if the tick ends the
/// lifetime of an entity of that number.
proof fn lemma_despawned_holds(entities: Seq<Mortal>, entity: u64, delta: u64)
    ensures
        despawned(entities, delta).contains(entity) <==> exists|i: int|
            0 <= i < entities.len() && (#[trigger] entities[i]).0 == entity && entities[i].1.ticked(
                delta,
            ).expired(),
{
    let old_ones = aged(entities, delta);
    let goes = goes();
    let left = old_ones.filter(goes);
    let ids = despawned(entities, delta);
    if ids.contains(entity) {
        let j = choose|j: int| 0 <= j < ids.len() && ids[j] == entity;
        old_ones.lemma_filter_pred(goes, j);
        assert(left.contains(left[j]));
        old_ones.lemma_filter_contains_rev(goes, left[j]);
        let i = choose|i: int| 0 <= i < old_ones.len() && old_ones[i] == left[j];
        assert(entities[i].0 == entity && entities[i].1.ticked(delta).expired());
    }
    if exists|i: int|
        0 <= i < entities.len() && (#[trigger] entities[i]).0 == entity && entities[i].1.ticked(
            delta,
        ).expired() {
        let i = choose|i: int|
            0 <= i < entities.len() && (#[trigger] entities[i]).0 == entity && entities[i].1.ticked(
                delta,
            ).expired();
        assert(goes(old_ones[i]));
        old_ones.lemma_filter_contains(goes, i);
        let j = choose|j: int| 0 <= j < left.len() && left[j] == old_ones[i];
        assert(ids[j] == entity);
    }
}

} // verus!
