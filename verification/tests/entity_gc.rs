use hand_cannon::entity_gc::{delete_expired_entities, EntityLifetime};
use hand_cannon::timer::TimerMode;

const SECOND: u64 = 1_000_000_000;

#[test]
fn new_lifetime_is_a_one_shot_timer() {
    let lifetime = EntityLifetime::new(5 * SECOND);
    assert_eq!(lifetime.0.duration, 5 * SECOND);
    assert_eq!(lifetime.0.elapsed, 0);
    assert_eq!(lifetime.0.mode, TimerMode::Once);
    assert!(!lifetime.0.finished());
}

#[test]
fn entity_stays_while_its_lifetime_runs() {
    let mut entities = vec![(1u64, EntityLifetime::new(5 * SECOND))];
    let gone = delete_expired_entities(&mut entities, 2 * SECOND);
    assert!(gone.is_empty());
    assert_eq!(entities.len(), 1);
    assert_eq!(entities[0].0, 1);
    assert_eq!(entities[0].1 .0.elapsed, 2 * SECOND);
}

#[test]
fn entity_goes_on_the_frame_its_lifetime_ends() {
    let mut entities = vec![(1u64, EntityLifetime::new(5 * SECOND))];
    assert!(delete_expired_entities(&mut entities, 4 * SECOND).is_empty());
    let gone = delete_expired_entities(&mut entities, SECOND);
    assert_eq!(gone, vec![1]);
    assert!(entities.is_empty());
}

#[test]
fn entity_is_despawned_once_only() {
    let mut entities = vec![(1u64, EntityLifetime::new(SECOND))];
    let mut despawns = 0;
    for _ in 0..10 {
        despawns += delete_expired_entities(&mut entities, SECOND / 2).len();
    }
    assert_eq!(despawns, 1);
    assert!(entities.is_empty());
}

#[test]
fn each_entity_goes_by_its_own_lifetime() {
    let mut entities = vec![
        (10u64, EntityLifetime::new(3 * SECOND)),
        (11u64, EntityLifetime::new(SECOND)),
        (12u64, EntityLifetime::new(2 * SECOND)),
        (13u64, EntityLifetime::new(SECOND)),
    ];
    let gone = delete_expired_entities(&mut entities, SECOND);
    assert_eq!(gone, vec![11, 13]);
    let left: Vec<u64> = entities.iter().map(|mortal| mortal.0).collect();
    assert_eq!(left, vec![10, 12]);
    let gone = delete_expired_entities(&mut entities, SECOND);
    assert_eq!(gone, vec![12]);
    let gone = delete_expired_entities(&mut entities, SECOND);
    assert_eq!(gone, vec![10]);
    assert!(entities.is_empty());
    assert!(delete_expired_entities(&mut entities, SECOND).is_empty());
}

#[test]
fn presence_goes_by_the_sum_of_the_frames() {
    let ttl = 1_000u64;
    let deltas = [100u64, 0, 250, 649, 1, 5, 0, 1_000];
    let mut entities = vec![(7u64, EntityLifetime::new(ttl))];
    let mut sum = 0u64;
    let mut despawns = 0;
    for delta in deltas {
        let gone = delete_expired_entities(&mut entities, delta);
        let before = sum;
        sum += delta;
        let present = entities.iter().any(|mortal| mortal.0 == 7);
        assert_eq!(present, sum < ttl);
        assert_eq!(gone.contains(&7), before < ttl && sum >= ttl);
        despawns += gone.len();
    }
    assert_eq!(despawns, 1);
}

#[test]
fn lifetime_of_nothing_ends_on_the_first_frame() {
    let mut entities = vec![(3u64, EntityLifetime::new(0))];
    assert_eq!(entities.len(), 1);
    let gone = delete_expired_entities(&mut entities, 0);
    assert_eq!(gone, vec![3]);
    assert!(entities.is_empty());
}
