use dirty_way::bubble::{Bubble, BubblePopulation, FoamSlotAllocator, HitOutcome, LandingSurface};
use dirty_way::consts::{FOAM_CLUSTER_MAX, FOAM_CLUSTER_MIN, FOAM_INSTANCE_POOL_SIZE, MAX_LIVE_BUBBLES};
use dirty_way::enemy::{Enemy, EnemyKind};
use dirty_way::quality::{FoamQuality, MicrostructureQuality, FoamQualityProfile};
use dirty_way::state::Score;

fn profile(max: u32) -> FoamQualityProfile {
    FoamQualityProfile {
        max_aggregates: max,
        raymarch_steps: 32,
        microstructure_quality: MicrostructureQuality::Simple,
    }
}

#[test]
fn fresh_allocator_has_whole_pool_free() {
    let a = FoamSlotAllocator::default();
    assert_eq!(a.free_count(), FOAM_INSTANCE_POOL_SIZE as usize);
    assert_eq!(a.active_bindings(), 0);
}

#[test]
fn allocate_hands_out_highest_slots_first() {
    let mut a = FoamSlotAllocator::default();
    let b = a.allocate_with_cluster(FoamQuality::Medium.profile(), 5).unwrap();
    assert_eq!(b.slots, [1023, 1022, 1021, 1020, 1019, 1018, 1017]);
    assert_eq!(b.active_count, 5);
    assert_eq!(b.generation, 1);
    assert_eq!(a.free_count(), 1024 - FOAM_CLUSTER_MAX);
    assert_eq!(a.active_bindings(), 1);
    let c = a.allocate_with_cluster(FoamQuality::Medium.profile(), 4).unwrap();
    assert_eq!(c.slots, [1016, 1015, 1014, 1013, 1012, 1011, 1010]);
    assert_eq!(c.generation, 2);
    assert_eq!(a.active_bindings(), 2);
}

#[test]
fn allocate_refused_when_quality_budget_used_up() {
    let mut a = FoamSlotAllocator::default();
    assert!(a.allocate_with_cluster(profile(1), 4).is_some());
    assert!(a.allocate_with_cluster(profile(1), 4).is_none());
    assert_eq!(a.active_bindings(), 1);
    assert_eq!(a.free_count(), 1024 - 7);
}

#[test]
fn allocate_refused_when_pool_exhausted() {
    let mut a = FoamSlotAllocator::default();
    let mut n = 0;
    while a.allocate_with_cluster(profile(u32::MAX), 7).is_some() {
        n += 1;
    }
    // 1024 slots hold 146 groups of 7, with 2 slots left over.
    assert_eq!(n, 146);
    assert_eq!(a.free_count(), 2);
    assert_eq!(a.active_bindings(), 146);
}

#[test]
fn low_quality_allows_sixteen_foam_bubbles() {
    let mut a = FoamSlotAllocator::default();
    let mut n = 0;
    while a.allocate(FoamQuality::Low.profile()).is_some() {
        n += 1;
    }
    assert_eq!(n, 16);
}

#[test]
fn release_returns_slots_and_count() {
    let mut a = FoamSlotAllocator::default();
    let b = a.allocate_with_cluster(profile(10), 6).unwrap();
    a.release(&b);
    assert_eq!(a.free_count(), 1024);
    assert_eq!(a.active_bindings(), 0);
    // The released slots come back in the order of the binding, so the
    // slot that was handed out last is handed out first now.
    let c = a.allocate_with_cluster(profile(10), 6).unwrap();
    assert_eq!(c.slots, [1017, 1018, 1019, 1020, 1021, 1022, 1023]);
    assert_eq!(c.generation, 2);
}

#[test]
fn allocate_draws_between_min_and_max_blobs() {
    let mut a = FoamSlotAllocator::default();
    let mut seen = std::collections::BTreeSet::new();
    for _ in 0..100 {
        let b = a.allocate(profile(u32::MAX)).unwrap();
        assert!(b.active_count >= FOAM_CLUSTER_MIN && b.active_count <= FOAM_CLUSTER_MAX as u32);
        seen.insert(b.active_count);
        a.release(&b);
    }
    // With 100 draws from four values, more than one value shows up.
    assert!(seen.len() > 1);
}

#[test]
fn allocate_release_roundtrip_restores_free_set() {
    let mut a = FoamSlotAllocator::default();
    let b = a.allocate_with_cluster(profile(3), 7).unwrap();
    let g = b.generation;
    a.release(&b);
    assert_eq!(a.free_count(), 1024);
    assert_eq!(a.active_bindings(), 0);
    let c = a.allocate_with_cluster(profile(3), 7).unwrap();
    assert_ne!(c.generation, g);
    let mut sorted_b = b.slots;
    let mut sorted_c = c.slots;
    sorted_b.sort();
    sorted_c.sort();
    assert_eq!(sorted_b, sorted_c);
}

#[test]
fn binding_active_slots_are_prefix() {
    let mut a = FoamSlotAllocator::default();
    let b = a.allocate_with_cluster(profile(3), 4).unwrap();
    assert_eq!(b.active_slots(), vec![1023, 1022, 1021, 1020]);
    let c = a.allocate_with_cluster(profile(3), 7).unwrap();
    assert_eq!(c.active_slots(), c.slots.to_vec());
}

#[test]
fn bubble_strike_damages_once() {
    let mut bubble = Bubble::new(2);
    let mut enemy = Enemy::new(EnemyKind::Oil);
    let mut score = Score(0);
    assert_eq!(bubble.strike(7, &mut enemy, &mut score), HitOutcome::Damaged);
    assert_eq!(enemy.health, 4);
    assert_eq!(bubble.strike(7, &mut enemy, &mut score), HitOutcome::AlreadyHit);
    assert_eq!(enemy.health, 4);
    assert_eq!(score.0, 0);
    assert!(bubble.has_hit(7));
    assert!(!bubble.has_hit(8));
}

#[test]
fn bubble_strike_defeats_and_scores() {
    let mut bubble = Bubble::new(3);
    let mut enemy = Enemy::new(EnemyKind::Dust);
    let mut score = Score(100);
    assert_eq!(bubble.strike(1, &mut enemy, &mut score), HitOutcome::Defeated);
    assert_eq!(enemy.health, 0);
    assert_eq!(score.0, 110);
}

#[test]
fn bubble_strike_overkill_still_scores_once() {
    let mut enemy = Enemy::new(EnemyKind::Mud);
    let mut score = Score(0);
    let mut b1 = Bubble::new(5);
    let mut b2 = Bubble::new(5);
    assert_eq!(b1.strike(9, &mut enemy, &mut score), HitOutcome::Damaged);
    assert_eq!(b2.strike(9, &mut enemy, &mut score), HitOutcome::Defeated);
    assert_eq!(enemy.health, -1);
    assert_eq!(score.0, 30);
}

#[test]
fn bubble_landing_starts_flying() {
    let mut bubble = Bubble::new(1);
    assert_eq!(bubble.landing(), LandingSurface::Flying);
    assert_eq!(bubble.power(), 1);
    bubble.set_landing(LandingSurface::Pile);
    assert_eq!(bubble.landing(), LandingSurface::Pile);
    assert_eq!(LandingSurface::default(), LandingSurface::Flying);
}

#[test]
fn population_evicts_oldest_when_full() {
    let mut p = BubblePopulation::default();
    for id in 0..MAX_LIVE_BUBBLES as u64 {
        assert_eq!(p.record_spawn(id), None);
    }
    assert_eq!(p.len(), MAX_LIVE_BUBBLES);
    assert_eq!(p.record_spawn(1000), Some(0));
    assert_eq!(p.record_spawn(1001), Some(1));
    assert_eq!(p.len(), MAX_LIVE_BUBBLES);
}

#[test]
fn population_forget_and_clear() {
    let mut p = BubblePopulation::default();
    p.record_spawn(5);
    p.record_spawn(6);
    p.record_spawn(7);
    p.forget(6);
    assert_eq!(p.len(), 2);
    p.forget(42);
    assert_eq!(p.len(), 2);
    for id in 100..(100 + MAX_LIVE_BUBBLES as u64 - 2) {
        assert_eq!(p.record_spawn(id), None);
    }
    // 6 was forgotten, so the oldest is 5, then 7.
    assert_eq!(p.record_spawn(1), Some(5));
    assert_eq!(p.record_spawn(2), Some(7));
    p.clear();
    assert_eq!(p.len(), 0);
}

#[test]
fn free_plus_held_is_whole_pool() {
    let mut a = FoamSlotAllocator::default();
    let q = FoamQuality::High.profile();
    let mut held = Vec::new();
    for k in 0..20u32 {
        held.push(a.allocate_with_cluster(q, 4 + k % 4).unwrap());
        assert_eq!(a.free_count() + 7 * a.active_bindings() as usize, 1024);
    }
    for (i, b) in held.iter().enumerate() {
        if i % 3 == 0 {
            a.release(b);
            assert_eq!(a.free_count() + 7 * a.active_bindings() as usize, 1024);
        }
    }
    // Every slot held by a live binding is distinct from every other one.
    let mut all: Vec<u32> = held
        .iter()
        .enumerate()
        .filter(|(i, _)| i % 3 != 0)
        .flat_map(|(_, b)| b.slots.to_vec())
        .collect();
    let n = all.len();
    all.sort();
    all.dedup();
    assert_eq!(all.len(), n);
}

#[test]
fn generations_differ_between_allocations() {
    let mut a = FoamSlotAllocator::default();
    let mut last = 0;
    for _ in 0..50 {
        let b = a.allocate_with_cluster(profile(1000), 4).unwrap();
        assert_ne!(b.generation, last);
        last = b.generation;
        a.release(&b);
    }
    assert_eq!(last, 50);
}
