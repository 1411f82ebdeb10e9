use dirty_way::bubble::{BubblePopulation, FoamSlotAllocator};
use dirty_way::consts::PLAYER_MAX_HEALTH;
use dirty_way::enemy::{add_foam_puffs, enemy_reach_center, Enemy, EnemyKind, FoamCoat};
use dirty_way::quality::FoamQuality;
use dirty_way::state::{
    apply_loaded_save_data, reset_game, restart_input, save_high_score, GameState,
    GutzExecutionContext, Health, SaveData, Score,
};

#[test]
fn game_state_contexts() {
    assert_eq!(GameState::Playing.execution_context(), GutzExecutionContext::InGame);
    assert_eq!(GameState::GameOver.execution_context(), GutzExecutionContext::OutGame);
    assert_eq!(GameState::Title.execution_context(), GutzExecutionContext::OutGame);
    assert_eq!(GameState::default(), GameState::Playing);
}

#[test]
fn defaults() {
    assert_eq!(Health::default().0, 5);
    assert_eq!(Health::default().0, PLAYER_MAX_HEALTH);
    assert_eq!(Score::default().0, 0);
    assert_eq!(SaveData::default().high_score, 0);
}

#[test]
fn high_score_saved_only_when_beaten() {
    let mut save = SaveData { high_score: 120 };
    assert_eq!(save_high_score(&Score(100), &mut save), None);
    assert_eq!(save.high_score, 120);
    assert_eq!(save_high_score(&Score(120), &mut save), None);
    assert_eq!(save.high_score, 120);
    assert_eq!(save_high_score(&Score(130), &mut save), Some(SaveData { high_score: 130 }));
    assert_eq!(save.high_score, 130);
}

#[test]
fn high_score_first_round() {
    let mut save = SaveData::default();
    assert_eq!(save_high_score(&Score(0), &mut save), None);
    assert_eq!(save_high_score(&Score(10), &mut save), Some(SaveData { high_score: 10 }));
}

#[test]
fn loaded_save_data_replaces_current() {
    let mut save = SaveData { high_score: 3 };
    apply_loaded_save_data(&mut save, SaveData { high_score: 77 });
    assert_eq!(save.high_score, 77);
}

#[test]
fn restart_goes_to_playing() {
    assert_eq!(restart_input(true), Some(GameState::Playing));
    assert_eq!(restart_input(false), None);
}

#[test]
fn reset_game_clears_round() {
    let mut score = Score(250);
    let mut health = Health(1);
    let mut population = BubblePopulation::default();
    population.record_spawn(1);
    population.record_spawn(2);
    let mut alloc = FoamSlotAllocator::default();
    let q = FoamQuality::High.profile();
    let b1 = alloc.allocate_with_cluster(q, 4).unwrap();
    let b2 = alloc.allocate_with_cluster(q, 5).unwrap();
    let b3 = alloc.allocate_with_cluster(q, 6).unwrap();
    assert_eq!(alloc.active_bindings(), 3);
    reset_game(&mut score, &mut health, &mut population, &mut alloc, &vec![b1, b2]);
    assert_eq!(score.0, 0);
    assert_eq!(health.0, PLAYER_MAX_HEALTH);
    assert_eq!(population.len(), 0);
    assert_eq!(alloc.active_bindings(), 1);
    assert_eq!(alloc.free_count(), 1024 - 7);
    reset_game(&mut score, &mut health, &mut population, &mut alloc, &vec![b3]);
    assert_eq!(alloc.active_bindings(), 0);
    assert_eq!(alloc.free_count(), 1024);
}

#[test]
fn enemy_kind_stats() {
    assert_eq!(EnemyKind::Dust.max_health(), 3);
    assert_eq!(EnemyKind::Oil.max_health(), 6);
    assert_eq!(EnemyKind::Mud.max_health(), 9);
    assert_eq!(EnemyKind::Dust.score_value(), 10);
    assert_eq!(EnemyKind::Oil.score_value(), 15);
    assert_eq!(EnemyKind::Mud.score_value(), 30);
    assert_eq!(EnemyKind::Dust.contact_damage(), 1);
    assert_eq!(EnemyKind::Oil.contact_damage(), 1);
    assert_eq!(EnemyKind::Mud.contact_damage(), 2);
    let e = Enemy::new(EnemyKind::Oil);
    assert_eq!(e.kind, EnemyKind::Oil);
    assert_eq!(e.health, 6);
}

#[test]
fn enemy_kind_roll_boundaries() {
    assert_eq!(EnemyKind::from_roll(0), EnemyKind::Dust);
    assert_eq!(EnemyKind::from_roll(44), EnemyKind::Dust);
    assert_eq!(EnemyKind::from_roll(45), EnemyKind::Oil);
    assert_eq!(EnemyKind::from_roll(84), EnemyKind::Oil);
    assert_eq!(EnemyKind::from_roll(85), EnemyKind::Mud);
    assert_eq!(EnemyKind::from_roll(99), EnemyKind::Mud);
}

#[test]
fn enemy_kind_random_varies() {
    let mut dust = 0;
    let mut oil = 0;
    let mut mud = 0;
    for _ in 0..600 {
        match EnemyKind::random() {
            EnemyKind::Dust => dust += 1,
            EnemyKind::Oil => oil += 1,
            EnemyKind::Mud => mud += 1,
        }
    }
    assert!(dust > 0 && oil > 0 && mud > 0);
}

#[test]
fn contact_damage_and_game_over() {
    let mut health = Health::default();
    assert!(!enemy_reach_center(&mut health, EnemyKind::Dust));
    assert_eq!(health.0, 4);
    assert!(!enemy_reach_center(&mut health, EnemyKind::Mud));
    assert_eq!(health.0, 2);
    assert!(enemy_reach_center(&mut health, EnemyKind::Mud));
    assert_eq!(health.0, 0);
}

#[test]
fn contact_damage_clamps_at_zero() {
    let mut health = Health(1);
    assert!(enemy_reach_center(&mut health, EnemyKind::Mud));
    assert_eq!(health.0, 0);
    let mut dead = Health(0);
    assert!(enemy_reach_center(&mut dead, EnemyKind::Dust));
    assert_eq!(dead.0, 0);
}

#[test]
fn foam_coat_grows_two_per_hit_up_to_cap() {
    let mut coat = FoamCoat::default();
    assert_eq!(coat.puff_count(), 0);
    for k in 1..=9 {
        assert_eq!(add_foam_puffs(&mut coat), 2);
        assert_eq!(coat.puff_count(), 2 * k);
    }
    assert_eq!(add_foam_puffs(&mut coat), 0);
    assert_eq!(coat.puff_count(), 18);
}

#[test]
fn kind_shares_over_all_rolls() {
    let mut counts = [0u32; 3];
    for roll in 0..100 {
        match EnemyKind::from_roll(roll) {
            EnemyKind::Dust => counts[0] += 1,
            EnemyKind::Oil => counts[1] += 1,
            EnemyKind::Mud => counts[2] += 1,
        }
    }
    assert_eq!(counts, [45, 40, 15]);
}
