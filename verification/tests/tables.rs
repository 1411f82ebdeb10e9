use dirty_way::actions::{
    action_context, bind_hardcoded_defaults, default_key, resolve_action,
    setup_input_bindings, BindingKey, PlayerAction, INPUT_CONFIG_PATH,
};
use dirty_way::layers::{body_layers, BodyKind, CollisionLayers, GameLayer, LayerMask};
use dirty_way::quality::{
    handle_quality_hotkeys, FoamQuality, FoamQualitySetting, MicrostructureQuality,
};
use dirty_way::soap::{
    drive_targets, extract_foam_slots, foam_visible, padded_active_slots,
    prepare_soap_view_params, workgroup_count, SoapViewParams, NO_SLOT,
};
use dirty_way::bubble::FoamSlotAllocator;
use dirty_way::state::{GameState, GutzExecutionContext};

const ALL: [PlayerAction; 6] = [
    PlayerAction::RotateLeft,
    PlayerAction::RotateRight,
    PlayerAction::Charge,
    PlayerAction::Restart,
    PlayerAction::Pause,
    PlayerAction::QuitToTitle,
];

#[test]
fn resolve_action_names() {
    assert_eq!(resolve_action("rotate_left"), Some(PlayerAction::RotateLeft));
    assert_eq!(resolve_action("rotate_right"), Some(PlayerAction::RotateRight));
    assert_eq!(resolve_action("charge"), Some(PlayerAction::Charge));
    assert_eq!(resolve_action("restart"), Some(PlayerAction::Restart));
    assert_eq!(resolve_action("pause"), Some(PlayerAction::Pause));
    assert_eq!(resolve_action("quit_to_title"), Some(PlayerAction::QuitToTitle));
    assert_eq!(resolve_action(""), None);
    assert_eq!(resolve_action("Pause"), None);
    assert_eq!(resolve_action("rotate_left "), None);
    assert_eq!(resolve_action("jump"), None);
    assert_eq!(INPUT_CONFIG_PATH, "input.toml");
}

#[test]
fn action_contexts_and_enabling() {
    for a in ALL {
        let expected = if a == PlayerAction::Restart {
            GutzExecutionContext::OutGame
        } else {
            GutzExecutionContext::InGame
        };
        assert_eq!(action_context(a), expected);
        let allowed = |s: GameState| action_context(a) == s.execution_context();
        assert_eq!(allowed(GameState::Playing), a != PlayerAction::Restart);
        assert_eq!(allowed(GameState::GameOver), a == PlayerAction::Restart);
        assert_eq!(allowed(GameState::Title), a == PlayerAction::Restart);
    }
    let r = setup_input_bindings();
    assert_eq!(r.len(), 6);
    assert_eq!(r[3], (PlayerAction::Restart, GutzExecutionContext::OutGame));
    assert_eq!(r[0], (PlayerAction::RotateLeft, GutzExecutionContext::InGame));
}

#[test]
fn default_bindings() {
    let d = bind_hardcoded_defaults();
    assert_eq!(
        d,
        vec![
            (PlayerAction::RotateLeft, BindingKey::KeyA),
            (PlayerAction::RotateRight, BindingKey::KeyD),
            (PlayerAction::Charge, BindingKey::Space),
            (PlayerAction::Restart, BindingKey::KeyR),
            (PlayerAction::Pause, BindingKey::Escape),
            (PlayerAction::QuitToTitle, BindingKey::KeyQ),
        ]
    );
    for i in 0..6 {
        for j in 0..6 {
            if i != j {
                assert_ne!(default_key(ALL[i]), default_key(ALL[j]));
            }
        }
    }
}

#[test]
fn quality_profiles() {
    let low = FoamQuality::Low.profile();
    assert_eq!((low.max_aggregates, low.raymarch_steps), (16, 32));
    assert_eq!(low.microstructure_quality, MicrostructureQuality::Simple);
    let med = FoamQuality::Medium.profile();
    assert_eq!((med.max_aggregates, med.raymarch_steps), (64, 64));
    assert_eq!(med.microstructure_quality, MicrostructureQuality::Normal);
    let high = FoamQuality::High.profile();
    assert_eq!((high.max_aggregates, high.raymarch_steps), (256, 96));
    assert_eq!(high.microstructure_quality, MicrostructureQuality::Detailed);
    assert_eq!(FoamQuality::Low.label(), "Low");
    assert_eq!(FoamQuality::Medium.label(), "Medium");
    assert_eq!(FoamQuality::High.label(), "High");
    assert_eq!(MicrostructureQuality::Simple.as_u32(), 0);
    assert_eq!(MicrostructureQuality::Normal.as_u32(), 1);
    assert_eq!(MicrostructureQuality::Detailed.as_u32(), 2);
    assert_eq!(FoamQuality::default(), FoamQuality::Medium);
    assert_eq!(FoamQualitySetting::default().0, FoamQuality::Medium);
}

#[test]
fn quality_hotkeys() {
    let mut s = FoamQualitySetting::default();
    handle_quality_hotkeys(&mut s, false, false, false);
    assert_eq!(s.0, FoamQuality::Medium);
    handle_quality_hotkeys(&mut s, false, false, true);
    assert_eq!(s.0, FoamQuality::High);
    handle_quality_hotkeys(&mut s, true, false, true);
    assert_eq!(s.0, FoamQuality::Low);
    handle_quality_hotkeys(&mut s, false, true, true);
    assert_eq!(s.0, FoamQuality::Medium);
}

fn collide(a: CollisionLayers, b: CollisionLayers) -> bool {
    fn meet(x: LayerMask, y: LayerMask) -> bool {
        (x.default && y.default)
            || (x.floor && y.floor)
            || (x.bubble && y.bubble)
            || (x.landed_bubble && y.landed_bubble)
            || (x.enemy && y.enemy)
    }
    meet(a.memberships, b.filters) && meet(b.memberships, a.filters)
}

#[test]
fn collision_table() {
    let c = |a, b| collide(body_layers(a), body_layers(b));
    let (floor_b, bubble, landed, enemy) =
        (BodyKind::Floor, BodyKind::Bubble, BodyKind::LandedBubble, BodyKind::Enemy);
    assert!(c(floor_b, bubble) && c(floor_b, landed) && c(floor_b, enemy));
    assert!(!c(bubble, bubble));
    assert!(c(bubble, landed) && c(landed, bubble));
    assert!(c(landed, landed));
    assert!(!c(bubble, enemy) && !c(enemy, bubble) && !c(landed, enemy));
    assert!(!c(enemy, enemy));
    assert_eq!(GameLayer::default(), GameLayer::Default);
    let floor = body_layers(floor_b);
    assert!(floor.memberships.floor && !floor.memberships.bubble);
}

#[test]
fn soap_dispatch_and_slots() {
    assert_eq!(workgroup_count(1024), 16);
    assert_eq!(workgroup_count(1025), 17);
    assert_eq!(workgroup_count(0), 0);
    assert_eq!(workgroup_count(1), 1);
    assert_eq!(workgroup_count(u32::MAX), 67108864);
    assert_eq!(padded_active_slots(&vec![]), vec![0]);
    assert_eq!(padded_active_slots(&vec![5, 9]), vec![5, 9]);
    assert_eq!(drive_targets(&vec![]), vec![NO_SLOT]);
    assert_eq!(drive_targets(&vec![3]), vec![3]);
    assert!(!foam_visible(0));
    assert!(foam_visible(2));
    assert_eq!(
        prepare_soap_view_params(FoamQuality::High, 12),
        SoapViewParams { raymarch_steps: 96, microstructure_quality: 2, active_count: 12 }
    );
}

#[test]
fn soap_extracts_drawn_slots() {
    let mut a = FoamSlotAllocator::default();
    let q = FoamQuality::Medium.profile();
    let b1 = a.allocate_with_cluster(q, 4).unwrap();
    let b2 = a.allocate_with_cluster(q, 5).unwrap();
    assert_eq!(
        extract_foam_slots(&vec![b1, b2]),
        vec![1023, 1022, 1021, 1020, 1016, 1015, 1014, 1013, 1012]
    );
    assert_eq!(extract_foam_slots(&vec![]), Vec::<u32>::new());
}
