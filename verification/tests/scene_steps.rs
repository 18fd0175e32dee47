use raytrace::scene::{bounce_decision, BounceStep, Scene};

#[test]
fn scene_starts_empty() {
    let scene: Scene<(i64, i64), u8> = Scene::new();
    assert_eq!(scene.len(), 0);
}

#[test]
fn scene_add_keeps_pairs_aligned() {
    let mut scene: Scene<(i64, i64), u8> = Scene::new();
    scene.add((10, -1), 7);
    scene.add((20, -2), 8);
    scene.add((30, -3), 9);
    assert_eq!(scene.len(), 3);
    assert_eq!(*scene.shape(0), (10, -1));
    assert_eq!(*scene.material(0), 7);
    assert_eq!(*scene.shape(1), (20, -2));
    assert_eq!(*scene.material(1), 8);
    assert_eq!(*scene.shape(2), (30, -3));
    assert_eq!(*scene.material(2), 9);
}

#[test]
fn bounce_decision_spent_budget_absorbs() {
    // Depth zero wins even over a hit.
    assert!(bounce_decision(0, Some(4)) == BounceStep::Absorbed);
    assert!(bounce_decision(0, None) == BounceStep::Absorbed);
}

#[test]
fn bounce_decision_miss_yields_sky() {
    assert!(bounce_decision(1, None) == BounceStep::Sky);
    assert!(bounce_decision(50, None) == BounceStep::Sky);
}

#[test]
fn bounce_decision_hit_scatters_with_owner() {
    assert!(bounce_decision(1, Some(0)) == BounceStep::Scatter(0));
    assert!(bounce_decision(50, Some(17)) == BounceStep::Scatter(17));
}
