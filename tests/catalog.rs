use pngtuber::catalog::{position_of_id, Catalog};
use pngtuber::expression::{Expression, ExpressionSettings};

fn settings(threshold: i64) -> ExpressionSettings {
    ExpressionSettings {
        threshold,
        attack_ms: 10,
        release_ms: 20,
        should_bounce: true,
        max_velocity: 800,
        total_frames: 30,
        height_reduction: 16,
        asset_ref: String::from("face.png"),
    }
}

#[test]
fn added_expressions_get_fresh_ids() {
    let mut c = Catalog::new();
    assert!(c.is_empty());
    assert_eq!(c.add(settings(1)), Some(0));
    assert_eq!(c.add_default(), Some(1));
    assert_eq!(c.add(settings(3)), Some(2));
    assert_eq!(c.len(), 3);
    let ids: Vec<u64> = c.entries().iter().map(|e| e.id).collect();
    assert_eq!(ids, vec![0, 1, 2]);
}

#[test]
fn removal_keeps_other_ids_and_never_reuses_one() {
    let mut c = Catalog::new();
    c.add(settings(1));
    c.add(settings(2));
    c.add(settings(3));
    let removed = c.remove(1);
    assert_eq!(removed.id, 1);
    assert_eq!(removed.threshold, 2);
    let ids: Vec<u64> = c.entries().iter().map(|e| e.id).collect();
    assert_eq!(ids, vec![0, 2]);
    assert_eq!(c.add_default(), Some(3));
}

#[test]
fn update_keeps_id_and_place() {
    let mut c = Catalog::new();
    c.add(settings(1));
    c.add(settings(2));
    c.update(0, settings(-500));
    assert_eq!(c.entries()[0].id, 0);
    assert_eq!(c.entries()[0].threshold, -500);
    assert_eq!(c.entries()[1].threshold, 2);
}

#[test]
fn default_expression_values() {
    let mut c = Catalog::new();
    c.add_default();
    let e = &c.entries()[0];
    assert_eq!(e.threshold, 0);
    assert_eq!(e.attack_ms, 0);
    assert_eq!(e.release_ms, 0);
    assert!(!e.should_bounce);
    assert_eq!(e.max_velocity, 1200);
    assert_eq!(e.total_frames, 0);
    assert_eq!(e.height_reduction, 32);
    assert_eq!(e.asset_ref, "");
    assert!(!e.bounces());
}

#[test]
fn settings_are_kept_as_given_when_valid() {
    let e = Expression::from_settings(9, settings(-1200));
    assert_eq!(e.id, 9);
    assert_eq!(e.threshold, -1200);
    assert_eq!(e.attack_ms, 10);
    assert_eq!(e.release_ms, 20);
    assert!(e.should_bounce);
    assert_eq!(e.max_velocity, 800);
    assert_eq!(e.total_frames, 30);
    assert_eq!(e.height_reduction, 16);
    assert_eq!(e.asset_ref, "face.png");
    assert!(e.bounces());
}

#[test]
fn malformed_settings_are_normalised() {
    let e = Expression::from_settings(
        1,
        ExpressionSettings {
            threshold: -7,
            attack_ms: -5,
            release_ms: -1,
            should_bounce: true,
            max_velocity: -3,
            total_frames: -2,
            height_reduction: -40,
            asset_ref: String::new(),
        },
    );
    assert_eq!(e.threshold, -7);
    assert_eq!(e.attack_ms, 0);
    assert_eq!(e.release_ms, 0);
    assert!(!e.should_bounce);
    assert_eq!(e.max_velocity, 0);
    assert_eq!(e.total_frames, 0);
    assert_eq!(e.height_reduction, 0);
}

#[test]
fn bounce_without_frames_is_switched_off() {
    let mut s = settings(0);
    s.total_frames = 0;
    let e = Expression::from_settings(0, s);
    assert!(!e.should_bounce);
    assert!(!e.bounces());
}

#[test]
fn oversized_counts_are_clamped() {
    let mut s = settings(0);
    s.total_frames = i64::MAX;
    s.max_velocity = 1 << 40;
    s.height_reduction = i64::MAX;
    let e = Expression::from_settings(0, s);
    assert_eq!(e.total_frames, u32::MAX);
    assert_eq!(e.max_velocity, u32::MAX);
    assert_eq!(e.height_reduction, u32::MAX);
}

#[test]
fn position_of_id_finds_first_match() {
    let mut c = Catalog::new();
    c.add(settings(1));
    c.add(settings(2));
    c.add(settings(3));
    assert_eq!(position_of_id(c.entries(), 2), Some(2));
    assert_eq!(position_of_id(c.entries(), 0), Some(0));
    assert_eq!(position_of_id(c.entries(), 5), None);
    c.remove(0);
    assert_eq!(position_of_id(c.entries(), 2), Some(1));
}
