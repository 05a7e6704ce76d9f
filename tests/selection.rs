use pngtuber::expression::Expression;
use pngtuber::selector::select_expression;

fn with_threshold(id: u64, threshold: i64) -> Expression {
    Expression {
        id,
        threshold,
        attack_ms: 0,
        release_ms: 0,
        should_bounce: false,
        max_velocity: 0,
        total_frames: 0,
        height_reduction: 0,
        asset_ref: String::new(),
    }
}

fn catalog(thresholds: &[i64]) -> Vec<Expression> {
    let mut v = Vec::new();
    for (i, t) in thresholds.iter().enumerate() {
        v.push(with_threshold(i as u64, *t));
    }
    v
}

#[test]
fn selects_highest_reached_threshold() {
    let c = catalog(&[10, 30, 20, 5, 40]);
    assert_eq!(select_expression(&c, 35), Some(1));
    assert_eq!(select_expression(&c, 25), Some(2));
    assert_eq!(select_expression(&c, 40), Some(4));
    assert_eq!(select_expression(&c, 1_000), Some(4));
    assert_eq!(select_expression(&c, 9), Some(3));
}

#[test]
fn selected_threshold_is_reached_and_maximal() {
    let c = catalog(&[-300, 150, -20, 75, 150, 0, 400]);
    for level in -400i64..500 {
        match select_expression(&c, level) {
            Some(i) => {
                assert!(c[i].threshold <= level);
                for e in &c {
                    assert!(e.threshold > level || e.threshold <= c[i].threshold);
                }
            }
            None => {
                for e in &c {
                    assert!(e.threshold > level);
                }
            }
        }
    }
}

#[test]
fn tie_goes_to_later_expression() {
    let c = catalog(&[30, 10, 30, 20]);
    assert_eq!(select_expression(&c, 30), Some(2));
    let c = catalog(&[5, 5, 5]);
    assert_eq!(select_expression(&c, 5), Some(2));
}

#[test]
fn level_below_every_threshold_selects_nothing() {
    let c = catalog(&[0, 10]);
    assert_eq!(select_expression(&c, -1), None);
    assert_eq!(select_expression(&c, i64::MIN), None);
    assert_eq!(select_expression(&Vec::new(), 100), None);
}

#[test]
fn threshold_equal_to_level_qualifies() {
    let c = catalog(&[-2500]);
    assert_eq!(select_expression(&c, -2500), Some(0));
    assert_eq!(select_expression(&c, -2501), None);
}
