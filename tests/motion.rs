use pngtuber::motion::interpolate_velocity;

#[test]
fn velocity_peaks_at_half_max_velocity_squared() {
    assert_eq!(interpolate_velocity(1200, 50, 100), 720_000);
    assert_eq!(interpolate_velocity(10, 1, 2), 50);
}

#[test]
fn velocity_is_zero_at_both_ends() {
    assert_eq!(interpolate_velocity(1200, 0, 100), 0);
    assert_eq!(interpolate_velocity(1200, 100, 100), 0);
    assert_eq!(interpolate_velocity(u32::MAX, 0, u32::MAX), 0);
    assert_eq!(interpolate_velocity(u32::MAX, u32::MAX, u32::MAX), 0);
}

#[test]
fn velocity_without_frames_is_zero() {
    assert_eq!(interpolate_velocity(1200, 0, 0), 0);
}

#[test]
fn velocity_exact_values() {
    assert_eq!(interpolate_velocity(1200, 63, 100), 671_328);
    assert_eq!(interpolate_velocity(10, 1, 5), 32);
    assert_eq!(interpolate_velocity(10, 2, 5), 48);
    assert_eq!(interpolate_velocity(10, 3, 5), 48);
    assert_eq!(interpolate_velocity(10, 4, 5), 32);
    assert_eq!(interpolate_velocity(0, 3, 5), 0);
}

#[test]
fn velocity_is_highest_at_middle_frame() {
    for max_frames in 1u32..40 {
        let peak = interpolate_velocity(777, max_frames / 2, max_frames);
        for frame in 0..=max_frames {
            assert!(interpolate_velocity(777, frame, max_frames) <= peak);
        }
    }
}

#[test]
fn velocity_at_largest_inputs_fits() {
    let v = interpolate_velocity(u32::MAX, u32::MAX / 2, u32::MAX);
    let mv = u32::MAX as u128;
    assert!(v as u128 <= mv * mv / 2);
    assert!(v > 0);
}
