use pngtuber::device::{choose_input_device, find_name, DeviceSource};
use pngtuber::layout::{avatar_placement, Placement};
use pngtuber::overlay::{is_over_button, MouseButton, Overlay};

fn names(list: &[&str]) -> Vec<String> {
    list.iter().map(|s| String::from(*s)).collect()
}

#[test]
fn empty_saved_name_takes_default_device() {
    let listed = names(&["Mic A", "Mic B"]);
    let default = String::from("Mic B");
    let c = choose_input_device(&listed, &String::new(), Some(&default));
    assert_eq!(c.source, DeviceSource::SystemDefault);
    assert_eq!(c.name, "Mic B");
    assert_eq!(c.list_index, Some(1));
}

#[test]
fn empty_saved_name_without_default_has_no_device() {
    let listed = names(&["Mic A"]);
    let c = choose_input_device(&listed, &String::new(), None);
    assert_eq!(c.source, DeviceSource::Unavailable);
    assert_eq!(c.name, "");
    assert_eq!(c.list_index, None);
}

#[test]
fn saved_name_picks_first_listed_match() {
    let listed = names(&["Mic A", "Mic B", "Mic B"]);
    let default = String::from("Mic A");
    let c = choose_input_device(&listed, &String::from("Mic B"), Some(&default));
    assert_eq!(c.source, DeviceSource::Listed(1));
    assert_eq!(c.name, "Mic B");
    assert_eq!(c.list_index, Some(1));
}

#[test]
fn missing_saved_device_falls_back_to_default_and_keeps_name() {
    let listed = names(&["Mic A"]);
    let default = String::from("Mic A");
    let c = choose_input_device(&listed, &String::from("Gone"), Some(&default));
    assert_eq!(c.source, DeviceSource::SystemDefault);
    assert_eq!(c.name, "Gone");
    assert_eq!(c.list_index, None);
    let c = choose_input_device(&listed, &String::from("Gone"), None);
    assert_eq!(c.source, DeviceSource::Unavailable);
}

#[test]
fn default_device_not_listed_has_no_index() {
    let listed = names(&["Mic A"]);
    let default = String::from("Other");
    let c = choose_input_device(&listed, &String::new(), Some(&default));
    assert_eq!(c.source, DeviceSource::SystemDefault);
    assert_eq!(c.name, "Other");
    assert_eq!(c.list_index, None);
}

#[test]
fn find_name_exact_match_only() {
    let listed = names(&["ab", "abc", "abc"]);
    assert_eq!(find_name(&listed, &String::from("abc")), Some(1));
    assert_eq!(find_name(&listed, &String::from("a")), None);
}

#[test]
fn settings_button_hit_area() {
    assert!(is_over_button(512, 500, 10));
    assert!(is_over_button(512, 481, 1));
    assert!(!is_over_button(512, 480, 10));
    assert!(!is_over_button(512, 512, 10));
    assert!(!is_over_button(512, 500, 0));
    assert!(!is_over_button(512, 500, 32));
    assert!(!is_over_button(i32::MIN, i32::MIN, 5));
}

#[test]
fn overlay_starts_open_without_expressions() {
    let o = Overlay::new(true);
    assert!(o.settings_open && o.bordered && o.show_settings_button && o.needs_redraw);
    let o = Overlay::new(false);
    assert!(!o.settings_open && !o.bordered && !o.show_settings_button && o.needs_redraw);
}

#[test]
fn overlay_clicks() {
    let mut o = Overlay::new(false);
    assert!(!o.on_mouse_down(MouseButton::Left, 100, 100, 512));
    assert!(!o.settings_open);
    assert!(!o.on_mouse_down(MouseButton::Left, 500, 10, 512));
    assert!(o.settings_open);
    assert!(o.on_mouse_down(MouseButton::Right, 0, 0, 512));
    assert!(o.bordered && o.show_settings_button);
    assert!(o.on_mouse_down(MouseButton::Right, 0, 0, 512));
    assert!(!o.bordered && !o.show_settings_button);
    let before = o;
    assert!(!o.on_mouse_down(MouseButton::Other, 500, 10, 512));
    assert_eq!(o, before);
}

#[test]
fn overlay_hover_and_frames() {
    let mut o = Overlay::new(false);
    assert!(o.begin_frame());
    assert!(!o.begin_frame());
    o.on_mouse_motion(500, 10, 512);
    assert!(o.hovering);
    assert!(o.begin_frame());
    o.on_mouse_motion(500, 10, 512);
    assert!(!o.begin_frame());
    o.on_mouse_motion(10, 200, 512);
    assert!(!o.hovering);
    assert!(o.begin_frame());
    o.on_tick(false);
    assert!(!o.begin_frame());
    o.on_tick(true);
    assert!(o.begin_frame());
    o.on_background();
    assert!(o.begin_frame());
}

#[test]
fn overlay_redraws_every_frame_while_settings_open() {
    let mut o = Overlay::new(true);
    assert!(o.begin_frame());
    assert!(o.begin_frame());
    o.on_mouse_motion(500, 10, 512);
    assert!(!o.hovering);
    o.close_settings();
    assert!(o.begin_frame());
    assert!(!o.begin_frame());
}

#[test]
fn avatar_placement_scales_and_centres() {
    let p = avatar_placement(512, 512, 256, 256, 32, 0);
    assert_eq!(p, Placement { x: 16, y: 32, width: 480, height: 480 });
    let p = avatar_placement(512, 512, 256, 256, 32, 671_328);
    assert_eq!(p.y, 32 + 67);
    let p = avatar_placement(512, 512, 256, 256, 32, 5_000);
    assert_eq!(p.y, 33);
    let p = avatar_placement(512, 512, 256, 256, 32, 4_999);
    assert_eq!(p.y, 32);
}

#[test]
fn avatar_placement_edge_cases() {
    let p = avatar_placement(100, 50, 300, 100, 0, 0);
    assert_eq!(p, Placement { x: -25, y: 0, width: 150, height: 50 });
    let p = avatar_placement(100, 50, 300, 100, 80, 0);
    assert_eq!(p, Placement { x: 50, y: 50, width: 0, height: 0 });
    let p = avatar_placement(100, 50, 300, 0, 0, 0);
    assert_eq!(p.width, 0);
    let p = avatar_placement(10, 10, 3, 7, 0, u64::MAX);
    assert_eq!(p.width, 4);
    assert_eq!(p.y, ((u64::MAX as u128 + 5_000) / 10_000) as i64);
}
