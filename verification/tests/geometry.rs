use glwindow::constants::CW_USEDEFAULT;
use glwindow::geometry::{
    display_change, dummy_placement, initial_rect, measurable, movable, real_placement,
    switch_to_fullscreen, window_creation_style, window_styles,
};
use glwindow::protocol::{DisplaySettings, Placement};
use glwindow::types::{Failure, MonitorID, Rect};

#[test]
fn rect_of_the_size_that_is_asked_for() {
    assert_eq!(
        initial_rect(Some((640, 480))),
        Rect { left: 0, top: 0, right: 640, bottom: 480 }
    );
}

#[test]
fn rect_of_the_default_size() {
    assert_eq!(initial_rect(None), Rect { left: 0, top: 0, right: 1024, bottom: 768 });
}

#[test]
fn rect_of_a_size_beyond_the_coordinates() {
    assert_eq!(
        initial_rect(Some((0xFFFF_FFFF, 0x8000_0000))),
        Rect { left: 0, top: 0, right: -1, bottom: i32::MIN }
    );
}

#[test]
fn fullscreen_moves_the_rect_and_keeps_its_size() {
    let mut rect = initial_rect(Some((1920, 1080)));
    let monitor = MonitorID { position: (1280, 24), adapter_name: vec![65, 0] };
    let settings = switch_to_fullscreen(&mut rect, &monitor);
    assert_eq!(rect, Rect { left: 1280, top: 24, right: 3200, bottom: 1104 });
    assert_eq!(
        settings,
        DisplaySettings {
            pels_width: 1920,
            pels_height: 1080,
            bits_per_pel: 32,
            fields: 0x001C_0000,
        }
    );
}

#[test]
fn fullscreen_on_a_monitor_left_of_the_origin() {
    let mut rect = initial_rect(Some((800, 600)));
    let monitor = MonitorID { position: ((-800i32) as u32, 0), adapter_name: vec![0] };
    switch_to_fullscreen(&mut rect, &monitor);
    assert_eq!(rect, Rect { left: -800, top: 0, right: 0, bottom: 600 });
}

#[test]
fn fullscreen_window_lies_where_the_monitor_does() {
    let mut rect = initial_rect(None);
    let monitor = MonitorID { position: (50, 60), adapter_name: vec![0] };
    switch_to_fullscreen(&mut rect, &monitor);
    assert_eq!(
        real_placement(rect, true, false),
        Placement { x: 50, y: 60, width: 1024, height: 768 }
    );
}

#[test]
fn moving_out_of_the_coordinates_is_noticed() {
    let rect = Rect { left: 0, top: 0, right: 10, bottom: 10 };
    assert!(movable(rect, (0x7FFF_FFF5, 0)));
    assert!(!movable(rect, (0x7FFF_FFF6, 0)));
    assert!(!movable(rect, (0, 0x7FFF_FFFF)));
}

#[test]
fn sizes_out_of_the_coordinates_are_noticed() {
    assert!(measurable(Rect { left: -1, top: 0, right: i32::MAX - 1, bottom: 0 }));
    assert!(!measurable(Rect { left: -1, top: 0, right: i32::MAX, bottom: 0 }));
    assert!(!measurable(Rect { left: 0, top: 1, right: 0, bottom: i32::MIN }));
}

#[test]
fn display_change_succeeds_on_zero_alone() {
    assert_eq!(display_change(0), Ok(()));
    assert_eq!(display_change(-2), Err(Failure::ChangeDisplaySettings(-2)));
    assert_eq!(display_change(1), Err(Failure::ChangeDisplaySettings(1)));
}

#[test]
fn styles() {
    assert_eq!(window_styles(true), (0x0004_0000, 0x8600_0000));
    assert_eq!(window_styles(false), (0x0004_0100, 0x06CF_0000));
}

#[test]
fn creation_style_tells_visibility() {
    assert_eq!(window_creation_style(true, true), 0x9600_0000);
    assert_eq!(window_creation_style(true, false), 0x8600_0000);
    assert_eq!(window_creation_style(false, true), 0x16CF_0000);
    assert_eq!(window_creation_style(false, false), 0x06CF_0000);
}

#[test]
fn placements() {
    let rect = Rect { left: -8, top: -31, right: 648, bottom: 488 };
    assert_eq!(
        dummy_placement(rect),
        Placement { x: CW_USEDEFAULT, y: CW_USEDEFAULT, width: 656, height: 519 }
    );
    assert_eq!(
        real_placement(rect, false, true),
        Placement { x: CW_USEDEFAULT, y: CW_USEDEFAULT, width: 656, height: 519 }
    );
    assert_eq!(
        real_placement(rect, false, false),
        Placement {
            x: CW_USEDEFAULT,
            y: CW_USEDEFAULT,
            width: CW_USEDEFAULT,
            height: CW_USEDEFAULT,
        }
    );
    assert_eq!(
        real_placement(rect, true, true),
        Placement { x: -8, y: -31, width: 656, height: 519 }
    );
    assert_eq!(CW_USEDEFAULT, i32::MIN);
}
