use word_highlight_assistant::placement::{
    monitor_rect, place_toolbar, select_screen, toolbar_position, Monitor, ScreenRect,
};

fn screen(x: i32, y: i32, w: i32, h: i32) -> ScreenRect {
    ScreenRect { x, y, width: w, height: h }
}

#[test]
fn beside_cursor_when_room() {
    assert_eq!(toolbar_position(screen(0, 0, 1920, 1080), 100, 200), (110, 210));
}

#[test]
fn flush_right_and_bottom_when_no_room() {
    assert_eq!(toolbar_position(screen(0, 0, 1920, 1080), 1700, 1050), (1570, 1040));
}

#[test]
fn exact_room_boundary() {
    // 360 pixels to the right edge is just enough room
    assert_eq!(toolbar_position(screen(0, 0, 1920, 1080), 1560, 1030), (1570, 1040));
    assert_eq!(toolbar_position(screen(0, 0, 1920, 1080), 1561, 1031), (1570, 1040));
}

#[test]
fn second_monitor_selected() {
    let monitors = [
        Monitor { x: 0, y: 0, width: 1920, height: 1080 },
        Monitor { x: 1920, y: 0, width: 2560, height: 1440 },
    ];
    assert_eq!(select_screen(&monitors, None, 2000, 500), screen(1920, 0, 2560, 1440));
    assert_eq!(place_toolbar(&monitors, None, 4400, 1420), (4130, 1400));
}

#[test]
fn first_covering_monitor_wins() {
    let monitors = [
        Monitor { x: 0, y: 0, width: 100, height: 100 },
        Monitor { x: 0, y: 0, width: 200, height: 200 },
    ];
    assert_eq!(select_screen(&monitors, None, 50, 50), screen(0, 0, 100, 100));
    assert_eq!(select_screen(&monitors, None, 150, 50), screen(0, 0, 200, 200));
}

#[test]
fn right_and_bottom_edges_excluded() {
    let monitors = [Monitor { x: 0, y: 0, width: 100, height: 100 }];
    let primary = Monitor { x: -50, y: -50, width: 800, height: 600 };
    assert_eq!(select_screen(&monitors, Some(primary), 100, 10), screen(-50, -50, 800, 600));
}

#[test]
fn primary_then_default() {
    let primary = Monitor { x: 10, y: 20, width: 1280, height: 720 };
    assert_eq!(select_screen(&[], Some(primary), -5, -5), screen(10, 20, 1280, 720));
    assert_eq!(select_screen(&[], None, -5, -5), screen(0, 0, 1920, 1080));
    assert_eq!(place_toolbar(&[], None, 1900, 5), (1570, 15));
}

#[test]
fn negative_coordinates() {
    let monitors = [Monitor { x: -1920, y: 0, width: 1920, height: 1080 }];
    assert_eq!(place_toolbar(&monitors, None, -100, 500), (-350, 510));
}

#[test]
fn monitor_rect_converts_size() {
    let m = Monitor { x: 3, y: 4, width: 5, height: 6 };
    assert_eq!(monitor_rect(&m), screen(3, 4, 5, 6));
    let huge = Monitor { x: 0, y: 0, width: u32::MAX, height: 1 };
    assert_eq!(monitor_rect(&huge).width, -1);
}

#[test]
fn can_place_ordinary_inputs() {
    let monitors = [Monitor { x: 0, y: 0, width: 1920, height: 1080 }];
    assert!(word_highlight_assistant::placement::can_place_toolbar(&monitors, None, 10, 10));
}

#[test]
fn cannot_place_when_edge_overflows() {
    let monitors = [Monitor { x: i32::MAX - 5, y: 0, width: 100, height: 100 }];
    assert!(!word_highlight_assistant::placement::can_place_toolbar(&monitors, None, i32::MAX, 10));
    // a monitor left of the cursor is never summed
    let left = [Monitor { x: i32::MAX - 5, y: 0, width: 100, height: 100 }];
    assert!(word_highlight_assistant::placement::can_place_toolbar(&left, None, 0, 10));
}

#[test]
fn cannot_place_when_space_overflows() {
    let s = [Monitor { x: i32::MAX - 100, y: 0, width: 100, height: 100 }];
    assert!(!word_highlight_assistant::placement::can_place_toolbar(&[], Some(s[0]), i32::MIN, 10));
}
