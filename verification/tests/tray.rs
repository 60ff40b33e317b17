//! Where the tray menu opens.
use installer_lib::tray::{menu_position, MonitorArea};

const SCREEN: MonitorArea = MonitorArea { x: 0, y: 0, width: 1920, height: 1080 };

#[test]
fn menu_card_corner_meets_the_cursor() {
    // window 200 x 300 with a 16 px margin: the card's lower left corner is at the cursor
    assert_eq!(menu_position(1000, 800, 16, 200, 300, Some(SCREEN)), (984, 516));
}

#[test]
fn menu_is_pushed_back_inside_the_monitor() {
    // right edge: x stops at 1920 - 200 + 16; top edge: y stops at -16
    assert_eq!(menu_position(1900, 100, 16, 200, 300, Some(SCREEN)), (1736, -16));
    // left and bottom edges
    assert_eq!(menu_position(0, 1080, 16, 200, 300, Some(SCREEN)), (-16, 796));
}

#[test]
fn menu_on_a_second_monitor_uses_its_area() {
    let right = MonitorArea { x: 1920, y: 0, width: 1280, height: 1024 };
    assert_eq!(menu_position(1925, 500, 0, 100, 100, Some(right)), (1925, 400));
    assert_eq!(menu_position(3190, 500, 0, 100, 100, Some(right)), (3100, 400));
}

#[test]
fn menu_without_a_monitor_is_not_clamped() {
    assert_eq!(menu_position(5, 5, 16, 200, 300, None), (-11, -279));
}
