use cx_browser::layout::{content_bounds, get_window_size, ui_bounds, Rect, Size, UI_HEIGHT};

#[test]
fn window_size_from_client_rect() {
    let r = Rect { left: 0, top: 0, right: 1264, bottom: 761 };
    assert_eq!(get_window_size(r), Size { cx: 1264, cy: 761 });
    let r = Rect { left: 10, top: 20, right: 110, bottom: 70 };
    assert_eq!(get_window_size(r), Size { cx: 100, cy: 50 });
}

#[test]
fn ui_view_spans_the_top() {
    let s = Size { cx: 1280, cy: 800 };
    assert_eq!(ui_bounds(s), Rect { left: 0, top: 0, right: 1280, bottom: 80 });
    assert_eq!(UI_HEIGHT, 80);
}

#[test]
fn content_view_fills_the_rest() {
    let s = Size { cx: 1280, cy: 800 };
    assert_eq!(content_bounds(s), Rect { left: 0, top: 80, right: 1280, bottom: 800 });
}

#[test]
fn views_tile_the_window() {
    let s = Size { cx: 640, cy: 480 };
    let ui = ui_bounds(s);
    let content = content_bounds(s);
    assert_eq!(ui.bottom, content.top);
    assert_eq!(ui.right, content.right);
    assert_eq!(content.bottom, s.cy);
    assert!(ui.top < ui.bottom && ui.bottom < content.bottom);
}
