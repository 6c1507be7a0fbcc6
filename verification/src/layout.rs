use vstd::prelude::*;

verus! {

/// Height in pixels of the browser shell (toolbar and tab bar) at the top of the window.
pub const UI_HEIGHT: i32 = 80;

/// A rectangle in client coordinates: `left`/`top` inclusive, `right`/`bottom` exclusive.
#[derive(Clone, Copy, Debug, PartialEq, Eq, Structural)]
pub struct Rect {
    pub left: i32,
    pub top: i32,
    pub right: i32,
    pub bottom: i32,
}

/// Width and height of the window's client area.
#[derive(Clone, Copy, Debug, PartialEq, Eq, Structural)]
pub struct Size {
    pub cx: i32,
    pub cy: i32,
}

/// Whether the extent of `rect` can be computed without overflowing `i32`.
pub open spec fn rect_extent_fits(rect: Rect) -> bool {
    &&& i32::MIN <= rect.right - rect.left <= i32::MAX
    &&& i32::MIN <= rect.bottom - rect.top <= i32::MAX
}

/// Size of the client area described by `rect`.
pub fn get_window_size(rect: Rect) -> (size: Size)
    requires
        rect_extent_fits(rect),
    ensures
        size.cx == rect.right - rect.left,
        size.cy == rect.bottom - rect.top,
{
    Size { cx: rect.right - rect.left, cy: rect.bottom - rect.top }
}


/// Where the shell view sits: the full width of the window, from its top down
/// to `UI_HEIGHT`.
pub open spec fn ui_bounds_spec(size: Size) -> Rect {
    Rect { left: 0, top: 0, right: size.cx, bottom: UI_HEIGHT }
}

/// Where the page view sits: the full width of the window, from `UI_HEIGHT`
/// down to the bottom of the client area.
pub open spec fn content_bounds_spec(size: Size) -> Rect {
    Rect { left: 0, top: UI_HEIGHT, right: size.cx, bottom: size.cy }
}

/// Bounds of the shell view in a client area of `size`.
pub fn ui_bounds(size: Size) -> (r: Rect)
    ensures
        r == ui_bounds_spec(size),
{
    Rect { left: 0, top: 0, right: size.cx, bottom: UI_HEIGHT }
}

/// Bounds of the page view in a client area of `size`.
pub fn content_bounds(size: Size) -> (r: Rect)
    ensures
        r == content_bounds_spec(size),
{
    Rect { left: 0, top: UI_HEIGHT, right: size.cx, bottom: size.cy }
}

/// The shell and the page view tile the client area: both span its whole width,
/// the shell starts at the top, the page starts where the shell ends and ends at
/// the bottom, and, when the window is taller than the shell, neither is empty
/// nor do they overlap.
pub proof fn lemma_views_tile_window(size: Size)
    ensures
        ({
            let ui = ui_bounds_spec(size);
            let content = content_bounds_spec(size);
            &&& ui.left == 0 && content.left == 0
            &&& ui.right == size.cx && content.right == size.cx
            &&& ui.top == 0
            &&& ui.bottom == content.top
            &&& content.bottom == size.cy
            &&& size.cy > UI_HEIGHT ==> ui.top < ui.bottom && ui.bottom < content.bottom
        }),
{
}

} // verus!
