//! Where the rows of a menu go on the screen, and in which colours.
//!
//! Rows are [`LINE_H`] pixels apart. The selected row stands out: its text is
//! drawn in the background colour on the foreground colour, over a bar that
//! spans the screen but for a one-pixel margin on either side.

use crate::color::blue;
use crate::color::rgb565_bits;
use crate::color::white;
use crate::color::BLUE_BITS;
use crate::color::WHITE_BITS;
use crate::framebuffer::SCREEN_W;
use crate::geometry::Point;
use crate::geometry::Rect;
use crate::geometry::Size;
use embedded_graphics::pixelcolor::Rgb565;
use vstd::prelude::*;

verus! {

/// Height of a row of text, in pixels.
pub const LINE_H: u16 = 14;

/// Left edge of the bar behind the selected row.
pub const MARGIN: i32 = 1;

/// Number of rows whose coordinates can be written down; a row below this
/// many others lies too far down for an `i32`.
pub const ROW_LIMIT: usize = 153_391_689;

/// The `y` of the baseline of the text in row `row`, rows counted from zero.
pub open spec fn baseline(row: int) -> int {
    (row + 1) * LINE_H - 3
}

/// The `y` of the top edge of the bar behind row `row`.
pub open spec fn bar_top(row: int) -> int {
    baseline(row) - LINE_H + 4
}

/// Whether `bar` is the bar behind row `row`: from the margin to the margin,
/// one line high.
pub open spec fn is_bar_of(bar: Rect, row: int) -> bool {
    &&& bar.top_left.x == MARGIN
    &&& bar.top_left.y == bar_top(row)
    &&& bar.size.width == SCREEN_W - 2 * MARGIN
    &&& bar.size.height == LINE_H
}

/// How one row of the menu is drawn.
#[derive(Clone, Copy, Debug)]
pub struct Row {
    /// Where the text starts, on its baseline.
    pub text_at: Point,
    /// Colour of the letters.
    pub text_color: Rgb565,
    /// Colour behind the letters, if any is painted.
    pub text_background: Option<Rgb565>,
    /// The bar to fill in the foreground colour before the text is drawn.
    pub highlight: Option<Rect>,
}

/// The colour of the empty screen: white.
pub fn background() -> (color: Rgb565)
    ensures
        rgb565_bits(color) == WHITE_BITS,
{
    white()
}

/// The colour of text and of the selection bar: blue.
pub fn foreground() -> (color: Rgb565)
    ensures
        rgb565_bits(color) == BLUE_BITS,
{
    blue()
}

/// How row `index` is drawn while row `selected_index` is selected.
pub fn row(index: usize, selected_index: usize) -> (row: Row)
    requires
        index < ROW_LIMIT,
    ensures
        row.text_at.x == MARGIN + 1,
        row.text_at.y == baseline(index as int),
        index == selected_index ==> {
            &&& rgb565_bits(row.text_color) == WHITE_BITS
            &&& row.text_background matches Some(behind) && rgb565_bits(behind) == BLUE_BITS
            &&& row.highlight matches Some(bar) && is_bar_of(bar, index as int)
        },
        index != selected_index ==> {
            &&& rgb565_bits(row.text_color) == BLUE_BITS
            &&& row.text_background is None
            &&& row.highlight is None
        },
{
    let x: i32 = MARGIN;
    assert(0 < (index + 1) * LINE_H <= i32::MAX) by (nonlinear_arith)
        requires
            0 <= index < ROW_LIMIT,
            LINE_H == 14,
    ;
    let y: i32 = (index as i32 + 1) * (LINE_H as i32) - 3;
    let text_at = Point { x: x + 1, y };
    if index == selected_index {
        Row {
            text_at,
            text_color: background(),
            text_background: Some(foreground()),
            highlight: Some(
                Rect {
                    top_left: Point { x, y: y - LINE_H as i32 + 4 },
                    size: Size { width: SCREEN_W as u32 - 2, height: LINE_H as u32 },
                },
            ),
        }
    } else {
        Row { text_at, text_color: foreground(), text_background: None, highlight: None }
    }
}

/// Rows keep their pitch: each lies one line height below the one before,
/// so the bars of neighbouring rows touch and share no pixel.
pub proof fn rows_keep_pitch(row: int, upper: Rect, lower: Rect)
    requires
        is_bar_of(upper, row),
        is_bar_of(lower, row + 1),
    ensures
        baseline(row + 1) == baseline(row) + LINE_H,
        lower.top_left.y == upper.top_left.y + upper.size.height,
        forall|x: int, y: int| !(upper.covers(x, y) && lower.covers(x, y)),
{
}

} // verus!
