use embedded_graphics::pixelcolor::IntoStorage;
use embedded_graphics::pixelcolor::Rgb565;
use embedded_graphics::pixelcolor::RgbColor;
use nomnom::layout::background;
use nomnom::layout::foreground;
use nomnom::layout::row;
use nomnom::layout::LINE_H;
use nomnom::layout::MARGIN;
use nomnom::layout::ROW_LIMIT;
use nomnom::geometry::Point;
use nomnom::geometry::Rect;
use nomnom::geometry::Size;

#[test]
fn colours_are_white_and_blue() {
    assert_eq!(background(), Rgb565::WHITE);
    assert_eq!(foreground(), Rgb565::BLUE);
    assert_eq!(background().into_storage(), 0xFFFF);
    assert_eq!(foreground().into_storage(), 0x001F);
}

#[test]
fn layout_constants_have_their_values() {
    assert_eq!(LINE_H, 14);
    assert_eq!(MARGIN, 1);
}

#[test]
fn first_row_selected() {
    let r = row(0, 0);
    assert_eq!(r.text_at, Point { x: 2, y: 11 });
    assert_eq!(r.text_color, Rgb565::WHITE);
    assert_eq!(r.text_background, Some(Rgb565::BLUE));
    assert_eq!(
        r.highlight,
        Some(Rect { top_left: Point { x: 1, y: 1 }, size: Size { width: 158, height: 14 } })
    );
}

#[test]
fn plain_row_has_no_bar() {
    let r = row(1, 0);
    assert_eq!(r.text_at, Point { x: 2, y: 25 });
    assert_eq!(r.text_color, Rgb565::BLUE);
    assert_eq!(r.text_background, None);
    assert_eq!(r.highlight, None);
}

#[test]
fn rows_are_one_line_apart() {
    for index in 0..20usize {
        let here = row(index, index);
        let below = row(index + 1, index + 1);
        assert_eq!(here.text_at.y, (index as i32 + 1) * 14 - 3);
        assert_eq!(below.text_at.y - here.text_at.y, 14);
        let bar = here.highlight.unwrap();
        let next = below.highlight.unwrap();
        assert_eq!(bar.top_left.y, index as i32 * 14 + 1);
        assert_eq!(next.top_left.y, bar.top_left.y + bar.size.height as i32);
    }
}

#[test]
fn selected_row_of_several() {
    let r = row(3, 3);
    assert_eq!(r.text_at, Point { x: 2, y: 53 });
    assert_eq!(
        r.highlight,
        Some(Rect { top_left: Point { x: 1, y: 43 }, size: Size { width: 158, height: 14 } })
    );
    assert_eq!(row(3, 2).highlight, None);
    assert_eq!(row(3, 4).highlight, None);
}

#[test]
fn last_row_that_fits() {
    assert_eq!(ROW_LIMIT, 153_391_689);
    let r = row(ROW_LIMIT - 1, 0);
    assert_eq!(r.text_at, Point { x: 2, y: 2_147_483_643 });
    let r = row(ROW_LIMIT - 1, ROW_LIMIT - 1);
    assert_eq!(r.highlight.unwrap().top_left, Point { x: 1, y: 2_147_483_633 });
}
