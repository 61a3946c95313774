//! The off-screen canvas: one colour per pixel, row after row.

use crate::color::default_color;
use crate::color::rgb565_bits;
use crate::color::storage;
use crate::color::DEFAULT_BITS;
use crate::geometry::Point;
use crate::geometry::Rect;
use crate::geometry::Size;
use embedded_graphics::pixelcolor::Rgb565;
use vstd::prelude::*;

verus! {

/// Width of the screen in pixels.
pub const SCREEN_W: usize = 160;

/// Height of the screen in pixels.
pub const SCREEN_H: usize = 128;

/// Width of the screen as a signed coordinate.
pub const ISCREEN_W: i32 = 160;

/// Height of the screen as a signed coordinate.
pub const ISCREEN_H: i32 = 128;

/// Number of pixels on the screen.
pub const PIXELS: usize = SCREEN_W * SCREEN_H;

/// Whether `(x, y)` names a pixel of the screen.
pub open spec fn on_screen(x: int, y: int) -> bool {
    0 <= x < ISCREEN_W && 0 <= y < ISCREEN_H
}

/// Where the pixel `(x, y)` lies in the buffer.
pub open spec fn pixel_index(x: int, y: int) -> int {
    y * SCREEN_W + x
}

/// One coloured point, on the screen or off it.
#[derive(Clone, Copy, Debug)]
pub struct Pixel(pub Point, pub Rgb565);

/// The canvas after `pixel` is drawn: a point off the screen leaves it as it
/// was.
pub open spec fn plot(canvas: Seq<u16>, pixel: Pixel) -> Seq<u16> {
    if on_screen(pixel.0.x as int, pixel.0.y as int) {
        canvas.update(pixel_index(pixel.0.x as int, pixel.0.y as int), rgb565_bits(pixel.1))
    } else {
        canvas
    }
}

/// The canvas after `pixels` are drawn one after another, first to last.
pub open spec fn plot_all(canvas: Seq<u16>, pixels: Seq<Pixel>) -> Seq<u16>
    decreases pixels.len(),
{
    if pixels.len() == 0 {
        canvas
    } else {
        plot(plot_all(canvas, pixels.drop_last()), pixels.last())
    }
}

/// A canvas of one colour.
pub open spec fn solid(bits: u16) -> Seq<u16> {
    Seq::new(PIXELS as nat, |i: int| bits)
}

/// The canvas the frame is drawn on before it is shown.
pub struct FrameBuffer {
    /// The colour of every pixel, row after row from the top.
    pub inner: [Rgb565; PIXELS],
}

impl View for FrameBuffer {
    type V = Seq<u16>;

    /// The stored bits of every pixel, row after row.
    open spec fn view(&self) -> Seq<u16> {
        Seq::new(PIXELS as nat, |i: int| rgb565_bits(self.inner@[i]))
    }
}

impl FrameBuffer {
    /// A canvas in the default colour, black.
    pub fn new() -> (fb: Self)
        ensures
            fb@ == solid(DEFAULT_BITS),
    {
        let color = default_color();
        let fb = FrameBuffer { inner: [color; PIXELS] };
        proof {
            vstd::array::axiom_spec_array_fill_for_copy_type::<Rgb565, PIXELS>(color);
            assert(fb@ =~= solid(DEFAULT_BITS));
        }
        fb
    }

    /// Colours the pixel `(x, y)`. A point off the screen is ignored.
    pub fn set(&mut self, x: i32, y: i32, col: Rgb565)
        ensures
            final(self)@ == plot(old(self)@, Pixel(Point { x, y }, col)),
    {
        if x >= 0 && x < ISCREEN_W && y >= 0 && y < ISCREEN_H {
            let x = x as usize;
            let y = y as usize;
            self.inner[y * SCREEN_W + x] = col;
            assert(final(self)@ =~= old(self)@.update(
                pixel_index(x as int, y as int),
                rgb565_bits(col),
            ));
        }
    }

    /// The rectangle the canvas covers: the whole screen, from the origin.
    pub fn bounding_box(&self) -> (area: Rect)
        ensures
            area == (Rect {
                top_left: Point { x: 0, y: 0 },
                size: Size { width: SCREEN_W as u32, height: SCREEN_H as u32 },
            }),
            forall|x: int, y: int| area.covers(x, y) <==> on_screen(x, y),
    {
        Rect {
            top_left: Point { x: 0, y: 0 },
            size: Size { width: SCREEN_W as u32, height: SCREEN_H as u32 },
        }
    }

    /// Draws `pixels` in order, so that of two on one point the later one
    /// stays. Never fails.
    pub fn draw_iter(&mut self, pixels: &[Pixel]) -> (done: Result<(), ()>)
        ensures
            done is Ok,
            final(self)@ == plot_all(old(self)@, pixels@),
    {
        let mut i: usize = 0;
        while i < pixels.len()
            invariant
                i <= pixels.len(),
                self@ == plot_all(old(self)@, pixels@.take(i as int)),
            decreases pixels.len() - i,
        {
            let Pixel(point, color) = pixels[i];
            self.set(point.x, point.y, color);
            assert(pixels@.take(i + 1).drop_last() =~= pixels@.take(i as int));
            i += 1;
        }
        assert(pixels@.take(i as int) =~= pixels@);
        Ok(())
    }

    /// Paints every pixel in `color`. Never fails.
    pub fn clear(&mut self, color: Rgb565) -> (done: Result<(), ()>)
        ensures
            done is Ok,
            final(self)@ == solid(rgb565_bits(color)),
    {
        let mut i: usize = 0;
        while i < PIXELS
            invariant
                i <= PIXELS,
                forall|k: int| 0 <= k < i ==> rgb565_bits(#[trigger] self.inner@[k]) == rgb565_bits(color),
            decreases PIXELS - i,
        {
            self.inner[i] = color;
            i += 1;
        }
        assert(self@ =~= solid(rgb565_bits(color)));
        Ok(())
    }

    /// The stored bits of the pixel at `index` of the row-after-row order in
    /// which the display takes them; `None` past the last pixel.
    pub fn word(&self, index: usize) -> (bits: Option<u16>)
        ensures
            bits == (if index < PIXELS {
                Some(self@[index as int])
            } else {
                None
            }),
    {
        if index < PIXELS {
            Some(storage(self.inner[index]))
        } else {
            None
        }
    }
}

/// Every pixel of the screen has a place of its own in the buffer, and the
/// places fill the buffer.
pub proof fn pixel_index_is_exact(x: int, y: int, other_x: int, other_y: int)
    requires
        on_screen(x, y),
        on_screen(other_x, other_y),
    ensures
        0 <= pixel_index(x, y) < PIXELS,
        pixel_index(x, y) == pixel_index(other_x, other_y) <==> (x == other_x && y == other_y),
{
}

/// Drawing keeps the canvas the size of the screen.
pub proof fn drawing_keeps_size(canvas: Seq<u16>, pixels: Seq<Pixel>)
    requires
        canvas.len() == PIXELS,
    ensures
        plot_all(canvas, pixels).len() == PIXELS,
    decreases pixels.len(),
{
    if pixels.len() > 0 {
        drawing_keeps_size(canvas, pixels.drop_last());
        let last = pixels.last();
        if on_screen(last.0.x as int, last.0.y as int) {
            pixel_index_is_exact(
                last.0.x as int,
                last.0.y as int,
                last.0.x as int,
                last.0.y as int,
            );
        }
    }
}

/// Drawing one list of pixels and then another is drawing the two lists
/// joined.
pub proof fn draws_compose(canvas: Seq<u16>, first: Seq<Pixel>, second: Seq<Pixel>)
    ensures
        plot_all(plot_all(canvas, first), second) == plot_all(canvas, first + second),
    decreases second.len(),
{
    if second.len() == 0 {
        assert(first + second =~= first);
    } else {
        draws_compose(canvas, first, second.drop_last());
        assert((first + second).drop_last() =~= first + second.drop_last());
        assert((first + second).last() == second.last());
    }
}

/// Pixels off the screen leave no trace, however many are drawn.
pub proof fn off_screen_draws_nothing(canvas: Seq<u16>, pixels: Seq<Pixel>)
    requires
        forall|i: int|
            0 <= i < pixels.len() ==> !on_screen(
                (#[trigger] pixels[i]).0.x as int,
                pixels[i].0.y as int,
            ),
    ensures
        plot_all(canvas, pixels) == canvas,
    decreases pixels.len(),
{
    if pixels.len() > 0 {
        let before = pixels.drop_last();
        assert forall|i: int| 0 <= i < before.len() implies !on_screen(
            (#[trigger] before[i]).0.x as int,
            before[i].0.y as int,
        ) by {
            assert(before[i] == pixels[i]);
        }
        off_screen_draws_nothing(canvas, before);
        assert(pixels.last() == pixels[pixels.len() - 1]);
    }
}

impl Default for FrameBuffer {
    /// A canvas in the default colour, as [`FrameBuffer::new`] makes it.
    fn default() -> (fb: Self)
        ensures
            fb@ == solid(DEFAULT_BITS),
    {
        FrameBuffer::new()
    }
}

} // verus!
