use vstd::prelude::*;
use crate::color::Color;
use crate::palette::{pixel_color, Palette};
use crate::viewport::Viewport;

verus! {

/// One plot command: the pixel to set and the colour to set it to.
#[derive(Clone, Copy, Debug, PartialEq, Eq, Structural)]
pub struct PlotPoint {
    pub x: usize,
    pub y: usize,
    pub color: Color,
}

/// Column of the pixel with linear index `n` on a canvas `canvas_size` wide.
pub open spec fn pixel_x(n: int, canvas_size: int) -> int {
    n % canvas_size
}

/// Row of the pixel with linear index `n` on a canvas `canvas_size` wide.
pub open spec fn pixel_y(n: int, canvas_size: int) -> int {
    n / canvas_size
}

/// The plot command for linear index `n` of a frame: the pixel at that index,
/// painted according to its iteration count.
pub open spec fn plotted(
    viewport: Viewport,
    palette: Seq<Color>,
    counts: Seq<usize>,
    n: int,
) -> PlotPoint {
    PlotPoint {
        x: pixel_x(n, viewport.canvas_size as int) as usize,
        y: pixel_y(n, viewport.canvas_size as int) as usize,
        color: pixel_color(palette, viewport.max_iterations as int, counts[n] as int),
    }
}

/// Splits a linear pixel index into column and row.
pub fn pixel_coords(n: usize, canvas_size: usize) -> (p: (usize, usize))
    requires
        canvas_size > 0,
    ensures
        p.0 == pixel_x(n as int, canvas_size as int),
        p.1 == pixel_y(n as int, canvas_size as int),
{
    let y: usize = n / canvas_size;
    let x: usize = n % canvas_size;
    (x, y)
}

/// Turns the iteration counts of a frame, one per pixel in row-major order,
/// into the frame's plot commands, in the same order.
pub fn render(viewport: &Viewport, palette: &Palette, counts: &Vec<usize>) -> (frame: Vec<
    PlotPoint,
>)
    requires
        counts@.len() == viewport.canvas_size * viewport.canvas_size,
    ensures
        frame@.len() == viewport.canvas_size * viewport.canvas_size,
        forall|n: int|
            0 <= n < frame@.len() ==> (#[trigger] frame@[n]) == plotted(
                *viewport,
                palette@,
                counts@,
                n,
            ),
        forall|n: int| 0 <= n < frame@.len() ==> (#[trigger] frame@[n]).color.a == 255,
{
    let mut frame: Vec<PlotPoint> = Vec::with_capacity(counts.len());
    let mut n: usize = 0;
    while n < counts.len()
        invariant
            n <= counts@.len(),
            counts@.len() == viewport.canvas_size * viewport.canvas_size,
            frame@.len() == n,
            forall|k: int|
                0 <= k < n ==> (#[trigger] frame@[k]) == plotted(*viewport, palette@, counts@, k),
            forall|k: int| 0 <= k < n ==> (#[trigger] frame@[k]).color.a == 255,
        decreases counts@.len() - n,
    {
        assert(viewport.canvas_size > 0) by (nonlinear_arith)
            requires
                n < viewport.canvas_size * viewport.canvas_size,
        ;
        let (x, y) = pixel_coords(n, viewport.canvas_size);
        let color = palette.color_for(counts[n], viewport.max_iterations);
        frame.push(PlotPoint { x, y, color });
        n += 1;
    }
    frame
}

/// Each linear index below the square of the canvas size names a pixel on
/// the canvas.
pub proof fn lemma_pixel_on_canvas(n: int, canvas_size: int)
    requires
        0 <= canvas_size,
        0 <= n < canvas_size * canvas_size,
    ensures
        0 <= pixel_x(n, canvas_size) < canvas_size,
        0 <= pixel_y(n, canvas_size) < canvas_size,
        n == pixel_y(n, canvas_size) * canvas_size + pixel_x(n, canvas_size),
{
    assert(canvas_size > 0) by (nonlinear_arith)
        requires
            0 <= canvas_size,
            0 <= n < canvas_size * canvas_size,
    ;
    vstd::arithmetic::div_mod::lemma_fundamental_div_mod(n, canvas_size);
    vstd::arithmetic::div_mod::lemma_mod_bound(n, canvas_size);
    let y = n / canvas_size;
    assert(0 <= y < canvas_size) by (nonlinear_arith)
        requires
            0 <= n < canvas_size * canvas_size,
            canvas_size > 0,
            n == canvas_size * y + n % canvas_size,
            0 <= n % canvas_size < canvas_size,
    ;
    assert(canvas_size * y == y * canvas_size) by (nonlinear_arith);
}

/// Each pixel `(x, y)` of the canvas is named by one linear index below the
/// square of the canvas size: the row-major index `y * canvas_size + x`.
pub proof fn lemma_pixel_has_index(x: int, y: int, canvas_size: int)
    requires
        0 <= x < canvas_size,
        0 <= y < canvas_size,
    ensures
        0 <= y * canvas_size + x < canvas_size * canvas_size,
        pixel_x(y * canvas_size + x, canvas_size) == x,
        pixel_y(y * canvas_size + x, canvas_size) == y,
{
    assert(0 <= y * canvas_size + x < canvas_size * canvas_size) by (nonlinear_arith)
        requires
            0 <= x < canvas_size,
            0 <= y < canvas_size,
    ;
    vstd::arithmetic::div_mod::lemma_fundamental_div_mod_converse(
        y * canvas_size + x,
        canvas_size,
        y,
        x,
    );
}

/// Two different linear indices name two different pixels, and the later
/// index names the pixel that comes later in row-major order.
pub proof fn lemma_pixels_in_row_major_order(m: int, n: int, canvas_size: int)
    requires
        0 <= canvas_size,
        0 <= m < n < canvas_size * canvas_size,
    ensures
        pixel_y(m, canvas_size) < pixel_y(n, canvas_size) || (pixel_y(m, canvas_size) == pixel_y(
            n,
            canvas_size,
        ) && pixel_x(m, canvas_size) < pixel_x(n, canvas_size)),
{
    lemma_pixel_on_canvas(m, canvas_size);
    lemma_pixel_on_canvas(n, canvas_size);
    let ym = pixel_y(m, canvas_size);
    let yn = pixel_y(n, canvas_size);
    if ym > yn {
        assert(ym * canvas_size >= yn * canvas_size + canvas_size) by (nonlinear_arith)
            requires
                ym >= yn + 1,
                canvas_size > 0,
        ;
    }
}

/// With a palette as long as the iteration cap, a pixel whose count reached
/// the cap is painted opaque black and every other pixel with the palette
/// entry at its count.
pub proof fn lemma_color_mapping(palette: Seq<Color>, max_iterations: int, count: int)
    requires
        palette.len() == max_iterations,
        0 <= count,
    ensures
        count >= max_iterations ==> pixel_color(palette, max_iterations, count)
            == Color::spec_black(),
        count < max_iterations ==> pixel_color(palette, max_iterations, count) == palette[count],
{
}

} // verus!
