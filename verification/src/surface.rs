//! The overlay, pixel by pixel.
//!
//! This module says what a render tick puts on the screen, for a surface
//! that has the size of the frames: which texel each fragment reads, and
//! what a draw call makes of the pixel that was there. [`composite`]
//! carries a tick's draw calls out on such a surface.
//!
//! Frames are RGB and therefore opaque, so alpha blending puts a source
//! pixel in place of what was there, in the channels that the mask lets
//! through.
//!
//! A texture keeps its rows bottom-up, and a fragment looks its texel up
//! from the bottom as well, so a picture comes out the way it went in
//! unless a flip says otherwise.

use vstd::prelude::*;
use crate::compose::{
    flipped, is_draw_of, law_flips_add_up, mirrored, Camera, ColorMask, DrawCall, Flip, Mirror,
    TickPlan,
};
use crate::format::{lemma_payload_rows, FrameFormat};
use crate::grid::{lemma_cell_in_grid, lemma_stack, lemma_stack_step, stack};
use crate::texture::{bottom_up, law_texture_rows_bottom_up, rgb_at, Rgb};

verus! {

/// One pixel of a surface.
#[derive(Clone, Copy, Debug, PartialEq, Eq, Structural)]
pub struct Rgba {
    pub r: u8,
    pub g: u8,
    pub b: u8,
    pub a: u8,
}

/// The pixel in row `row`, column `col` of a surface that is `width`
/// pixels wide. Row 0 is the top row.
pub open spec fn rgba_at(pixels: Seq<u8>, width: nat, row: int, col: int) -> Rgba {
    let at = (row * width + col) * 4;
    Rgba { r: pixels[at], g: pixels[at + 1], b: pixels[at + 2], a: pixels[at + 3] }
}

/// The four bytes of a surface pixel.
pub open spec fn pixel_bytes(pixel: Rgba) -> Seq<u8> {
    seq![pixel.r, pixel.g, pixel.b, pixel.a]
}

/// The texel that the fragment in row `row`, column `col` of the surface
/// reads. The fragment's own texel lies `row` rows below the top, which is
/// row `height - 1 - row` of the texture; the mirroring starts from there.
pub open spec fn sampled(
    texels: Seq<u8>,
    width: nat,
    height: nat,
    mirror: Mirror,
    row: int,
    col: int,
) -> Rgb {
    let (x, y) = mirrored(mirror, width as int, height as int, col, height - 1 - row);
    rgb_at(texels, width, y, x)
}

/// An opaque source pixel blended over `under` through `mask`: the
/// channels of the mask take the source (and full alpha), the others stay.
pub open spec fn blended(under: Rgba, source: Rgb, mask: ColorMask) -> Rgba {
    Rgba {
        r: if mask.red {
            source.r
        } else {
            under.r
        },
        g: if mask.green {
            source.g
        } else {
            under.g
        },
        b: if mask.blue {
            source.b
        } else {
            under.b
        },
        a: if mask.alpha {
            255
        } else {
            under.a
        },
    }
}

/// The pixel at (`row`, `col`) once a texture has been drawn over `under`.
pub open spec fn drawn_pixel(
    under: Seq<u8>,
    width: nat,
    height: nat,
    texels: Seq<u8>,
    mirror: Mirror,
    mask: ColorMask,
    row: int,
    col: int,
) -> Rgba {
    blended(
        rgba_at(under, width, row, col),
        sampled(texels, width, height, mirror, row, col),
        mask,
    )
}

/// The pixels of one surface row after a draw, as a function of the column.
pub open spec fn row_pixels(
    under: Seq<u8>,
    width: nat,
    height: nat,
    texels: Seq<u8>,
    mirror: Mirror,
    mask: ColorMask,
    row: int,
) -> spec_fn(int) -> Seq<u8> {
    |col: int| pixel_bytes(drawn_pixel(under, width, height, texels, mirror, mask, row, col))
}

/// The rows of a surface after a draw, as a function of the row.
pub open spec fn surface_rows(
    under: Seq<u8>,
    width: nat,
    height: nat,
    texels: Seq<u8>,
    mirror: Mirror,
    mask: ColorMask,
) -> spec_fn(int) -> Seq<u8> {
    |row: int| stack(width, row_pixels(under, width, height, texels, mirror, mask, row))
}

/// The surface `under` after a texture of its own size has been drawn
/// over all of it.
pub open spec fn drawn(
    under: Seq<u8>,
    width: nat,
    height: nat,
    texels: Seq<u8>,
    mirror: Mirror,
    mask: ColorMask,
) -> Seq<u8> {
    stack(height, surface_rows(under, width, height, texels, mirror, mask))
}

/// The pixels of one surface row after a draw, by the cell at which the
/// row starts on the surface (`under_start`) and the cell at which the row
/// that it reads starts in the texture (`texel_start`).
spec fn row_from(
    under: Seq<u8>,
    texels: Seq<u8>,
    mask: ColorMask,
    backwards: bool,
    width: int,
    under_start: int,
    texel_start: int,
) -> spec_fn(int) -> Seq<u8> {
    |col: int|
        {
            let at = (under_start + col) * 4;
            let source = (texel_start + if backwards {
                width - 1 - col
            } else {
                col
            }) * 3;
            pixel_bytes(
                blended(
                    Rgba { r: under[at], g: under[at + 1], b: under[at + 2], a: under[at + 3] },
                    Rgb { r: texels[source], g: texels[source + 1], b: texels[source + 2] },
                    mask,
                ),
            )
        }
}

/// What [`row_from`] gives for one column.
proof fn lemma_row_from_cell(
    under: Seq<u8>,
    texels: Seq<u8>,
    mask: ColorMask,
    backwards: bool,
    width: int,
    under_start: int,
    texel_start: int,
    col: int,
)
    ensures
        ({
            let at = (under_start + col) * 4;
            let source = (texel_start + if backwards {
                width - 1 - col
            } else {
                col
            }) * 3;
            row_from(under, texels, mask, backwards, width, under_start, texel_start)(col)
                == pixel_bytes(
                Rgba {
                    r: if mask.red {
                        texels[source]
                    } else {
                        under[at]
                    },
                    g: if mask.green {
                        texels[source + 1]
                    } else {
                        under[at + 1]
                    },
                    b: if mask.blue {
                        texels[source + 2]
                    } else {
                        under[at + 2]
                    },
                    a: if mask.alpha {
                        255
                    } else {
                        under[at + 3]
                    },
                },
            )
        }),
{
}

/// Pushing the four bytes of the next pixel extends the row by that pixel.
proof fn lemma_pixel_pushed(above: Seq<u8>, col: nat, cells: spec_fn(int) -> Seq<u8>, pixel: Rgba)
    requires
        cells(col as int) == pixel_bytes(pixel),
    ensures
        (above + stack(col, cells)).push(pixel.r).push(pixel.g).push(pixel.b).push(pixel.a) == above
            + stack(col + 1, cells),
{
    lemma_stack_step(col, cells);
    let before = above + stack(col, cells);
    let after = before.push(pixel.r).push(pixel.g).push(pixel.b).push(pixel.a);
    assert(after =~= before + pixel_bytes(pixel));
    assert(before + pixel_bytes(pixel) =~= above + (stack(col, cells) + pixel_bytes(pixel)));
}

/// Stacks of pieces that agree one by one are the same stack.
proof fn lemma_same_pieces(count: nat, one: spec_fn(int) -> Seq<u8>, other: spec_fn(int) -> Seq<u8>)
    requires
        forall|i: int| 0 <= i < count ==> #[trigger] one(i) == other(i),
    ensures
        stack(count, one) == stack(count, other),
    decreases count,
{
    if count > 0 {
        lemma_same_pieces((count - 1) as nat, one, other);
        assert(one(count - 1) == other(count - 1));
    }
}

/// A row written from its two starting cells is the row that
/// [`surface_rows`] describes.
proof fn lemma_row_from(
    under: Seq<u8>,
    width: nat,
    height: nat,
    texels: Seq<u8>,
    mirror: Mirror,
    mask: ColorMask,
    row: int,
    y: int,
)
    requires
        0 <= row < height,
        y == (if mirror.vertical {
            row
        } else {
            height - 1 - row
        }),
    ensures
        stack(
            width,
            row_from(under, texels, mask, mirror.horizontal, width as int, row * width, y * width),
        ) == surface_rows(under, width, height, texels, mirror, mask)(row),
{
    let written = row_from(
        under,
        texels,
        mask,
        mirror.horizontal,
        width as int,
        row * width,
        y * width,
    );
    let wanted = row_pixels(under, width, height, texels, mirror, mask, row);
    assert forall|col: int| 0 <= col < width implies #[trigger] written(col) == wanted(col) by {
        let (x, up) = mirrored(mirror, width as int, height as int, col, height - 1 - row);
        assert(up == y);
    }
    lemma_same_pieces(width, written, wanted);
}

/// After a draw the surface has its old size, and each of its pixels is
/// the texel that its fragment reads, blended over the pixel that was
/// there.
pub proof fn law_drawn_pixels(
    under: Seq<u8>,
    width: nat,
    height: nat,
    texels: Seq<u8>,
    mirror: Mirror,
    mask: ColorMask,
    row: int,
    col: int,
)
    requires
        0 <= row < height,
        0 <= col < width,
    ensures
        drawn(under, width, height, texels, mirror, mask).len() == width * height * 4,
        rgba_at(drawn(under, width, height, texels, mirror, mask), width, row, col) == drawn_pixel(
            under,
            width,
            height,
            texels,
            mirror,
            mask,
            row,
            col,
        ),
{
    let rows = surface_rows(under, width, height, texels, mirror, mask);
    let row_len = width * 4;
    assert forall|r: int| 0 <= r < height implies (#[trigger] rows(r)).len() == row_len by {
        let cells = row_pixels(under, width, height, texels, mirror, mask, r);
        assert forall|c: int| 0 <= c < width implies (#[trigger] cells(c)).len() == 4 by {}
        lemma_stack(width, cells, 4);
    }
    lemma_stack(height, rows, row_len);
    let cells = row_pixels(under, width, height, texels, mirror, mask, row);
    assert forall|c: int| 0 <= c < width implies (#[trigger] cells(c)).len() == 4 by {}
    lemma_stack(width, cells, 4);
    lemma_cell_in_grid(width as int, height as int, 4, row, col);
    assert(height * row_len == width * height * 4) by (nonlinear_arith)
        requires
            row_len == width * 4,
    ;
    let after = drawn(under, width, height, texels, mirror, mask);
    let pixel = drawn_pixel(under, width, height, texels, mirror, mask, row, col);
    let at = (row * width + col) * 4;
    assert(after[row * row_len + (col * 4 + 0)] == rows(row)[col * 4 + 0]);
    assert(after[row * row_len + (col * 4 + 1)] == rows(row)[col * 4 + 1]);
    assert(after[row * row_len + (col * 4 + 2)] == rows(row)[col * 4 + 2]);
    assert(after[row * row_len + (col * 4 + 3)] == rows(row)[col * 4 + 3]);
    assert(rows(row)[col * 4 + 0] == cells(col)[0]);
    assert(rows(row)[col * 4 + 1] == cells(col)[1]);
    assert(rows(row)[col * 4 + 2] == cells(col)[2]);
    assert(rows(row)[col * 4 + 3] == cells(col)[3]);
    assert(after[at] == pixel.r);
    assert(after[at + 1] == pixel.g);
    assert(after[at + 2] == pixel.b);
    assert(after[at + 3] == pixel.a);
}

/// A surface cleared to transparent black.
pub open spec fn cleared(width: nat, height: nat) -> Seq<u8> {
    Seq::new(width * height * 4, |i: int| 0u8)
}

/// The surface `under` after a draw call: drawn over where the texture has
/// the surface's size, untouched where it has not.
pub open spec fn after_call(under: Seq<u8>, width: nat, height: nat, call: DrawCall) -> Seq<u8> {
    if call.texture.spec_width() == width && call.texture.spec_height() == height {
        drawn(under, width, height, call.texture@, call.mirror, call.mask)
    } else {
        under
    }
}

/// The surface `under` after a draw call that may be missing.
pub open spec fn after_optional_call(
    under: Seq<u8>,
    width: nat,
    height: nat,
    call: Option<DrawCall>,
) -> Seq<u8> {
    match call {
        Some(call) => after_call(under, width, height, call),
        None => under,
    }
}

/// The surface after a tick: cleared, then the first camera's draw call,
/// then the second's.
pub open spec fn composited(width: nat, height: nat, plan: TickPlan) -> Seq<u8> {
    after_optional_call(
        after_optional_call(cleared(width, height), width, height, plan.first),
        width,
        height,
        plan.second,
    )
}

/// An RGBA picture, rows top-down: what the window shows after a tick,
/// for a window that has the size of the frames.
pub struct Surface {
    width: u32,
    height: u32,
    pixels: Vec<u8>,
}

impl View for Surface {
    type V = Seq<u8>;

    /// The pixel bytes, top row first, four bytes per pixel.
    closed spec fn view(&self) -> Seq<u8> {
        self.pixels@
    }
}

impl Surface {
    /// There are four bytes for every pixel.
    #[verifier::type_invariant]
    spec fn sized(self) -> bool {
        self.pixels@.len() == self.width * self.height * 4
    }

    /// Pixels in a row.
    pub closed spec fn spec_width(&self) -> u32 {
        self.width
    }

    /// Rows.
    pub closed spec fn spec_height(&self) -> u32 {
        self.height
    }

    /// A cleared surface, where one of this size can be held in memory.
    pub fn new(width: u32, height: u32) -> (surface: Option<Surface>)
        ensures
            surface is Some <==> width * height * 4 <= isize::MAX,
            surface matches Some(s) ==> {
                &&& s.spec_width() == width
                &&& s.spec_height() == height
                &&& s@ == cleared(width as nat, height as nat)
            },
    {
        assert(width * height <= 0xffff_ffff * 0xffff_ffff) by (nonlinear_arith)
            requires
                0 <= width <= 0xffff_ffff,
                0 <= height <= 0xffff_ffff,
        ;
        let cells: u64 = (width as u64) * (height as u64);
        let bytes: u128 = (cells as u128) * 4;
        if bytes > isize::MAX as u128 {
            return None;
        }
        let pixels: Vec<u8> = vec![0u8; bytes as usize];
        assert(pixels@ =~= cleared(width as nat, height as nat));
        Some(Surface { width, height, pixels })
    }

    /// Pixels in a row.
    #[verifier::when_used_as_spec(spec_width)]
    pub fn width(&self) -> (width: u32)
        ensures
            width == self.spec_width(),
    {
        self.width
    }

    /// Rows.
    #[verifier::when_used_as_spec(spec_height)]
    pub fn height(&self) -> (height: u32)
        ensures
            height == self.spec_height(),
    {
        self.height
    }

    /// The pixel bytes, top row first, four bytes per pixel.
    pub fn pixels(&self) -> (pixels: &Vec<u8>)
        ensures
            pixels@ == self@,
            pixels@.len() == self.spec_width() * self.spec_height() * 4,
    {
        proof {
            use_type_invariant(self);
        }
        &self.pixels
    }

    /// The pixel in row `row`, column `col`, counted from the top left.
    pub fn pixel(&self, row: u32, col: u32) -> (pixel: Option<Rgba>)
        ensures
            pixel is Some <==> row < self.spec_height() && col < self.spec_width(),
            pixel matches Some(p) ==> p == rgba_at(self@, self.spec_width() as nat, row as int, col as int),
    {
        proof {
            use_type_invariant(self);
        }
        if row >= self.height || col >= self.width {
            return None;
        }
        let len = self.pixels.len();
        proof {
            lemma_cell_in_grid(self.width as int, self.height as int, 4, row as int, col as int);
            assert(row * self.width >= 0) by (nonlinear_arith);
        }
        let at: usize = ((row as usize) * (self.width as usize) + (col as usize)) * 4;
        Some(
            Rgba {
                r: self.pixels[at],
                g: self.pixels[at + 1],
                b: self.pixels[at + 2],
                a: self.pixels[at + 3],
            },
        )
    }

    /// Draws a textured quad over the whole surface. A texture of another
    /// size than the surface is not drawn.
    pub fn draw(&mut self, call: &DrawCall) -> (done: bool)
        ensures
            final(self).spec_width() == old(self).spec_width(),
            final(self).spec_height() == old(self).spec_height(),
            done == (call.texture.spec_width() == old(self).spec_width()
                && call.texture.spec_height() == old(self).spec_height()),
            final(self)@ == after_call(
                old(self)@,
                old(self).spec_width() as nat,
                old(self).spec_height() as nat,
                *call,
            ),
            final(self)@.len() == old(self)@.len(),
            done ==> forall|row: int, col: int|
                0 <= row < old(self).spec_height() && 0 <= col < old(self).spec_width()
                    ==> #[trigger] rgba_at(
                    final(self)@,
                    old(self).spec_width() as nat,
                    row,
                    col,
                ) == drawn_pixel(
                    old(self)@,
                    old(self).spec_width() as nat,
                    old(self).spec_height() as nat,
                    call.texture@,
                    call.mirror,
                    call.mask,
                    row,
                    col,
                ),
    {
        proof {
            use_type_invariant(&*self);
        }
        if call.texture.width() != self.width || call.texture.height() != self.height {
            return false;
        }
        let texels = call.texture.texels();
        let width: usize = self.width as usize;
        let height: usize = self.height as usize;
        let len = self.pixels.len();
        let texel_len = texels.len();
        let ghost under = self.pixels@;
        let ghost rows = surface_rows(
            under,
            width as nat,
            height as nat,
            texels@,
            call.mirror,
            call.mask,
        );
        let mut out: Vec<u8> = Vec::with_capacity(len);
        let mut row: usize = 0;
        let mut row_start: usize = 0;
        proof {
            assert(0 * width == 0) by (nonlinear_arith);
        }
        while row < height
            invariant
                row <= height,
                width > 0,
                width == self.width,
                height == self.height,
                under == self.pixels@,
                under.len() == len,
                len == width * height * 4,
                texel_len == width * height * 3,
                texels@.len() == texel_len,
                rows == surface_rows(
                    under,
                    width as nat,
                    height as nat,
                    texels@,
                    call.mirror,
                    call.mask,
                ),
                row_start == row * width,
                out@ == stack(row as nat, rows),
                out@.len() == row_start * 4,
            decreases height - row,
        {
            let ghost above = out@;
            let y: usize = if call.mirror.vertical {
                row
            } else {
                height - 1 - row
            };
            proof {
                assert(row_start + width <= width * height && y * width + width <= width * height
                    && y * width >= 0) by (nonlinear_arith)
                    requires
                        row_start == row * width,
                        0 <= row < height,
                        0 <= y < height,
                        0 < width,
                ;
            }
            let texel_start: usize = y * width;
            let ghost cells = row_from(
                under,
                texels@,
                call.mask,
                call.mirror.horizontal,
                width as int,
                row_start as int,
                texel_start as int,
            );
            let mut col: usize = 0;
            while col < width
                invariant
                    col <= width,
                    under == self.pixels@,
                    under.len() == len,
                    (row_start + width) * 4 <= len,
                    (texel_start + width) * 3 <= texel_len,
                    texels@.len() == texel_len,
                    cells == row_from(
                        under,
                        texels@,
                        call.mask,
                        call.mirror.horizontal,
                        width as int,
                        row_start as int,
                        texel_start as int,
                    ),
                    out@ == above + stack(col as nat, cells),
                    out@.len() == above.len() + col * 4,
                decreases width - col,
            {
                let x: usize = if call.mirror.horizontal {
                    width - 1 - col
                } else {
                    col
                };
                let source: usize = (texel_start + x) * 3;
                let at: usize = (row_start + col) * 4;
                let r = if call.mask.red {
                    texels[source]
                } else {
                    self.pixels[at]
                };
                let g = if call.mask.green {
                    texels[source + 1]
                } else {
                    self.pixels[at + 1]
                };
                let b = if call.mask.blue {
                    texels[source + 2]
                } else {
                    self.pixels[at + 2]
                };
                let a = if call.mask.alpha {
                    255
                } else {
                    self.pixels[at + 3]
                };
                let ghost before = out@;
                out.push(r);
                out.push(g);
                out.push(b);
                out.push(a);
                proof {
                    lemma_row_from_cell(
                        under,
                        texels@,
                        call.mask,
                        call.mirror.horizontal,
                        width as int,
                        row_start as int,
                        texel_start as int,
                        col as int,
                    );
                    lemma_pixel_pushed(above, col as nat, cells, Rgba { r, g, b, a });
                }
                col = col + 1;
            }
            proof {
                lemma_row_from(
                    under,
                    width as nat,
                    height as nat,
                    texels@,
                    call.mirror,
                    call.mask,
                    row as int,
                    y as int,
                );
                lemma_stack_step(row as nat, rows);
                assert((row + 1) * width == row * width + width) by (nonlinear_arith);
            }
            row_start = row_start + width;
            row = row + 1;
        }
        assert(height * width * 4 == width * height * 4) by (nonlinear_arith);
        proof {
            assert forall|row: int, col: int| 0 <= row < height && 0 <= col < width implies rgba_at(
                out@,
                width as nat,
                row,
                col,
            ) == drawn_pixel(
                under,
                width as nat,
                height as nat,
                texels@,
                call.mirror,
                call.mask,
                row,
                col,
            ) by {
                law_drawn_pixels(
                    under,
                    width as nat,
                    height as nat,
                    texels@,
                    call.mirror,
                    call.mask,
                    row,
                    col,
                );
            }
        }
        self.pixels = out;
        true
    }
}

/// Clears a surface of the given size and carries out a tick's draw calls
/// on it, first camera first.
pub fn composite(width: u32, height: u32, plan: &TickPlan) -> (surface: Option<Surface>)
    ensures
        surface is Some <==> width * height * 4 <= isize::MAX,
        surface matches Some(s) ==> {
            &&& s.spec_width() == width
            &&& s.spec_height() == height
            &&& s@ == composited(width as nat, height as nat, *plan)
        },
{
    match Surface::new(width, height) {
        None => None,
        Some(mut surface) => {
            match &plan.first {
                Some(call) => {
                    surface.draw(call);
                },
                None => {},
            }
            match &plan.second {
                Some(call) => {
                    surface.draw(call);
                },
                None => {},
            }
            Some(surface)
        },
    }
}

/// A frame reaches the surface the way it was captured, but for the
/// mirroring: the fragment in row `row`, column `col` shows the frame's
/// pixel of the same place, with the row counted from the other end where
/// the mirroring is vertical and the column counted from the other end
/// where it is horizontal. Storing the texture bottom-up and reading it
/// from the bottom cancel out.
pub proof fn law_frame_orientation(
    payload: Seq<u8>,
    width: nat,
    height: nat,
    mirror: Mirror,
    row: int,
    col: int,
)
    requires
        payload.len() == width * height * 3,
        0 <= row < height,
        0 <= col < width,
    ensures
        sampled(bottom_up(payload, width * 3, height), width, height, mirror, row, col) == rgb_at(
            payload,
            width,
            if mirror.vertical {
                height - 1 - row
            } else {
                row
            },
            if mirror.horizontal {
                width - 1 - col
            } else {
                col
            },
        ),
{
    let (x, y) = mirrored(mirror, width as int, height as int, col, height - 1 - row);
    law_texture_rows_bottom_up(payload, width, height, y, x);
}

/// A cleared surface is transparent black everywhere.
pub proof fn law_cleared_pixels(width: nat, height: nat, row: int, col: int)
    requires
        0 <= row < height,
        0 <= col < width,
    ensures
        rgba_at(cleared(width, height), width, row, col) == (Rgba { r: 0, g: 0, b: 0, a: 0 }),
{
    lemma_cell_in_grid(width as int, height as int, 4, row, col);
}

/// The pixel of a tick on which both cameras were drawn: red comes from
/// the first camera, green and blue come from the second, and the pixel is
/// opaque.
pub proof fn law_overlay_pixel(width: nat, height: nat, plan: TickPlan, row: int, col: int)
    requires
        0 <= row < height,
        0 <= col < width,
        plan.first matches Some(call) && call.mask == Camera::First.spec_mask()
            && call.texture.spec_width() == width && call.texture.spec_height() == height,
        plan.second matches Some(call) && call.mask == Camera::Second.spec_mask()
            && call.texture.spec_width() == width && call.texture.spec_height() == height,
    ensures
        rgba_at(composited(width, height, plan), width, row, col) == (Rgba {
            r: sampled(
                plan.first->Some_0.texture@,
                width,
                height,
                plan.first->Some_0.mirror,
                row,
                col,
            ).r,
            g: sampled(
                plan.second->Some_0.texture@,
                width,
                height,
                plan.second->Some_0.mirror,
                row,
                col,
            ).g,
            b: sampled(
                plan.second->Some_0.texture@,
                width,
                height,
                plan.second->Some_0.mirror,
                row,
                col,
            ).b,
            a: 255,
        }),
{
    let first = plan.first->Some_0;
    let second = plan.second->Some_0;
    let start = cleared(width, height);
    let middle = drawn(start, width, height, first.texture@, first.mirror, first.mask);
    law_drawn_pixels(start, width, height, first.texture@, first.mirror, first.mask, row, col);
    law_drawn_pixels(middle, width, height, second.texture@, second.mirror, second.mask, row, col);
}

/// The whole path from two frames to a pixel. Where both cameras have a
/// frame of the surface's size, the pixel in row `row`, column `col` takes
/// its red from the first camera's frame and its green and blue from the
/// second camera's frame, each read at the place that the camera's flips
/// point to, and is opaque.
pub proof fn law_overlay_of_frames(
    format: FrameFormat,
    first_frame: Seq<u8>,
    first_flip: Flip,
    second_frame: Seq<u8>,
    second_flip: Flip,
    plan: TickPlan,
    row: int,
    col: int,
)
    requires
        0 <= row < format.height,
        0 <= col < format.width,
        first_frame.len() == format.payload_len(),
        second_frame.len() == format.payload_len(),
        is_draw_of(plan.first, Camera::First, format, first_frame, first_flip),
        is_draw_of(plan.second, Camera::Second, format, second_frame, second_flip),
    ensures
        ({
            let width = format.width as nat;
            let height = format.height as nat;
            let (first_col, first_row) = flipped(
                first_flip,
                width as int,
                height as int,
                col,
                row,
            );
            let (second_col, second_row) = flipped(
                second_flip,
                width as int,
                height as int,
                col,
                row,
            );
            rgba_at(composited(width, height, plan), width, row, col) == (Rgba {
                r: rgb_at(first_frame, width, first_row, first_col).r,
                g: rgb_at(second_frame, width, second_row, second_col).g,
                b: rgb_at(second_frame, width, second_row, second_col).b,
                a: 255,
            })
        }),
{
    let width = format.width as nat;
    let height = format.height as nat;
    lemma_payload_rows(format);
    law_overlay_pixel(width, height, plan, row, col);
    law_frame_orientation(first_frame, width, height, first_flip.spec_mirror(), row, col);
    law_frame_orientation(second_frame, width, height, second_flip.spec_mirror(), row, col);
    law_flips_add_up(first_flip, width as int, height as int, col, row);
    law_flips_add_up(second_flip, width as int, height as int, col, row);
}

/// A camera whose store is still empty is not drawn: on a surface of the
/// other camera's size the tick shows that camera alone, in its own
/// channels, and with both stores empty the surface stays cleared.
pub proof fn law_empty_store_is_not_drawn(
    format: FrameFormat,
    frame: Seq<u8>,
    first_flip: Flip,
    second_flip: Flip,
    plan: TickPlan,
    row: int,
    col: int,
)
    requires
        0 <= row < format.height,
        0 <= col < format.width,
        frame.len() == format.payload_len(),
    ensures
        ({
            let width = format.width as nat;
            let height = format.height as nat;
            let nothing = Seq::<u8>::empty();
            let (first_col, first_row) = flipped(first_flip, width as int, height as int, col, row);
            let (second_col, second_row) = flipped(
                second_flip,
                width as int,
                height as int,
                col,
                row,
            );
            &&& is_draw_of(plan.first, Camera::First, format, nothing, first_flip) && is_draw_of(
                plan.second,
                Camera::Second,
                format,
                nothing,
                second_flip,
            ) ==> composited(width, height, plan) == cleared(width, height)
            &&& is_draw_of(plan.first, Camera::First, format, nothing, first_flip) && is_draw_of(
                plan.second,
                Camera::Second,
                format,
                frame,
                second_flip,
            ) ==> rgba_at(composited(width, height, plan), width, row, col) == (Rgba {
                r: 0,
                g: rgb_at(frame, width, second_row, second_col).g,
                b: rgb_at(frame, width, second_row, second_col).b,
                a: 255,
            })
            &&& is_draw_of(plan.first, Camera::First, format, frame, first_flip) && is_draw_of(
                plan.second,
                Camera::Second,
                format,
                nothing,
                second_flip,
            ) ==> rgba_at(composited(width, height, plan), width, row, col) == (Rgba {
                r: rgb_at(frame, width, first_row, first_col).r,
                g: 0,
                b: 0,
                a: 255,
            })
        }),
{
    let width = format.width as nat;
    let height = format.height as nat;
    lemma_payload_rows(format);
    law_frame_orientation(frame, width, height, first_flip.spec_mirror(), row, col);
    law_frame_orientation(frame, width, height, second_flip.spec_mirror(), row, col);
    law_flips_add_up(first_flip, width as int, height as int, col, row);
    law_flips_add_up(second_flip, width as int, height as int, col, row);
    if (plan.first matches Some(call) ==> call.mask == Camera::First.spec_mask()
        && call.texture.spec_width() == width && call.texture.spec_height() == height) && (
    plan.second matches Some(call) ==> call.mask == Camera::Second.spec_mask()
        && call.texture.spec_width() == width && call.texture.spec_height() == height) {
        law_missing_camera_is_left_out(width, height, plan, row, col);
    }
}

/// The pixel of a tick on which one camera had no frame: only the other
/// camera's channels are written, and the missing camera's stay cleared.
/// With neither camera the surface stays cleared.
pub proof fn law_missing_camera_is_left_out(
    width: nat,
    height: nat,
    plan: TickPlan,
    row: int,
    col: int,
)
    requires
        0 <= row < height,
        0 <= col < width,
        plan.first matches Some(call) ==> call.mask == Camera::First.spec_mask()
            && call.texture.spec_width() == width && call.texture.spec_height() == height,
        plan.second matches Some(call) ==> call.mask == Camera::Second.spec_mask()
            && call.texture.spec_width() == width && call.texture.spec_height() == height,
    ensures
        plan.first is None && plan.second is None ==> composited(width, height, plan) == cleared(
            width,
            height,
        ),
        plan.first is None && plan.second is Some ==> rgba_at(
            composited(width, height, plan),
            width,
            row,
            col,
        ) == (Rgba {
            r: 0,
            g: sampled(
                plan.second->Some_0.texture@,
                width,
                height,
                plan.second->Some_0.mirror,
                row,
                col,
            ).g,
            b: sampled(
                plan.second->Some_0.texture@,
                width,
                height,
                plan.second->Some_0.mirror,
                row,
                col,
            ).b,
            a: 255,
        }),
        plan.first is Some && plan.second is None ==> rgba_at(
            composited(width, height, plan),
            width,
            row,
            col,
        ) == (Rgba {
            r: sampled(
                plan.first->Some_0.texture@,
                width,
                height,
                plan.first->Some_0.mirror,
                row,
                col,
            ).r,
            g: 0,
            b: 0,
            a: 255,
        }),
{
    let start = cleared(width, height);
    law_cleared_pixels(width, height, row, col);
    if plan.first is Some {
        let first = plan.first->Some_0;
        law_drawn_pixels(start, width, height, first.texture@, first.mirror, first.mask, row, col);
    }
    if plan.second is Some {
        let second = plan.second->Some_0;
        law_drawn_pixels(
            start,
            width,
            height,
            second.texture@,
            second.mirror,
            second.mask,
            row,
            col,
        );
    }
}

} // verus!
