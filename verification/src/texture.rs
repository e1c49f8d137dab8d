//! Textures: frames laid out for the graphics API.
//!
//! A frame stores its top row first. The graphics API puts the origin of a
//! texture at the bottom left, so a texture stores the bottom row first. A
//! texture is made from one whole frame and from nothing else.

use vstd::prelude::*;
use vstd::slice::slice_subrange;
use crate::format::{lemma_payload_rows, FrameFormat};
use crate::grid::{lemma_cell_in_grid, lemma_stack, stack};

verus! {

/// One pixel of an RGB image.
#[derive(Clone, Copy, Debug, PartialEq, Eq, Structural)]
pub struct Rgb {
    pub r: u8,
    pub g: u8,
    pub b: u8,
}

/// The pixel in row `row`, column `col` of an RGB image that is `width`
/// pixels wide. Rows count in the order in which the image stores them.
pub open spec fn rgb_at(image: Seq<u8>, width: nat, row: int, col: int) -> Rgb {
    let at = (row * width + col) * 3;
    Rgb { r: image[at], g: image[at + 1], b: image[at + 2] }
}

/// The rows of a frame, last row first.
pub open spec fn bottom_up(payload: Seq<u8>, row_len: nat, rows: nat) -> Seq<u8> {
    stack(rows, |r: int| payload.subrange((rows - 1 - r) * row_len, (rows - r) * row_len))
}

/// A frame made ready for the graphics API: RGB, rows bottom-up.
pub struct Texture {
    width: u32,
    height: u32,
    texels: Vec<u8>,
}

impl View for Texture {
    type V = Seq<u8>;

    /// The texel bytes, bottom row first.
    closed spec fn view(&self) -> Seq<u8> {
        self.texels@
    }
}

impl Texture {
    /// The texture has texels, three bytes for each.
    #[verifier::type_invariant]
    spec fn filled(self) -> bool {
        &&& self.width > 0
        &&& self.height > 0
        &&& self.texels@.len() == self.width * self.height * 3
    }

    /// Texels in a row.
    pub closed spec fn spec_width(&self) -> u32 {
        self.width
    }

    /// Rows.
    pub closed spec fn spec_height(&self) -> u32 {
        self.height
    }

    /// The texture of a frame. There is none while the payload is empty,
    /// nor for bytes that are not one whole frame of `format`.
    pub fn from_frame(format: &FrameFormat, payload: &[u8]) -> (texture: Option<Texture>)
        ensures
            texture is Some <==> payload@.len() > 0 && payload@.len() == format.payload_len(),
            texture matches Some(t) ==> {
                &&& t.spec_width() == format.width
                &&& t.spec_height() == format.height
                &&& t@ == bottom_up(payload@, format.row_len(), format.height as nat)
                &&& t@.len() == payload@.len()
                &&& forall|row: int, col: int|
                    0 <= row < format.height && 0 <= col < format.width ==> #[trigger] rgb_at(
                        t@,
                        format.width as nat,
                        row,
                        col,
                    ) == rgb_at(payload@, format.width as nat, format.height - 1 - row, col)
            },
    {
        let len = payload.len();
        if len == 0 || !format.holds(len) {
            return None;
        }
        let ghost row_bytes = format.row_len();
        let ghost piece = |r: int|
            payload@.subrange((format.height - 1 - r) * row_bytes, (format.height - r) * row_bytes);
        proof {
            lemma_payload_rows(*format);
            assert(format.width > 0 && format.height > 0) by (nonlinear_arith)
                requires
                    format.width * format.height * 3 > 0,
                    format.width >= 0,
                    format.height >= 0,
            ;
            assert(row_bytes <= len) by (nonlinear_arith)
                requires
                    len == format.height * row_bytes,
                    format.height >= 1,
                    row_bytes >= 0,
            ;
        }
        let row_len: usize = (format.width as usize) * 3;
        let rows: usize = format.height as usize;
        let mut texels: Vec<u8> = Vec::with_capacity(len);
        let mut done: usize = 0;
        while done < rows
            invariant
                done <= rows,
                rows == format.height,
                row_len == row_bytes,
                len == payload@.len(),
                len == rows * row_len,
                texels@ == stack(done as nat, piece),
                texels@.len() == done * row_len,
                piece == (|r: int|
                    payload@.subrange(
                        (format.height - 1 - r) * row_bytes,
                        (format.height - r) * row_bytes,
                    )),
            decreases rows - done,
        {
            proof {
                assert((rows - 1 - done) * row_len + row_len == (rows - done) * row_len
                    && 0 <= (rows - 1 - done) * row_len
                    && (rows - done) * row_len <= rows * row_len) by (nonlinear_arith)
                    requires
                        0 <= done < rows,
                        row_len >= 0,
                ;
                assert((done + 1) * row_len == done * row_len + row_len) by (nonlinear_arith);
            }
            let from: usize = (rows - 1 - done) * row_len;
            let row = slice_subrange(payload, from, from + row_len);
            let ghost before = texels@;
            texels.extend_from_slice(row);
            assert(texels@ =~= before + piece(done as int));
            done = done + 1;
        }
        proof {
            assert forall|row: int, col: int|
                0 <= row < format.height && 0 <= col < format.width implies rgb_at(
                texels@,
                format.width as nat,
                row,
                col,
            ) == rgb_at(payload@, format.width as nat, format.height - 1 - row, col) by {
                law_texture_rows_bottom_up(
                    payload@,
                    format.width as nat,
                    format.height as nat,
                    row,
                    col,
                );
            }
        }
        Some(Texture { width: format.width, height: format.height, texels })
    }

    /// Texels in a row; never zero.
    #[verifier::when_used_as_spec(spec_width)]
    pub fn width(&self) -> (width: u32)
        ensures
            width == self.spec_width(),
            width > 0,
    {
        proof {
            use_type_invariant(self);
        }
        self.width
    }

    /// Rows; never zero.
    #[verifier::when_used_as_spec(spec_height)]
    pub fn height(&self) -> (height: u32)
        ensures
            height == self.spec_height(),
            height > 0,
    {
        proof {
            use_type_invariant(self);
        }
        self.height
    }

    /// Gives the texel bytes up for upload: bottom row first, three bytes
    /// per texel.
    pub fn into_texels(self) -> (texels: Vec<u8>)
        ensures
            texels@ == self@,
            texels@.len() == self.spec_width() * self.spec_height() * 3,
    {
        proof {
            use_type_invariant(&self);
        }
        self.texels
    }

    /// The texel bytes, bottom row first, three bytes per texel.
    pub fn texels(&self) -> (texels: &Vec<u8>)
        ensures
            texels@ == self@,
            texels@.len() == self.spec_width() * self.spec_height() * 3,
    {
        proof {
            use_type_invariant(self);
        }
        &self.texels
    }
}

/// A texture shows its frame upside down and nothing else: texel row
/// `row`, counted from the bottom, is frame row `height - 1 - row`.
pub proof fn law_texture_rows_bottom_up(
    payload: Seq<u8>,
    width: nat,
    height: nat,
    row: int,
    col: int,
)
    requires
        payload.len() == width * height * 3,
        0 <= row < height,
        0 <= col < width,
    ensures
        bottom_up(payload, width * 3, height).len() == payload.len(),
        rgb_at(bottom_up(payload, width * 3, height), width, row, col) == rgb_at(
            payload,
            width,
            height - 1 - row,
            col,
        ),
{
    let row_len = width * 3;
    let piece = |r: int| payload.subrange((height - 1 - r) * row_len, (height - r) * row_len);
    let from = height - 1 - row;
    lemma_cell_in_grid(width as int, height as int, 3, from, 0);
    lemma_cell_in_grid(width as int, height as int, 3, from, col);
    lemma_cell_in_grid(width as int, height as int, 3, row, col);
    assert(width * height * 3 == height * row_len) by (nonlinear_arith)
        requires
            row_len == width * 3,
    ;
    assert forall|j: int| 0 <= j < height implies (#[trigger] piece(j)).len() == row_len by {
        assert((height - 1 - j) * row_len + row_len == (height - j) * row_len
            && 0 <= (height - 1 - j) * row_len
            && (height - j) * row_len <= height * row_len) by (nonlinear_arith)
            requires
                0 <= j < height,
                row_len >= 0,
        ;
    }
    lemma_stack(height, piece, row_len);
    let texels = bottom_up(payload, row_len, height);
    assert(texels == stack(height, piece));
    assert((height - 1 - row) * row_len == from * (width * 3));
    let at = (row * width + col) * 3;
    let source = (from * width + col) * 3;
    let start = from * row_len;
    assert((height - row) * row_len == start + row_len && start + row_len <= height * row_len
        && start >= 0) by (nonlinear_arith)
        requires
            from == height - 1 - row,
            start == from * row_len,
            0 <= row < height,
            row_len >= 0,
    ;
    assert(piece(row) == payload.subrange(start, start + row_len));
    assert(at == row * row_len + col * 3);
    assert(source == start + col * 3);
    assert(col * 3 + 2 < row_len);
    assert(texels[row * row_len + (col * 3 + 0)] == piece(row)[col * 3 + 0]);
    assert(texels[row * row_len + (col * 3 + 1)] == piece(row)[col * 3 + 1]);
    assert(texels[row * row_len + (col * 3 + 2)] == piece(row)[col * 3 + 2]);
    assert(texels[at] == payload[source]);
    assert(texels[at + 1] == payload[source + 1]);
    assert(texels[at + 2] == payload[source + 2]);
}

} // verus!
