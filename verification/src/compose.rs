//! Planning a render tick.
//!
//! Once per display refresh the renderer copies the latest frame out of
//! each camera's store and turns every frame that is there into a draw
//! call: a textured quad over the whole surface, first camera first. A
//! camera that has no frame yet is left out of that tick; nothing waits
//! for it and nothing stale is drawn in its place.
//!
//! Each camera writes only the colour channels of its mask, so the two
//! pictures stay apart: the first camera owns red, the second green and
//! blue, and both write alpha.
//!
//! A fragment may flip its texture coordinates. The vertical flip of a
//! camera turns its picture upside down *and* mirrors it; the horizontal
//! flip, which both cameras share, mirrors it once more.

use vstd::prelude::*;
use crate::format::FrameFormat;
use crate::store::{consistent, SharedFrameStore};
use crate::texture::{bottom_up, rgb_at, Texture};

verus! {

/// One of the two cameras of the overlay.
#[derive(Clone, Copy, Debug, PartialEq, Eq, Structural)]
pub enum Camera {
    First,
    Second,
}

/// Which channels of the surface a draw call may write.
#[derive(Clone, Copy, Debug, PartialEq, Eq, Structural)]
pub struct ColorMask {
    pub red: bool,
    pub green: bool,
    pub blue: bool,
    pub alpha: bool,
}

impl Camera {
    /// The channels of a camera: red and alpha for the first, green, blue
    /// and alpha for the second.
    pub open spec fn spec_mask(self) -> ColorMask {
        match self {
            Camera::First => ColorMask { red: true, green: false, blue: false, alpha: true },
            Camera::Second => ColorMask { red: false, green: true, blue: true, alpha: true },
        }
    }

    /// The channels that this camera writes.
    #[verifier::when_used_as_spec(spec_mask)]
    pub fn mask(self) -> (mask: ColorMask)
        ensures
            mask == self.spec_mask(),
    {
        match self {
            Camera::First => ColorMask { red: true, green: false, blue: false, alpha: true },
            Camera::Second => ColorMask { red: false, green: true, blue: true, alpha: true },
        }
    }
}

/// The flip switches that apply to one camera.
#[derive(Clone, Copy, Debug, PartialEq, Eq, Structural)]
pub struct Flip {
    /// The horizontal flip, common to both cameras.
    pub flip_x: bool,
    /// The vertical flip of this camera.
    pub flip_y: bool,
}

/// What a fragment does to its texture coordinates.
#[derive(Clone, Copy, Debug, PartialEq, Eq, Structural)]
pub struct Mirror {
    /// Left and right are swapped.
    pub horizontal: bool,
    /// Top and bottom are swapped.
    pub vertical: bool,
}

impl Flip {
    /// The mirroring that the switches add up to. The vertical flip swaps
    /// both axes; the horizontal flip then swaps left and right again.
    pub open spec fn spec_mirror(self) -> Mirror {
        Mirror { horizontal: self.flip_x != self.flip_y, vertical: self.flip_y }
    }

    /// The mirroring that the switches add up to.
    #[verifier::when_used_as_spec(spec_mirror)]
    pub fn mirror(self) -> (mirror: Mirror)
        ensures
            mirror == self.spec_mirror(),
    {
        Mirror { horizontal: self.flip_x != self.flip_y, vertical: self.flip_y }
    }
}

/// Texel coordinates `(x, y)` after the fragment's flips, taken one after
/// the other: the vertical flip first, which turns both axes, then the
/// horizontal one.
pub open spec fn flipped(flip: Flip, width: int, height: int, x: int, y: int) -> (int, int) {
    let (x1, y1) = if flip.flip_y {
        (width - 1 - x, height - 1 - y)
    } else {
        (x, y)
    };
    if flip.flip_x {
        (width - 1 - x1, y1)
    } else {
        (x1, y1)
    }
}

/// Texel coordinates `(x, y)` under a mirroring.
pub open spec fn mirrored(mirror: Mirror, width: int, height: int, x: int, y: int) -> (int, int) {
    (
        if mirror.horizontal {
            width - 1 - x
        } else {
            x
        },
        if mirror.vertical {
            height - 1 - y
        } else {
            y
        },
    )
}

/// The flips of a fragment, taken in order, come to the mirroring that
/// [`Flip::mirror`] computes.
pub proof fn law_flips_add_up(flip: Flip, width: int, height: int, x: int, y: int)
    ensures
        flipped(flip, width, height, x, y) == mirrored(flip.spec_mirror(), width, height, x, y),
{
}

/// A corner of the quad that carries a camera's picture: its place on the
/// surface, where both axes run from -1 to 1, and its place in the
/// texture, where both run from 0 to 1.
#[derive(Clone, Copy, Debug, PartialEq, Eq, Structural)]
pub struct Corner {
    pub x: i8,
    pub y: i8,
    pub u: u8,
    pub v: u8,
}

/// The four corners of the surface, each with the texture corner that
/// belongs there: bottom left, top left, top right, bottom right.
pub open spec fn spec_quad() -> Seq<Corner> {
    seq![
        Corner { x: -1i8, y: -1i8, u: 0, v: 0 },
        Corner { x: -1i8, y: 1, u: 0, v: 1 },
        Corner { x: 1, y: 1, u: 1, v: 1 },
        Corner { x: 1, y: -1i8, u: 1, v: 0 },
    ]
}

/// The order in which the corners of [`quad`] make a strip of two
/// triangles: top left, top right, bottom left, bottom right.
pub open spec fn spec_quad_strip() -> Seq<u16> {
    seq![1, 2, 0, 3]
}

/// The quad that both cameras are drawn on.
pub fn quad() -> (corners: [Corner; 4])
    ensures
        corners@ == spec_quad(),
{
    let corners = [
        Corner { x: -1, y: -1, u: 0, v: 0 },
        Corner { x: -1, y: 1, u: 0, v: 1 },
        Corner { x: 1, y: 1, u: 1, v: 1 },
        Corner { x: 1, y: -1, u: 1, v: 0 },
    ];
    assert(corners@ =~= spec_quad());
    corners
}

/// The triangle strip over the corners of [`quad`].
pub fn quad_strip() -> (order: [u16; 4])
    ensures
        order@ == spec_quad_strip(),
{
    let order = [1, 2, 0, 3];
    assert(order@ =~= spec_quad_strip());
    order
}

/// The quad spans the surface and shows the texture upright: its corners
/// are the four corners of the surface, each with the texture corner of
/// the same side. The strip names every corner once; its two triangles
/// share the diagonal from top right to bottom left.
pub proof fn law_quad_is_upright()
    ensures
        forall|i: int|
            0 <= i < 4 ==> {
                let corner = #[trigger] spec_quad()[i];
                &&& (corner.x == -1 || corner.x == 1)
                &&& (corner.y == -1 || corner.y == 1)
                &&& corner.x == 2 * corner.u - 1
                &&& corner.y == 2 * corner.v - 1
            },
        forall|i: int, j: int|
            0 <= i < j < 4 ==> (#[trigger] spec_quad()[i].x != #[trigger] spec_quad()[j].x
                || spec_quad()[i].y != spec_quad()[j].y),
        forall|k: int| 0 <= k < 4 ==> #[trigger] spec_quad_strip()[k] < 4,
        forall|j: int, k: int|
            0 <= j < k < 4 ==> #[trigger] spec_quad_strip()[j] != #[trigger] spec_quad_strip()[k],
        spec_quad_strip()[1] == 2 && spec_quad_strip()[2] == 0,
{
    assert(spec_quad_strip()[2] == 0);
    assert(spec_quad_strip()[0] == 1);
    assert(spec_quad_strip()[1] == 2);
    assert(spec_quad_strip()[3] == 3);
}

/// One textured quad over the whole surface.
pub struct DrawCall {
    pub camera: Camera,
    pub texture: Texture,
    pub mask: ColorMask,
    pub mirror: Mirror,
}

/// `call` is what a camera is drawn with on a tick on which its store
/// holds `payload`: nothing while there is no frame, else the frame as a
/// texture with the camera's mask and the mirroring of its flips.
pub open spec fn is_draw_of(
    call: Option<DrawCall>,
    camera: Camera,
    format: FrameFormat,
    payload: Seq<u8>,
    flip: Flip,
) -> bool {
    match call {
        None => payload.len() == 0 || payload.len() != format.payload_len(),
        Some(call) => {
            &&& payload.len() > 0
            &&& payload.len() == format.payload_len()
            &&& call.camera == camera
            &&& call.mask == camera.spec_mask()
            &&& call.mirror == flip.spec_mirror()
            &&& call.texture.spec_width() == format.width
            &&& call.texture.spec_height() == format.height
            &&& call.texture@ == bottom_up(payload, format.row_len(), format.height as nat)
        },
    }
}

/// The draw call of a camera for one tick. Its texture holds the frame's
/// rows in reverse order and nothing else.
pub fn draw_call(camera: Camera, format: &FrameFormat, payload: &[u8], flip: Flip) -> (call: Option<
    DrawCall,
>)
    ensures
        is_draw_of(call, camera, *format, payload@, flip),
        call matches Some(c) ==> forall|row: int, col: int|
            0 <= row < format.height && 0 <= col < format.width ==> #[trigger] rgb_at(
                c.texture@,
                format.width as nat,
                row,
                col,
            ) == rgb_at(payload@, format.width as nat, format.height - 1 - row, col),
{
    match Texture::from_frame(format, payload) {
        Some(texture) => Some(
            DrawCall { camera, texture, mask: camera.mask(), mirror: flip.mirror() },
        ),
        None => None,
    }
}

/// What one tick draws: the first camera's quad, then the second's.
pub struct TickPlan {
    pub first: Option<DrawCall>,
    pub second: Option<DrawCall>,
}

/// Plans a tick from the payloads that were copied out of the two stores.
pub fn plan_tick(
    first_format: &FrameFormat,
    first_payload: &[u8],
    first_flip: Flip,
    second_format: &FrameFormat,
    second_payload: &[u8],
    second_flip: Flip,
) -> (plan: TickPlan)
    ensures
        is_draw_of(plan.first, Camera::First, *first_format, first_payload@, first_flip),
        is_draw_of(plan.second, Camera::Second, *second_format, second_payload@, second_flip),
{
    TickPlan {
        first: draw_call(Camera::First, first_format, first_payload, first_flip),
        second: draw_call(Camera::Second, second_format, second_payload, second_flip),
    }
}

/// Plans a tick from the two stores. Each store is locked only while its
/// payload is copied out; textures are built from the copies. What the
/// stores hold at that moment is for the capture threads to say; the plan
/// is the one that [`plan_tick`] makes of two payloads that are each empty
/// or one whole frame, so a store without a frame contributes no draw
/// call and a store with a frame contributes that frame.
pub fn plan_from_stores(
    first: &SharedFrameStore,
    first_flip: Flip,
    second: &SharedFrameStore,
    second_flip: Flip,
) -> (plan: TickPlan)
    ensures
        exists|first_payload: Seq<u8>|
            consistent(first.spec_format(), first_payload.len()) && #[trigger] is_draw_of(
                plan.first,
                Camera::First,
                first.spec_format(),
                first_payload,
                first_flip,
            ),
        exists|second_payload: Seq<u8>|
            consistent(second.spec_format(), second_payload.len()) && #[trigger] is_draw_of(
                plan.second,
                Camera::Second,
                second.spec_format(),
                second_payload,
                second_flip,
            ),
{
    let first_payload = first.snapshot();
    let second_payload = second.snapshot();
    let first_format = first.format();
    let second_format = second.format();
    let plan = plan_tick(
        &first_format,
        first_payload.as_slice(),
        first_flip,
        &second_format,
        second_payload.as_slice(),
        second_flip,
    );
    assert(is_draw_of(plan.first, Camera::First, first_format, first_payload@, first_flip));
    assert(is_draw_of(plan.second, Camera::Second, second_format, second_payload@, second_flip));
    plan
}

} // verus!
