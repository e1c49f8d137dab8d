//! From a delivered capture buffer to a published frame.
//!
//! A capture thread waits for its device to hand over a filled buffer and
//! then calls [`publish_buffer`]. The buffer is read according to the
//! negotiated encoding: direct RGB is taken as it is, Motion-JPEG is
//! decoded. A Motion-JPEG buffer is decoded if its frame header is
//! baseline and declares a colour picture of the negotiated geometry. What
//! comes out is published only if it is exactly one frame of that
//! geometry. Every other buffer is skipped: the store keeps its frame and
//! capture goes on.
//!
//! An encoding other than the two cannot reach this stage: a
//! [`FrameFormat`] has no way to name one, and
//! [`FrameFormat::from_device`] refuses a device format that does.

use vstd::prelude::*;
use vstd::slice::slice_to_vec;
use crate::format::{FrameFormat, PixelEncoding};
use crate::jpeg::{inspect, spec_inspect, spec_within_decoder_limits, Inspection, Shape};
use crate::store::{consistent, FrameSlot, SharedFrameStore};

verus! {

/// Buffers that a capture queue is set up with: one being filled while the
/// other is read.
pub const STREAM_BUFFERS: u32 = 2;

/// The pixel bytes that the JPEG decoder makes of `data`, or `None` where
/// it reads no image from `data`. It is spoken of only for buffers that
/// are handed to the decoder; nothing more is known of it here.
pub uninterp spec fn jpeg_pixels(data: Seq<u8>) -> Option<Seq<u8>>;

/// `jpeg_decoder::Error`, the decoder's account of a failure. Only that
/// there was a failure is taken from it.
#[verifier::external_type_specification]
#[verifier::external_body]
pub struct ExJpegError(jpeg_decoder::Error);

/// Decodes a JPEG image with `jpeg_decoder::Decoder::new(data).decode()`.
///
/// Trusted, not proved: for a buffer whose frame header, if it has one, is
/// within the decoder's limits, the decoder returns, and what it returns
/// depends on the bytes of `data` alone. The contract gives that answer
/// the name [`jpeg_pixels`]: the pixels where the decoder succeeds, `None`
/// where it reports an error. It claims nothing about what the pixels are
/// or how many.
///
/// The limits keep away what the decoder does not do alike everywhere:
/// frames whose sides overrun its sixteen-bit block counters, lossless
/// frames, whose samples it writes in the machine's byte order, and frames
/// too large for the machine. Two features of the decoder's build are
/// relied on as well: it is built without its platform-specific code
/// paths, and with its rayon worker, so that it starts no threads of its
/// own.
#[verifier::external_body]
fn decode_jpeg(data: &[u8]) -> (decoded: Result<Vec<u8>, jpeg_decoder::Error>)
    requires
        spec_within_decoder_limits(data@),
    ensures
        match decoded {
            Ok(pixels) => jpeg_pixels(data@) == Some(pixels@),
            Err(_) => jpeg_pixels(data@) is None,
        },
{
    jpeg_decoder::Decoder::new(data).decode()
}

/// Why a buffer did not become a frame.
#[derive(Clone, Copy, Debug, PartialEq, Eq, Structural)]
pub enum Rejection {
    /// The decoder read no picture from the buffer.
    Undecodable,
    /// The buffer was not decoded: its frame header is not baseline, is cut
    /// short, or declares a picture too large for the decoder or the
    /// machine.
    Unsupported,
    /// The buffer was not decoded: its frame header declares a picture of
    /// another geometry than the negotiated one, or not of three
    /// components.
    WrongShape { lines: u16, columns: u16, components: u8 },
    /// The pixels come to `len` bytes, which is not one frame.
    WrongSize { len: usize },
}

/// What became of a delivered buffer.
#[derive(Clone, Copy, Debug, PartialEq, Eq, Structural)]
pub enum Outcome {
    /// Its frame is now the latest.
    Published,
    /// It was dropped; the latest frame is the one before.
    Skipped(Rejection),
}

/// Components of a colour picture.
pub const COLOUR_COMPONENTS: u8 = 3;

/// A frame header declares a colour picture of the format's geometry.
pub open spec fn spec_shape_fits(format: FrameFormat, shape: Shape) -> bool {
    shape.columns == format.width && shape.lines == format.height && shape.components
        == COLOUR_COMPONENTS
}

/// Whether a frame header declares a colour picture of the format's
/// geometry.
pub fn shape_fits(format: &FrameFormat, shape: Shape) -> (fits: bool)
    ensures
        fits == spec_shape_fits(*format, shape),
{
    shape.columns as u32 == format.width && shape.lines as u32 == format.height
        && shape.components == COLOUR_COMPONENTS
}

/// What the decoder makes of a buffer that is handed to it.
pub open spec fn decoder_result(data: Seq<u8>) -> Result<Seq<u8>, Rejection> {
    match jpeg_pixels(data) {
        Some(pixels) => Ok(pixels),
        None => Err(Rejection::Undecodable),
    }
}

/// The pixel bytes a buffer stands for under a format. Under direct RGB
/// they are the buffer itself. A Motion-JPEG buffer is looked over first:
/// beyond the decoder's limits it is unsupported; with a frame header of
/// another shape than the format's it is of the wrong shape; otherwise the
/// pixels are what the decoder makes of it.
pub open spec fn spec_decoded(format: FrameFormat, data: Seq<u8>) -> Result<Seq<u8>, Rejection> {
    match format.encoding {
        PixelEncoding::RawRGB => Ok(data),
        PixelEncoding::MotionJPEG => match spec_inspect(data) {
            Inspection::BeyondLimits => Err(Rejection::Unsupported),
            Inspection::Frame(shape) => if spec_shape_fits(format, shape) {
                decoder_result(data)
            } else {
                Err(
                    Rejection::WrongShape {
                        lines: shape.lines,
                        columns: shape.columns,
                        components: shape.components,
                    },
                )
            },
            Inspection::NoHeader => decoder_result(data),
        },
    }
}

/// The frame that decoded pixels make, or the reason they make none.
pub open spec fn spec_whole_frame(
    format: FrameFormat,
    decoded: Result<Seq<u8>, Rejection>,
) -> Result<Seq<u8>, Rejection> {
    match decoded {
        Err(rejection) => Err(rejection),
        Ok(pixels) => if pixels.len() == format.payload_len() {
            Ok(pixels)
        } else {
            Err(Rejection::WrongSize { len: pixels.len() as usize })
        },
    }
}

/// The frame that a buffer delivers under a format.
pub open spec fn spec_frame(format: FrameFormat, data: Seq<u8>) -> Result<Seq<u8>, Rejection> {
    spec_whole_frame(format, spec_decoded(format, data))
}

/// The payload of a slot after one more buffer.
pub open spec fn payload_after(format: FrameFormat, before: Seq<u8>, data: Seq<u8>) -> Seq<u8> {
    match spec_frame(format, data) {
        Ok(pixels) => pixels,
        Err(_) => before,
    }
}

/// What is reported for a buffer.
pub open spec fn outcome_of(format: FrameFormat, data: Seq<u8>) -> Outcome {
    match spec_frame(format, data) {
        Ok(_) => Outcome::Published,
        Err(rejection) => Outcome::Skipped(rejection),
    }
}

/// The bytes of pixels that were decoded, or the reason there are none.
pub open spec fn view_of(decoded: Result<Vec<u8>, Rejection>) -> Result<Seq<u8>, Rejection> {
    match decoded {
        Ok(pixels) => Ok(pixels@),
        Err(rejection) => Err(rejection),
    }
}

/// Hands a buffer to the decoder and keeps of a failure only that it was
/// one.
fn run_decoder(data: &[u8]) -> (decoded: Result<Vec<u8>, Rejection>)
    requires
        spec_within_decoder_limits(data@),
    ensures
        view_of(decoded) == decoder_result(data@),
{
    match decode_jpeg(data) {
        Ok(pixels) => Ok(pixels),
        Err(_) => Err(Rejection::Undecodable),
    }
}

/// Reads a buffer according to the format. A Motion-JPEG buffer is looked
/// over first and handed to the decoder only if its frame header is within
/// the decoder's limits and declares a colour picture of the format's
/// geometry, or if it has no frame header at all, which the decoder then
/// reports.
pub fn decode(format: &FrameFormat, data: &[u8]) -> (decoded: Result<Vec<u8>, Rejection>)
    ensures
        view_of(decoded) == spec_decoded(*format, data@),
{
    match format.encoding {
        PixelEncoding::RawRGB => Ok(slice_to_vec(data)),
        PixelEncoding::MotionJPEG => match inspect(data) {
            Inspection::BeyondLimits => Err(Rejection::Unsupported),
            Inspection::Frame(shape) => if shape_fits(format, shape) {
                run_decoder(data)
            } else {
                Err(
                    Rejection::WrongShape {
                        lines: shape.lines,
                        columns: shape.columns,
                        components: shape.components,
                    },
                )
            },
            Inspection::NoHeader => run_decoder(data),
        },
    }
}

/// Lets decoded pixels pass if they are exactly one frame of `format`, and
/// passes a rejection on.
pub fn whole_frame(format: &FrameFormat, decoded: Result<Vec<u8>, Rejection>) -> (frame: Result<
    Vec<u8>,
    Rejection,
>)
    ensures
        view_of(frame) == spec_whole_frame(*format, view_of(decoded)),
{
    match decoded {
        Err(rejection) => Err(rejection),
        Ok(pixels) => if format.holds(pixels.len()) {
            Ok(pixels)
        } else {
            Err(Rejection::WrongSize { len: pixels.len() })
        },
    }
}

/// Decodes a buffer and checks its size: the frame it delivers, or why it
/// delivers none.
pub fn frame_from_buffer(format: &FrameFormat, data: &[u8]) -> (frame: Result<Vec<u8>, Rejection>)
    ensures
        view_of(frame) == spec_frame(*format, data@),
{
    whole_frame(format, decode(format, data))
}

/// Handles one delivered buffer for a slot: its frame replaces the slot's
/// payload, or the slot stays as it is.
pub fn ingest(slot: &mut FrameSlot, data: &[u8]) -> (outcome: Outcome)
    ensures
        final(slot).spec_format() == old(slot).spec_format(),
        final(slot)@ == payload_after(old(slot).spec_format(), old(slot)@, data@),
        outcome == outcome_of(old(slot).spec_format(), data@),
{
    let format = slot.format();
    match frame_from_buffer(&format, data) {
        Ok(pixels) => {
            let accepted = slot.replace(pixels);
            assert(accepted);
            Outcome::Published
        },
        Err(rejection) => Outcome::Skipped(rejection),
    }
}

/// Handles one delivered buffer for a shared store. Decoding happens
/// before the store's lock is taken. The frame is published exactly when
/// the outcome says so.
pub fn publish_buffer(store: &SharedFrameStore, data: &[u8]) -> (outcome: Outcome)
    ensures
        outcome == outcome_of(store.spec_format(), data@),
{
    let format = store.format();
    match frame_from_buffer(&format, data) {
        Ok(pixels) => {
            let accepted = store.publish(pixels);
            assert(accepted);
            Outcome::Published
        },
        Err(rejection) => Outcome::Skipped(rejection),
    }
}

/// The bytes of each buffer of a batch.
pub open spec fn views_of(deliveries: Seq<Vec<u8>>) -> Seq<Seq<u8>> {
    Seq::new(deliveries.len(), |i: int| deliveries[i]@)
}

/// How many buffers of a run deliver a frame.
pub open spec fn published_count(format: FrameFormat, deliveries: Seq<Seq<u8>>) -> nat
    decreases deliveries.len(),
{
    if deliveries.len() == 0 {
        0
    } else {
        published_count(format, deliveries.drop_last()) + (if spec_frame(
            format,
            deliveries.last(),
        ) is Ok {
            1nat
        } else {
            0nat
        })
    }
}

/// The payload of a slot after a run of buffers, handled in order.
pub open spec fn payload_after_all(
    format: FrameFormat,
    before: Seq<u8>,
    deliveries: Seq<Seq<u8>>,
) -> Seq<u8>
    decreases deliveries.len(),
{
    if deliveries.len() == 0 {
        before
    } else {
        payload_after(
            format,
            payload_after_all(format, before, deliveries.drop_last()),
            deliveries.last(),
        )
    }
}

/// Handles a run of delivered buffers in order, as [`ingest`] does one by
/// one, and counts those that were published.
pub fn ingest_all(slot: &mut FrameSlot, deliveries: &Vec<Vec<u8>>) -> (published: usize)
    ensures
        final(slot).spec_format() == old(slot).spec_format(),
        final(slot)@ == payload_after_all(
            old(slot).spec_format(),
            old(slot)@,
            views_of(deliveries@),
        ),
        published == published_count(old(slot).spec_format(), views_of(deliveries@)),
{
    let ghost format = slot.spec_format();
    let ghost before = slot@;
    let ghost all = views_of(deliveries@);
    let mut published: usize = 0;
    let mut next: usize = 0;
    assert(all.take(0) =~= Seq::<Seq<u8>>::empty());
    while next < deliveries.len()
        invariant
            next <= deliveries.len(),
            all == views_of(deliveries@),
            slot.spec_format() == format,
            slot@ == payload_after_all(format, before, all.take(next as int)),
            published == published_count(format, all.take(next as int)),
            published <= next,
        decreases deliveries.len() - next,
    {
        let outcome = ingest(slot, deliveries[next].as_slice());
        proof {
            let done = all.take(next as int + 1);
            assert(done.drop_last() =~= all.take(next as int));
            assert(done.last() == deliveries@[next as int]@);
        }
        match outcome {
            Outcome::Published => {
                published = published + 1;
            },
            Outcome::Skipped(_) => {},
        }
        next = next + 1;
    }
    assert(all.take(next as int) =~= all);
    published
}

/// Where every buffer of a run delivers a frame, every one is published.
pub proof fn lemma_all_good_all_published(format: FrameFormat, deliveries: Seq<Seq<u8>>)
    requires
        forall|i: int| 0 <= i < deliveries.len() ==> spec_frame(format, #[trigger] deliveries[i]) is Ok,
    ensures
        published_count(format, deliveries) == deliveries.len(),
    decreases deliveries.len(),
{
    if deliveries.len() > 0 {
        let front = deliveries.drop_last();
        assert forall|i: int| 0 <= i < front.len() implies spec_frame(format, #[trigger] front[i]) is Ok by {
            assert(front[i] == deliveries[i]);
        }
        lemma_all_good_all_published(format, front);
    }
}

/// A run of buffers of which exactly one, wherever it stands, delivers no
/// frame updates the slot once for each of the others and not for that one.
pub proof fn law_one_bad_buffer_is_skipped(format: FrameFormat, deliveries: Seq<Seq<u8>>, bad: int)
    requires
        0 <= bad < deliveries.len(),
        spec_frame(format, deliveries[bad]) is Err,
        forall|i: int|
            0 <= i < deliveries.len() && i != bad ==> spec_frame(format, #[trigger] deliveries[i]) is Ok,
    ensures
        published_count(format, deliveries) == deliveries.len() - 1,
    decreases deliveries.len(),
{
    let front = deliveries.drop_last();
    if bad == deliveries.len() - 1 {
        assert forall|i: int| 0 <= i < front.len() implies spec_frame(format, #[trigger] front[i]) is Ok by {
            assert(front[i] == deliveries[i]);
        }
        lemma_all_good_all_published(format, front);
    } else {
        assert(front[bad] == deliveries[bad]);
        assert forall|i: int| 0 <= i < front.len() && i != bad implies spec_frame(
            format,
            #[trigger] front[i],
        ) is Ok by {
            assert(front[i] == deliveries[i]);
        }
        law_one_bad_buffer_is_skipped(format, front, bad);
        assert(spec_frame(format, deliveries[deliveries.len() - 1]) is Ok);
    }
}

/// Whatever is delivered, a payload that was empty or one whole frame is
/// empty or one whole frame afterwards, and a buffer that is skipped
/// leaves it untouched.
pub proof fn law_payload_stays_whole(format: FrameFormat, before: Seq<u8>, deliveries: Seq<Seq<u8>>)
    requires
        consistent(format, before.len()),
    ensures
        consistent(format, payload_after_all(format, before, deliveries).len()),
        deliveries.len() > 0 && spec_frame(format, deliveries.last()) is Err
            ==> payload_after_all(format, before, deliveries) == payload_after_all(
            format,
            before,
            deliveries.drop_last(),
        ),
    decreases deliveries.len(),
{
    if deliveries.len() > 0 {
        law_payload_stays_whole(format, before, deliveries.drop_last());
    }
}

/// A slot to which no buffer has delivered a frame holds what it held at
/// the start: a camera that has produced nothing yet leaves its slot empty.
pub proof fn law_nothing_delivered_nothing_changed(
    format: FrameFormat,
    before: Seq<u8>,
    deliveries: Seq<Seq<u8>>,
)
    requires
        forall|i: int|
            0 <= i < deliveries.len() ==> spec_frame(format, #[trigger] deliveries[i]) is Err,
    ensures
        payload_after_all(format, before, deliveries) == before,
        published_count(format, deliveries) == 0,
    decreases deliveries.len(),
{
    if deliveries.len() > 0 {
        let front = deliveries.drop_last();
        assert forall|i: int| 0 <= i < front.len() implies spec_frame(
            format,
            #[trigger] front[i],
        ) is Err by {
            assert(front[i] == deliveries[i]);
        }
        law_nothing_delivered_nothing_changed(format, before, front);
        assert(spec_frame(format, deliveries[deliveries.len() - 1]) is Err);
    }
}

/// A Motion-JPEG buffer whose frame header is beyond the decoder's limits
/// delivers no frame, and neither does one whose frame header declares
/// another shape than the format's. Either is skipped without being
/// decoded and leaves the payload as it was.
pub proof fn law_unfit_buffer_is_skipped(format: FrameFormat, before: Seq<u8>, data: Seq<u8>)
    requires
        format.encoding == PixelEncoding::MotionJPEG,
    ensures
        spec_inspect(data) is BeyondLimits ==> outcome_of(format, data) == Outcome::Skipped(
            Rejection::Unsupported,
        ) && payload_after(format, before, data) == before,
        spec_inspect(data) matches Inspection::Frame(shape) ==> (!spec_shape_fits(format, shape)
            ==> outcome_of(format, data) == Outcome::Skipped(
            Rejection::WrongShape {
                lines: shape.lines,
                columns: shape.columns,
                components: shape.components,
            },
        ) && payload_after(format, before, data) == before),
{
}

/// A Motion-JPEG buffer that is handed to the decoder, and of which the
/// decoder makes one frame's worth of pixels, is published, and its pixels
/// are the payload. A buffer is handed on when its frame header is
/// baseline, within the limits, and declares a colour picture of the
/// format's geometry.
pub proof fn law_decoded_frame_is_published(
    format: FrameFormat,
    before: Seq<u8>,
    data: Seq<u8>,
    pixels: Seq<u8>,
)
    requires
        format.encoding == PixelEncoding::MotionJPEG,
        spec_inspect(data) matches Inspection::Frame(shape) && spec_shape_fits(format, shape),
        jpeg_pixels(data) == Some(pixels),
        pixels.len() == format.payload_len(),
    ensures
        outcome_of(format, data) == Outcome::Published,
        payload_after(format, before, data) == pixels,
{
}

/// A Motion-JPEG frame that is published came from a buffer whose frame
/// header declares a colour picture of the format's geometry, unless the
/// buffer has no frame header that this crate can find.
pub proof fn law_published_frame_has_the_shape(format: FrameFormat, data: Seq<u8>)
    requires
        format.encoding == PixelEncoding::MotionJPEG,
        spec_frame(format, data) is Ok,
    ensures
        spec_inspect(data) matches Inspection::Frame(shape) ==> spec_shape_fits(format, shape),
        !(spec_inspect(data) is BeyondLimits),
{
}

/// Every frame that a buffer delivers has the size of the negotiated
/// geometry, three bytes per pixel, under either encoding.
pub proof fn law_frames_have_frame_size(format: FrameFormat, data: Seq<u8>)
    ensures
        spec_frame(format, data) matches Ok(pixels) ==> pixels.len() == format.width
            * format.height * 3,
        format.encoding == PixelEncoding::RawRGB ==> (spec_frame(format, data) is Ok
            <==> data.len() == format.payload_len()),
        format.encoding == PixelEncoding::RawRGB && spec_frame(format, data) is Ok
            ==> spec_frame(format, data)->Ok_0 == data,
{
}

} // verus!
