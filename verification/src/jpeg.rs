//! What a JPEG buffer declares, before it is decoded.
//!
//! A Motion-JPEG device delivers baseline images of the negotiated size.
//! The decoder reads far more than that, and on some of it it does not
//! behave: its row and column counters are sixteen bits wide and run over
//! for frames of more than 65528 lines or columns, it writes the samples
//! of lossless frames in the byte order of the machine, and its buffers
//! for a very large frame need not fit a small machine's address range.
//!
//! So the frame header of a buffer is found and read before the buffer is
//! decoded. The header is looked for the way the decoder looks for it. The
//! buffer has to begin with the start-of-image marker. From there on a
//! marker is found by passing over every byte up to a byte `0xFF`, over
//! any further `0xFF` behind it, and, where a zero follows, over that as
//! well. A table, restart-interval, comment or application segment is
//! passed over by the length it declares, whatever it holds. The first
//! start-of-frame marker reached that way opens the frame header; any
//! other marker, a length that cannot be, or the end of the buffer means
//! that there is none, and the decoder will say so itself.
//!
//! The header gives the start-of-frame code, the number of lines, the
//! number of columns and the number of components. A buffer is beyond the
//! decoder's limits when its frame header is not baseline, is cut short,
//! or declares sides that the decoder cannot count or buffers that the
//! machine cannot hold. Such a buffer is not decoded.

use vstd::prelude::*;

verus! {

/// The most lines, and the most columns, that a frame header may declare.
/// The decoder counts blocks of eight in sixteen bits; one block more than
/// this and the count times eight no longer fits.
pub const MAX_SIDE: u16 = 65528;

/// The start-of-frame code of a baseline frame.
pub const BASELINE: u8 = 0xC0;

/// `code` is a start-of-frame code: one of 0xC0 to 0xCF, without the three
/// codes of that range that open other segments (Huffman tables, the
/// reserved extension, arithmetic conditioning).
pub open spec fn spec_is_frame_code(code: u8) -> bool {
    0xC0 <= code <= 0xCF && code != 0xC4 && code != 0xC8 && code != 0xCC
}

/// `code` opens a segment that may stand before the frame header and is
/// passed over by its length: Huffman tables, quantization tables, the
/// restart interval, a comment, or application data.
pub open spec fn spec_is_segment_code(code: u8) -> bool {
    code == 0xC4 || code == 0xDB || code == 0xDD || code == 0xFE || 0xE0 <= code <= 0xEF
}

/// Whether `code` is a start-of-frame code.
#[verifier::when_used_as_spec(spec_is_frame_code)]
pub fn is_frame_code(code: u8) -> (frame: bool)
    ensures
        frame == spec_is_frame_code(code),
{
    0xC0 <= code && code <= 0xCF && code != 0xC4 && code != 0xC8 && code != 0xCC
}

/// Whether `code` opens a segment that is passed over by its length.
#[verifier::when_used_as_spec(spec_is_segment_code)]
pub fn is_segment_code(code: u8) -> (segment: bool)
    ensures
        segment == spec_is_segment_code(code),
{
    code == 0xC4 || code == 0xDB || code == 0xDD || code == 0xFE || (0xE0 <= code && code <= 0xEF)
}

/// The length that the segment whose marker stands at `at` declares. It
/// counts its own two bytes.
pub open spec fn declared_length(data: Seq<u8>, at: int) -> int {
    data[at + 2] * 256 + data[at + 3]
}

/// Where the first frame header stands that is reached by reading markers
/// from `pos` on: the place of the byte `0xFF` before its start-of-frame
/// code. There is none where another marker comes first, where a segment
/// declares a length below two or beyond the end, or where the buffer
/// ends.
pub open spec fn header_from(data: Seq<u8>, pos: int) -> Option<int>
    decreases data.len() - pos,
{
    if pos < 0 || pos + 1 >= data.len() {
        None
    } else if data[pos] != 0xFF {
        header_from(data, pos + 1)
    } else if data[pos + 1] == 0xFF {
        header_from(data, pos + 1)
    } else if data[pos + 1] == 0x00 {
        header_from(data, pos + 2)
    } else if spec_is_frame_code(data[pos + 1]) {
        Some(pos)
    } else if spec_is_segment_code(data[pos + 1]) {
        if pos + 3 >= data.len() || declared_length(data, pos) < 2 || pos + 2 + declared_length(
            data,
            pos,
        ) > data.len() {
            None
        } else {
            header_from(data, pos + 2 + declared_length(data, pos))
        }
    } else {
        None
    }
}

/// Where the frame header of a buffer stands: the first one reached from
/// behind the start-of-image marker, with which the buffer has to begin.
pub open spec fn spec_first_frame_header(data: Seq<u8>) -> Option<int> {
    if data.len() >= 2 && data[0] == 0xFF && data[1] == 0xD8 {
        header_from(data, 2)
    } else {
        None
    }
}

/// What a frame header declares of its picture.
#[derive(Clone, Copy, Debug, PartialEq, Eq, Structural)]
pub struct Shape {
    pub lines: u16,
    pub columns: u16,
    pub components: u8,
}

/// The number of lines that the header at `at` declares.
pub open spec fn declared_lines(data: Seq<u8>, at: int) -> int {
    data[at + 5] * 256 + data[at + 6]
}

/// The number of columns that the header at `at` declares.
pub open spec fn declared_columns(data: Seq<u8>, at: int) -> int {
    data[at + 7] * 256 + data[at + 8]
}

/// What the header at `at` declares.
pub open spec fn shape_at(data: Seq<u8>, at: int) -> Shape {
    Shape {
        lines: declared_lines(data, at) as u16,
        columns: declared_columns(data, at) as u16,
        components: data[at + 9],
    }
}

/// The header at `at` is one the decoder can be given: it is baseline, the
/// buffer holds it as far as its number of components, neither side is
/// beyond [`MAX_SIDE`], and the frame is not too large for the machine.
/// The decoder keeps, for each of up to four components, one byte for
/// every sample of the frame padded to whole blocks, which adds less than
/// 32 to a side; twice the sum of that is asked to lie within the address
/// range.
pub open spec fn header_within_limits(data: Seq<u8>, at: int) -> bool {
    &&& data[at + 1] == BASELINE
    &&& at + 9 < data.len()
    &&& declared_lines(data, at) <= MAX_SIDE
    &&& declared_columns(data, at) <= MAX_SIDE
    &&& 8 * (declared_columns(data, at) + 32) * (declared_lines(data, at) + 32) <= usize::MAX
}

/// What looking a buffer over has found.
#[derive(Clone, Copy, Debug, PartialEq, Eq, Structural)]
pub enum Inspection {
    /// No frame header is reached. The decoder finds no picture either.
    NoHeader,
    /// The frame header is beyond the decoder's limits.
    BeyondLimits,
    /// The frame header is within the limits and declares this.
    Frame(Shape),
}

/// What looking `data` over finds.
pub open spec fn spec_inspect(data: Seq<u8>) -> Inspection {
    match spec_first_frame_header(data) {
        None => Inspection::NoHeader,
        Some(at) => if header_within_limits(data, at) {
            Inspection::Frame(shape_at(data, at))
        } else {
            Inspection::BeyondLimits
        },
    }
}

/// The buffer may be handed to the decoder: its frame header, if it has
/// one, is within the decoder's limits.
pub open spec fn spec_within_decoder_limits(data: Seq<u8>) -> bool {
    !(spec_inspect(data) is BeyondLimits)
}

/// Finds the frame header of a buffer.
pub fn first_frame_header(data: &[u8]) -> (found: Option<usize>)
    ensures
        match found {
            Some(at) => spec_first_frame_header(data@) == Some(at as int),
            None => spec_first_frame_header(data@) is None,
        },
        found matches Some(at) ==> 2 <= at && at + 1 < data@.len() && data@[at as int] == 0xFF
            && spec_is_frame_code(data@[at + 1]),
{
    let len = data.len();
    if len < 2 || data[0] != 0xFF || data[1] != 0xD8 {
        return None;
    }
    let mut pos: usize = 2;
    while len - pos > 1
        invariant
            2 <= pos <= len,
            len == data@.len(),
            header_from(data@, pos as int) == spec_first_frame_header(data@),
        decreases len - pos,
    {
        if data[pos] != 0xFF {
            pos = pos + 1;
        } else {
            let code = data[pos + 1];
            if code == 0xFF {
                pos = pos + 1;
            } else if code == 0x00 {
                pos = pos + 2;
            } else if is_frame_code(code) {
                return Some(pos);
            } else if is_segment_code(code) {
                if len - pos <= 3 {
                    return None;
                }
                let length: usize = (data[pos + 2] as usize) * 256 + (data[pos + 3] as usize);
                if length < 2 || length > len - pos - 2 {
                    return None;
                }
                pos = pos + 2 + length;
            } else {
                return None;
            }
        }
    }
    None
}

/// Checks the frame header at `at` against the decoder's limits.
fn header_fits(data: &[u8], at: usize) -> (fits: bool)
    requires
        at + 1 < data@.len(),
    ensures
        fits == header_within_limits(data@, at as int),
{
    let len = data.len();
    if data[at + 1] != BASELINE || len - at <= 9 {
        return false;
    }
    let lines: u64 = (data[at + 5] as u64) * 256 + (data[at + 6] as u64);
    let columns: u64 = (data[at + 7] as u64) * 256 + (data[at + 8] as u64);
    if lines > MAX_SIDE as u64 || columns > MAX_SIDE as u64 {
        return false;
    }
    assert((columns + 32) * (lines + 32) <= 65560 * 65560) by (nonlinear_arith)
        requires
            0 <= columns <= 65528,
            0 <= lines <= 65528,
    ;
    let padded: u64 = (columns + 32) * (lines + 32);
    assert(8 * (columns + 32) * (lines + 32) == 8 * ((columns + 32) * (lines + 32)))
        by (nonlinear_arith);
    8 * (padded as u128) <= usize::MAX as u128
}

/// Looks a buffer over: finds its frame header, holds it against the
/// decoder's limits and reads what it declares.
pub fn inspect(data: &[u8]) -> (found: Inspection)
    ensures
        found == spec_inspect(data@),
{
    let len = data.len();
    match first_frame_header(data) {
        None => Inspection::NoHeader,
        Some(at) => {
            if header_fits(data, at) {
                assert(at + 9 < len);
                let lines: u16 = (data[at + 5] as u16) * 256 + (data[at + 6] as u16);
                let columns: u16 = (data[at + 7] as u16) * 256 + (data[at + 8] as u16);
                Inspection::Frame(Shape { lines, columns, components: data[at + 9] })
            } else {
                Inspection::BeyondLimits
            }
        },
    }
}

/// Whether a buffer may be handed to the decoder.
pub fn within_decoder_limits(data: &[u8]) -> (fits: bool)
    ensures
        fits == spec_within_decoder_limits(data@),
{
    match inspect(data) {
        Inspection::BeyondLimits => false,
        _ => true,
    }
}

/// A frame header that is found is a marker: the byte `0xFF` with a
/// start-of-frame code behind it, at or behind the place from which it was
/// looked for.
pub proof fn law_header_is_a_frame_marker(data: Seq<u8>, pos: int)
    ensures
        header_from(data, pos) matches Some(at) ==> pos <= at && at + 1 < data.len() && data[at]
            == 0xFF && spec_is_frame_code(data[at + 1]),
    decreases data.len() - pos,
{
    if pos < 0 || pos + 1 >= data.len() {
    } else if data[pos] != 0xFF {
        law_header_is_a_frame_marker(data, pos + 1);
    } else if data[pos + 1] == 0xFF {
        law_header_is_a_frame_marker(data, pos + 1);
    } else if data[pos + 1] == 0x00 {
        law_header_is_a_frame_marker(data, pos + 2);
    } else if spec_is_frame_code(data[pos + 1]) {
    } else if spec_is_segment_code(data[pos + 1]) {
        if !(pos + 3 >= data.len() || declared_length(data, pos) < 2 || pos + 2 + declared_length(
            data,
            pos,
        ) > data.len()) {
            law_header_is_a_frame_marker(data, pos + 2 + declared_length(data, pos));
        }
    }
}

/// What a segment holds is not read: two buffers that differ only inside
/// the segment whose marker stands at `pos`, behind its length, have their
/// frame headers at the same place. A start-of-frame code in a comment is
/// no frame header.
pub proof fn law_segment_is_passed_over(one: Seq<u8>, other: Seq<u8>, pos: int)
    requires
        0 <= pos,
        pos + 3 < one.len(),
        one.len() == other.len(),
        one[pos] == 0xFF,
        spec_is_segment_code(one[pos + 1]),
        2 <= declared_length(one, pos),
        pos + 2 + declared_length(one, pos) <= one.len(),
        forall|i: int|
            0 <= i < one.len() && !(pos + 4 <= i < pos + 2 + declared_length(one, pos)) ==> one[i]
                == other[i],
    ensures
        header_from(one, pos) == header_from(other, pos),
{
    let next = pos + 2 + declared_length(one, pos);
    assert(declared_length(other, pos) == declared_length(one, pos));
    lemma_same_tail(one, other, next);
}

/// Buffers that agree from `pos` on have the same frame header from there.
proof fn lemma_same_tail(one: Seq<u8>, other: Seq<u8>, pos: int)
    requires
        0 <= pos,
        one.len() == other.len(),
        forall|i: int| pos <= i < one.len() ==> one[i] == other[i],
    ensures
        header_from(one, pos) == header_from(other, pos),
    decreases one.len() - pos,
{
    if pos + 1 >= one.len() {
    } else if one[pos] != 0xFF {
        lemma_same_tail(one, other, pos + 1);
    } else if one[pos + 1] == 0xFF {
        lemma_same_tail(one, other, pos + 1);
    } else if one[pos + 1] == 0x00 {
        lemma_same_tail(one, other, pos + 2);
    } else if spec_is_frame_code(one[pos + 1]) {
    } else if spec_is_segment_code(one[pos + 1]) {
        if !(pos + 3 >= one.len() || declared_length(one, pos) < 2 || pos + 2 + declared_length(
            one,
            pos,
        ) > one.len()) {
            assert(declared_length(other, pos) == declared_length(one, pos));
            lemma_same_tail(one, other, pos + 2 + declared_length(one, pos));
        }
    }
}

/// A buffer that does not begin with the start-of-image marker has no
/// frame header, and so has the empty buffer.
pub proof fn law_no_image_no_header(data: Seq<u8>)
    requires
        data.len() < 2 || data[0] != 0xFF || data[1] != 0xD8,
    ensures
        spec_inspect(data) == Inspection::NoHeader,
        spec_within_decoder_limits(data),
{
}

} // verus!
