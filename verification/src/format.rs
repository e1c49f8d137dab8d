//! Pixel encodings and frame geometry.
//!
//! A device describes its stream by a width, a height and a four-character
//! code. Two codes are understood here: `RGB3` (three bytes per pixel, no
//! decoding needed) and `MJPG` (one JPEG image per buffer). A
//! [`FrameFormat`] is a device format that has been checked: its encoding is
//! one of the two and neither dimension is zero.

use vstd::prelude::*;

verus! {

/// Bytes per pixel of a decoded frame.
pub const BYTES_PER_PIXEL: u32 = 3;

/// A four-character pixel format code, as video devices report it.
#[derive(Clone, Copy, Debug, PartialEq, Eq, Structural)]
pub struct FourCC {
    pub a: u8,
    pub b: u8,
    pub c: u8,
    pub d: u8,
}

impl FourCC {
    /// The code made of the four given bytes, in order.
    pub fn new(repr: [u8; 4]) -> (code: FourCC)
        ensures
            code == (FourCC { a: repr[0], b: repr[1], c: repr[2], d: repr[3] }),
    {
        FourCC { a: repr[0], b: repr[1], c: repr[2], d: repr[3] }
    }

    /// The four bytes of the code, in order.
    pub fn repr(&self) -> (bytes: [u8; 4])
        ensures
            bytes@ == seq![self.a, self.b, self.c, self.d],
    {
        [self.a, self.b, self.c, self.d]
    }
}

/// How the bytes of a capture buffer encode a picture.
#[derive(Clone, Copy, Debug, PartialEq, Eq, Structural)]
pub enum PixelEncoding {
    /// Row-major RGB, three bytes per pixel.
    RawRGB,
    /// One JPEG image per buffer.
    MotionJPEG,
}

impl PixelEncoding {
    /// The code a device uses for this encoding: `RGB3` or `MJPG`.
    pub open spec fn spec_fourcc(self) -> FourCC {
        match self {
            PixelEncoding::RawRGB => FourCC { a: 0x52, b: 0x47, c: 0x42, d: 0x33 },
            PixelEncoding::MotionJPEG => FourCC { a: 0x4d, b: 0x4a, c: 0x50, d: 0x47 },
        }
    }

    /// The encoding that a code stands for, if it is one of the two.
    pub open spec fn spec_from_fourcc(code: FourCC) -> Option<PixelEncoding> {
        if code == PixelEncoding::RawRGB.spec_fourcc() {
            Some(PixelEncoding::RawRGB)
        } else if code == PixelEncoding::MotionJPEG.spec_fourcc() {
            Some(PixelEncoding::MotionJPEG)
        } else {
            None
        }
    }

    /// The code a device uses for this encoding.
    #[verifier::when_used_as_spec(spec_fourcc)]
    pub fn fourcc(self) -> (code: FourCC)
        ensures
            code == self.spec_fourcc(),
    {
        match self {
            PixelEncoding::RawRGB => FourCC { a: 0x52, b: 0x47, c: 0x42, d: 0x33 },
            PixelEncoding::MotionJPEG => FourCC { a: 0x4d, b: 0x4a, c: 0x50, d: 0x47 },
        }
    }

    /// The encoding that a code stands for, if it is one of the two.
    #[verifier::when_used_as_spec(spec_from_fourcc)]
    pub fn from_fourcc(code: FourCC) -> (encoding: Option<PixelEncoding>)
        ensures
            encoding == PixelEncoding::spec_from_fourcc(code),
    {
        if code == PixelEncoding::RawRGB.fourcc() {
            Some(PixelEncoding::RawRGB)
        } else if code == PixelEncoding::MotionJPEG.fourcc() {
            Some(PixelEncoding::MotionJPEG)
        } else {
            None
        }
    }
}

/// Reading a code back from an encoding gives that encoding.
pub proof fn law_fourcc_round_trip(encoding: PixelEncoding)
    ensures
        PixelEncoding::spec_from_fourcc(encoding.spec_fourcc()) == Some(encoding),
{
}

/// A stream format as a device states it: geometry and a raw code.
///
/// This is what is sent to a device as a request and what the device
/// answers with. Nothing is assumed of it.
#[derive(Clone, Copy, Debug, PartialEq, Eq, Structural)]
pub struct DeviceFormat {
    pub width: u32,
    pub height: u32,
    pub fourcc: FourCC,
}

/// Why a device format cannot serve as a frame format.
#[derive(Clone, Copy, Debug, PartialEq, Eq, Structural)]
pub enum FormatError {
    /// The code is neither `RGB3` nor `MJPG`.
    UnexpectedEncoding,
    /// The width or the height is zero.
    EmptyGeometry,
}

/// The negotiated format of one camera's stream.
///
/// A format is *valid* when neither dimension is zero. Every format that
/// this crate hands out is valid; the functions that take one are total and
/// treat a format without pixels as one that no frame can match.
#[derive(Clone, Copy, Debug, PartialEq, Eq, Structural)]
pub struct FrameFormat {
    pub width: u32,
    pub height: u32,
    pub encoding: PixelEncoding,
}

impl FrameFormat {
    /// Neither dimension is zero.
    pub open spec fn valid(self) -> bool {
        self.width > 0 && self.height > 0
    }

    /// Bytes in one row of a decoded frame.
    pub open spec fn row_len(self) -> nat {
        (self.width * BYTES_PER_PIXEL) as nat
    }

    /// Bytes in one decoded frame: three per pixel, row after row.
    pub open spec fn payload_len(self) -> nat {
        (self.width * self.height * BYTES_PER_PIXEL) as nat
    }

    /// The frame format that a device format stands for.
    pub open spec fn spec_from_device(report: DeviceFormat) -> Result<FrameFormat, FormatError> {
        match PixelEncoding::spec_from_fourcc(report.fourcc) {
            None => Err(FormatError::UnexpectedEncoding),
            Some(encoding) => if report.width == 0 || report.height == 0 {
                Err(FormatError::EmptyGeometry)
            } else {
                Ok(FrameFormat { width: report.width, height: report.height, encoding })
            },
        }
    }

    /// The device format that asks for, or reports, this frame format.
    pub open spec fn spec_to_device(self) -> DeviceFormat {
        DeviceFormat { width: self.width, height: self.height, fourcc: self.encoding.spec_fourcc() }
    }

    /// Checks what a device reported. The code is looked at first, so a
    /// foreign code is reported as such whatever the geometry.
    #[verifier::when_used_as_spec(spec_from_device)]
    pub fn from_device(report: DeviceFormat) -> (format: Result<FrameFormat, FormatError>)
        ensures
            format == FrameFormat::spec_from_device(report),
            format matches Ok(f) ==> f.valid(),
    {
        match PixelEncoding::from_fourcc(report.fourcc) {
            None => Err(FormatError::UnexpectedEncoding),
            Some(encoding) => if report.width == 0 || report.height == 0 {
                Err(FormatError::EmptyGeometry)
            } else {
                Ok(FrameFormat { width: report.width, height: report.height, encoding })
            },
        }
    }

    /// The device format that asks for this frame format.
    #[verifier::when_used_as_spec(spec_to_device)]
    pub fn to_device(self) -> (report: DeviceFormat)
        ensures
            report == self.spec_to_device(),
    {
        DeviceFormat { width: self.width, height: self.height, fourcc: self.encoding.fourcc() }
    }

    /// Whether a payload of `len` bytes is exactly one frame of this format.
    pub fn holds(&self, len: usize) -> (exact: bool)
        ensures
            exact == (len == self.payload_len()),
    {
        assert(self.width * self.height <= 0xffff_ffff * 0xffff_ffff) by (nonlinear_arith)
            requires
                0 <= self.width <= 0xffff_ffff,
                0 <= self.height <= 0xffff_ffff,
        ;
        let pixels: u64 = (self.width as u64) * (self.height as u64);
        let bytes: u128 = (pixels as u128) * (BYTES_PER_PIXEL as u128);
        bytes == len as u128
    }

    /// The size of one frame, where it fits the machine's address range.
    pub fn frame_bytes(&self) -> (len: Option<usize>)
        ensures
            len matches Some(n) ==> n == self.payload_len(),
            len is None <==> self.payload_len() > usize::MAX,
    {
        assert(self.width * self.height <= 0xffff_ffff * 0xffff_ffff) by (nonlinear_arith)
            requires
                0 <= self.width <= 0xffff_ffff,
                0 <= self.height <= 0xffff_ffff,
        ;
        let pixels: u64 = (self.width as u64) * (self.height as u64);
        let bytes: u128 = (pixels as u128) * (BYTES_PER_PIXEL as u128);
        if bytes <= usize::MAX as u128 {
            Some(bytes as usize)
        } else {
            None
        }
    }
}

/// A device format made from a valid frame format reads back as that format.
pub proof fn law_device_round_trip(format: FrameFormat)
    requires
        format.valid(),
    ensures
        FrameFormat::spec_from_device(format.spec_to_device()) == Ok::<FrameFormat, FormatError>(format),
{
}

/// A valid format has at least one row, and its rows tile the payload.
pub proof fn lemma_payload_rows(format: FrameFormat)
    ensures
        format.payload_len() == format.height * format.row_len(),
        format.valid() ==> format.row_len() >= 3 && format.payload_len() >= 3,
{
    assert(format.width * format.height * 3 == format.height * (format.width * 3))
        by (nonlinear_arith);
    if format.valid() {
        assert(format.height * (format.width * 3) >= format.width * 3) by (nonlinear_arith)
            requires
                format.height >= 1,
                format.width >= 1,
        ;
    }
}

} // verus!
