//! Format negotiation with one capture device.
//!
//! Policy: every attempt asks for the caller's resolution; only the
//! encoding changes between attempts. Direct RGB is asked for first and
//! Motion-JPEG second. After each attempt the device states the format it
//! is now in. The attempt has succeeded when that format carries the
//! encoding that was asked for and has pixels; the geometry the device
//! states is taken as it is, so it may differ from the one asked for, and
//! it is the one to use from then on. When the last attempt has not
//! succeeded the camera cannot be used.
//!
//! Talking to the device is the caller's part. The caller sends the request
//! that [`Negotiator::start`] or [`Negotiator::on_report`] hands out, reads
//! the device's format back, and passes it to [`Negotiator::on_report`],
//! until that returns [`Action::Accept`] or [`Action::Abort`].

use vstd::prelude::*;
use crate::format::{DeviceFormat, FrameFormat, PixelEncoding};

verus! {

/// The encoding tried at a given attempt, in order of preference.
pub open spec fn spec_candidate(attempt: u8) -> Option<PixelEncoding> {
    if attempt == 0 {
        Some(PixelEncoding::RawRGB)
    } else if attempt == 1 {
        Some(PixelEncoding::MotionJPEG)
    } else {
        None
    }
}

/// The encoding tried at a given attempt; none once the list is through.
#[verifier::when_used_as_spec(spec_candidate)]
pub fn candidate(attempt: u8) -> (encoding: Option<PixelEncoding>)
    ensures
        encoding == spec_candidate(attempt),
{
    if attempt == 0 {
        Some(PixelEncoding::RawRGB)
    } else if attempt == 1 {
        Some(PixelEncoding::MotionJPEG)
    } else {
        None
    }
}

/// The device has taken `encoding`: what it reports is a frame format with
/// that encoding.
pub open spec fn accepts(encoding: PixelEncoding, report: DeviceFormat) -> bool {
    FrameFormat::spec_from_device(report) matches Ok(format) && format.encoding == encoding
}

/// Where a negotiation stands.
#[derive(Clone, Copy, Debug, PartialEq, Eq, Structural)]
pub enum Phase {
    /// The request of this attempt is with the device.
    Awaiting { attempt: u8 },
    /// The device runs in this format.
    Settled { format: FrameFormat },
    /// No candidate was taken.
    Failed,
}

/// What the caller does next.
#[derive(Clone, Copy, Debug, PartialEq, Eq, Structural)]
pub enum Action {
    /// Send this request to the device and report its format back.
    Request(DeviceFormat),
    /// Start capturing in this format.
    Accept(FrameFormat),
    /// Give the camera up.
    Abort,
}

/// The negotiation with one device for one target resolution.
#[derive(Clone, Copy, Debug, PartialEq, Eq, Structural)]
pub struct Negotiator {
    pub width: u32,
    pub height: u32,
    pub phase: Phase,
}

impl Negotiator {
    /// The request for `encoding` at the target resolution.
    pub open spec fn spec_request(&self, encoding: PixelEncoding) -> DeviceFormat {
        DeviceFormat { width: self.width, height: self.height, fourcc: encoding.spec_fourcc() }
    }

    /// The state in which the first request is with the device.
    pub open spec fn spec_start(width: u32, height: u32) -> Negotiator {
        Negotiator { width, height, phase: Phase::Awaiting { attempt: 0 } }
    }

    /// The state and the action that follow a report of the device.
    pub open spec fn spec_step(self, report: DeviceFormat) -> (Negotiator, Action) {
        match self.phase {
            Phase::Awaiting { attempt } => match spec_candidate(attempt) {
                None => (Negotiator { phase: Phase::Failed, ..self }, Action::Abort),
                Some(encoding) => if accepts(encoding, report) {
                    let format = FrameFormat::spec_from_device(report)->Ok_0;
                    (Negotiator { phase: Phase::Settled { format }, ..self }, Action::Accept(format))
                } else {
                    match spec_candidate((attempt + 1) as u8) {
                        Some(next) => (
                            Negotiator {
                                phase: Phase::Awaiting { attempt: (attempt + 1) as u8 },
                                ..self
                            },
                            Action::Request(self.spec_request(next)),
                        ),
                        None => (Negotiator { phase: Phase::Failed, ..self }, Action::Abort),
                    }
                },
            },
            Phase::Settled { format } => (self, Action::Accept(format)),
            Phase::Failed => (self, Action::Abort),
        }
    }

    /// The state after the reports of `reports`, fed in order.
    pub open spec fn spec_run(self, reports: Seq<DeviceFormat>) -> Negotiator
        decreases reports.len(),
    {
        if reports.len() == 0 {
            self
        } else {
            self.spec_step(reports[0]).0.spec_run(reports.skip(1))
        }
    }

    /// The request for `encoding` at the target resolution.
    #[verifier::when_used_as_spec(spec_request)]
    pub fn request(&self, encoding: PixelEncoding) -> (wanted: DeviceFormat)
        ensures
            wanted == self.spec_request(encoding),
    {
        DeviceFormat { width: self.width, height: self.height, fourcc: encoding.fourcc() }
    }

    /// Opens a negotiation for the given resolution. The request returned
    /// asks for direct RGB and is the first to send.
    pub fn start(width: u32, height: u32) -> (opened: (Negotiator, DeviceFormat))
        ensures
            opened.0 == Negotiator::spec_start(width, height),
            opened.1 == opened.0.spec_request(PixelEncoding::RawRGB),
    {
        let negotiator = Negotiator { width, height, phase: Phase::Awaiting { attempt: 0 } };
        let first = negotiator.request(PixelEncoding::RawRGB);
        (negotiator, first)
    }

    /// Takes the format that the device reports after the last request and
    /// decides what follows. Once settled or failed, a negotiation stays so
    /// and repeats its verdict.
    pub fn on_report(&mut self, report: DeviceFormat) -> (action: Action)
        ensures
            (*final(self), action) == old(self).spec_step(report),
    {
        match self.phase {
            Phase::Awaiting { attempt } => match candidate(attempt) {
                None => {
                    self.phase = Phase::Failed;
                    Action::Abort
                },
                Some(encoding) => {
                    let taken = match FrameFormat::from_device(report) {
                        Ok(format) => if format.encoding == encoding {
                            Some(format)
                        } else {
                            None
                        },
                        Err(_) => None,
                    };
                    match taken {
                        Some(format) => {
                            self.phase = Phase::Settled { format };
                            Action::Accept(format)
                        },
                        None => match candidate(attempt + 1) {
                            Some(next) => {
                                self.phase = Phase::Awaiting { attempt: attempt + 1 };
                                Action::Request(self.request(next))
                            },
                            None => {
                                self.phase = Phase::Failed;
                                Action::Abort
                            },
                        },
                    }
                },
            },
            Phase::Settled { format } => Action::Accept(format),
            Phase::Failed => Action::Abort,
        }
    }

    /// The format in use, once the negotiation has settled.
    pub fn format(&self) -> (format: Option<FrameFormat>)
        ensures
            format == (match self.phase {
                Phase::Settled { format } => Some(format),
                _ => None,
            }),
    {
        match self.phase {
            Phase::Settled { format } => Some(format),
            _ => None,
        }
    }
}

/// A device that takes direct RGB settles the negotiation at the first
/// report: the format is RGB with the geometry the device states, and
/// Motion-JPEG is never asked for.
pub proof fn law_direct_rgb_is_taken(width: u32, height: u32, report: DeviceFormat)
    requires
        accepts(PixelEncoding::RawRGB, report),
    ensures
        ({
            let (after, action) = Negotiator::spec_start(width, height).spec_step(report);
            let format = FrameFormat {
                width: report.width,
                height: report.height,
                encoding: PixelEncoding::RawRGB,
            };
            &&& format.valid()
            &&& action == Action::Accept(format)
            &&& after.phase == Phase::Settled { format }
            &&& report.width == width && report.height == height ==> format.width == width
                && format.height == height
        }),
{
}

/// A device that refuses direct RGB and takes Motion-JPEG settles the
/// negotiation at the second report: the first report is answered by a
/// request for Motion-JPEG at the target resolution, the second by the
/// Motion-JPEG format the device states. The negotiation does not abort.
pub proof fn law_fallback_to_jpeg(width: u32, height: u32, first: DeviceFormat, second: DeviceFormat)
    requires
        !accepts(PixelEncoding::RawRGB, first),
        accepts(PixelEncoding::MotionJPEG, second),
    ensures
        ({
            let opened = Negotiator::spec_start(width, height);
            let (waiting, retry) = opened.spec_step(first);
            let (after, action) = waiting.spec_step(second);
            let format = FrameFormat {
                width: second.width,
                height: second.height,
                encoding: PixelEncoding::MotionJPEG,
            };
            &&& retry == Action::Request(
                DeviceFormat {
                    width,
                    height,
                    fourcc: PixelEncoding::MotionJPEG.spec_fourcc(),
                },
            )
            &&& format.valid()
            &&& action == Action::Accept(format)
            &&& after.phase == Phase::Settled { format }
            &&& opened.spec_run(seq![first, second]) == after
        }),
{
    let opened = Negotiator::spec_start(width, height);
    let reports = seq![first, second];
    assert(reports.skip(1) =~= seq![second]);
    assert(reports.skip(1).skip(1) =~= Seq::<DeviceFormat>::empty());
    reveal_with_fuel(Negotiator::spec_run, 3);
}

/// A device that takes neither encoding makes the negotiation abort at the
/// second report.
pub proof fn law_exhaustion_aborts(width: u32, height: u32, first: DeviceFormat, second: DeviceFormat)
    requires
        !accepts(PixelEncoding::RawRGB, first),
        !accepts(PixelEncoding::MotionJPEG, second),
    ensures
        ({
            let (waiting, _retry) = Negotiator::spec_start(width, height).spec_step(first);
            let (after, action) = waiting.spec_step(second);
            action == Action::Abort && after.phase == Phase::Failed
        }),
{
}

/// A verdict is final: after `Accept` or `Abort`, every further report is
/// answered by the same action and leaves the state as it is.
pub proof fn law_verdict_is_final(state: Negotiator, report: DeviceFormat, later: DeviceFormat)
    requires
        !(state.spec_step(report).1 is Request),
    ensures
        state.spec_step(report).0.spec_step(later) == state.spec_step(report),
{
}

/// A negotiation that has reached its verdict keeps it, whatever is
/// reported to it afterwards and however often.
pub proof fn law_verdict_survives_reports(state: Negotiator, reports: Seq<DeviceFormat>)
    requires
        !(state.phase is Awaiting),
    ensures
        state.spec_run(reports) == state,
    decreases reports.len(),
{
    if reports.len() > 0 {
        law_verdict_survives_reports(state, reports.skip(1));
    }
}

/// Whatever a device reports, a format that is accepted is valid and has
/// one of the two encodings that were asked for.
pub proof fn law_accepted_format_is_valid(state: Negotiator, report: DeviceFormat)
    requires
        state.phase is Awaiting,
    ensures
        state.spec_step(report).1 matches Action::Accept(format) ==> format.valid()
            && FrameFormat::spec_from_device(report) == Ok::<FrameFormat, crate::format::FormatError>(format),
{
}

} // verus!
