//! USB camera device `/dev/cvi-camera`: ioctl numbers, the information
//! record, the validation of captured MJPEG frames and the capture retries.
use vstd::prelude::*;

use crate::errno::AxError;

verus! {

pub const CAMERA_FORMAT_MJPEG: u8 = 1;
/// Frames shorter than this are treated as truncated.
pub const MIN_VALID_JPEG_BYTES: usize = 4096;
pub const CVI_CAMERA_IOCTL_INIT: u32 = 1;
pub const CVI_CAMERA_IOCTL_GET_INFO: u32 = 2;
pub const CVI_CAMERA_IOCTL_GET_FRAME: u32 = 3;
pub const CVI_CAMERA_IOCTL_GET_YUV_FRAME: u32 = 4;
/// Capture attempts (with session re-establishment in between) per frame.
pub const FRAME_ATTEMPTS: u32 = 2;

/// Camera information returned by `CVI_CAMERA_IOCTL_GET_INFO`.
#[derive(Clone, Copy, Debug, PartialEq, Eq, Structural)]
pub struct CameraInfo {
    pub width: u16,
    pub height: u16,
    /// 1 means MJPEG.
    pub format: u8,
    pub connected: u8,
}

/// Information record of a session streaming `width` x `height` MJPEG.
pub fn camera_info(width: u16, height: u16, connected: bool) -> (i: CameraInfo)
    ensures
        i == (CameraInfo { width, height, format: CAMERA_FORMAT_MJPEG, connected: if connected { 1u8 } else { 0u8 } }),
{
    CameraInfo { width, height, format: CAMERA_FORMAT_MJPEG, connected: if connected { 1 } else { 0 } }
}

pub open spec fn spec_valid_jpeg(j: Seq<u8>) -> bool {
    let n = j.len();
    n >= MIN_VALID_JPEG_BYTES && j[0] == 0xffu8 && j[1] == 0xd8u8 && j[n - 2] == 0xffu8 && j[n - 1] == 0xd9u8
}

/// Whether a captured frame is a complete JPEG: long enough, starting with
/// the SOI marker and ending with the EOI marker.
pub fn is_valid_jpeg_frame(jpeg: &[u8]) -> (r: bool)
    ensures
        r == spec_valid_jpeg(jpeg@),
{
    let n = jpeg.len();
    let bad_header = n < 2 || jpeg[0] != 0xff || jpeg[1] != 0xd8;
    let bad_footer = n < 2 || jpeg[n - 2] != 0xff || jpeg[n - 1] != 0xd9;
    !(n < MIN_VALID_JPEG_BYTES || bad_header || bad_footer)
}


/// What follows one capture attempt of `CVI_CAMERA_IOCTL_GET_FRAME`.
#[derive(Clone, Copy, Debug, PartialEq, Eq, Structural)]
pub enum FrameStep {
    /// The frame is complete: hand it out.
    Deliver,
    /// Capture again (after tearing the session down when `teardown` is
    /// set, so that it is opened anew).
    Retry { teardown: bool },
    /// Every attempt failed (tearing the session down first when
    /// `teardown` is set): the camera is likely gone.
    GiveUp { teardown: bool },
}

impl FrameStep {
    /// What the frame request returns after this step: `Ok` to hand out
    /// the frame just captured, the I/O error once every attempt failed,
    /// nothing yet while a retry is due.
    pub fn request_result(self) -> (r: Option<Result<(), AxError>>)
        ensures
            self == FrameStep::Deliver ==> r == Some(Ok::<(), AxError>(())),
            self is GiveUp ==> r == Some(Err::<(), AxError>(AxError::Io)),
            self is Retry ==> r is None,
    {
        match self {
            FrameStep::Deliver => Some(Ok(())),
            FrameStep::GiveUp { .. } => Some(Err(AxError::Io)),
            FrameStep::Retry { .. } => None,
        }
    }
}

/// Capture attempts of one frame request.
pub struct FrameAttempts {
    pub attempt: u32,
}

impl FrameAttempts {
    pub fn new() -> (a: FrameAttempts)
        ensures
            a.attempt == 0,
    {
        FrameAttempts { attempt: 0 }
    }

    /// Judges the outcome of capture attempt `self.attempt` (`None` when the
    /// capture itself failed): a complete JPEG is delivered; a truncated one
    /// is dropped; a failed capture tears the session down. Either failure
    /// retries while attempts remain.
    pub fn on_capture(&mut self, jpeg: Option<&[u8]>) -> (step: FrameStep)
        requires
            old(self).attempt < FRAME_ATTEMPTS,
        ensures
            final(self).attempt == old(self).attempt + 1,
            ({
                let teardown = jpeg is None;
                let last = old(self).attempt + 1 >= FRAME_ATTEMPTS;
                step == (match jpeg {
                    Some(j) => if spec_valid_jpeg(j@) {
                        FrameStep::Deliver
                    } else if last {
                        FrameStep::GiveUp { teardown: false }
                    } else {
                        FrameStep::Retry { teardown: false }
                    },
                    None => if last {
                        FrameStep::GiveUp { teardown: true }
                    } else {
                        FrameStep::Retry { teardown: true }
                    },
                })
            }),
    {
        self.attempt = self.attempt + 1;
        let last = self.attempt >= FRAME_ATTEMPTS;
        match jpeg {
            Some(j) => {
                if is_valid_jpeg_frame(j) {
                    FrameStep::Deliver
                } else if last {
                    FrameStep::GiveUp { teardown: false }
                } else {
                    FrameStep::Retry { teardown: false }
                }
            },
            None => {
                if last {
                    FrameStep::GiveUp { teardown: true }
                } else {
                    FrameStep::Retry { teardown: true }
                }
            },
        }
    }
}

} // verus!
