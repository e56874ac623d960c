use vstd::prelude::*;
use crate::error::FrameError;
use crate::frame::{FrameModel, GrayFrame};

verus! {

/// Makes a `width` by `height` frame out of a buffer of intensities, one per
/// pixel in row-major order.
///
/// Fails with `LengthMismatch` unless the buffer holds exactly
/// `width * height` values; the buffer itself is left as it was.
pub fn to_imgbuf(buf: &Vec<u8>, width: u32, height: u32) -> (r: Result<GrayFrame, FrameError>)
    ensures
        buf@.len() != width * height
            ==> r == Err::<GrayFrame, FrameError>(FrameError::LengthMismatch),
        buf@.len() == width * height ==> r is Ok,
        r matches Ok(frame) ==> frame@ == (FrameModel {
            width: width as nat,
            height: height as nat,
            pixels: buf@,
        }),
{
    let data: Vec<u8> = buf.clone();
    assert(data@ == buf@);
    GrayFrame::from_raw(width, height, data)
}

} // verus!
