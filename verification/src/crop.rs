use vstd::prelude::*;
use crate::coords::{lemma_coords_inside_frame, lemma_coords_round_trip};
use crate::error::FrameError;
use crate::frame::{FrameModel, GrayFrame};

verus! {

/// Where a window of `window` pixels starts along an axis of `extent` pixels
/// when it is centred on `center`: half the window before the centre, stopped
/// at zero, then pulled back so that the window ends inside the axis.
pub open spec fn crop_origin(center: int, window: int, extent: int) -> int {
    let start = if center - window / 2 < 0 {
        0
    } else {
        center - window / 2
    };
    if start <= extent - window {
        start
    } else {
        extent - window
    }
}

/// Whether `region` holds, pixel for pixel, the part of `source` whose
/// top-left corner is `(x, y)`.
pub open spec fn is_region_of(region: FrameModel, source: FrameModel, x: int, y: int) -> bool {
    &&& region.wf()
    &&& forall|i: int, j: int|
        region.contains(i, j) ==> #[trigger] region.pixel(i, j) == source.pixel(x + i, y + j)
}

/// A window that fits the axis never leaves it, wherever its centre lies.
pub proof fn lemma_crop_origin_inside(center: int, window: int, extent: int)
    requires
        0 <= window <= extent,
    ensures
        0 <= crop_origin(center, window, extent),
        crop_origin(center, window, extent) + window <= extent,
{
}

/// A window whose centred position lies inside the axis is not moved.
pub proof fn lemma_crop_origin_centred(center: int, window: int, extent: int)
    requires
        0 <= window,
        0 <= center - window / 2,
        center - window / 2 + window <= extent,
    ensures
        crop_origin(center, window, extent) == center - window / 2,
{
}

/// The size of a region, the frame it is taken from and its corner leave no
/// choice: two regions that agree in these are the same frame.
pub proof fn lemma_region_is_determined(
    first: FrameModel,
    second: FrameModel,
    source: FrameModel,
    x: int,
    y: int,
)
    requires
        first.width == second.width,
        first.height == second.height,
        is_region_of(first, source, x, y),
        is_region_of(second, source, x, y),
    ensures
        first == second,
{
    assert forall|k: int| 0 <= k < first.pixels.len() implies first.pixels[k] == second.pixels[k] by {
        let width = first.width as int;
        let height = first.height as int;
        assert(width > 0) by (nonlinear_arith)
            requires
                0 <= k < width * height,
                0 <= width,
                0 <= height,
        ;
        lemma_coords_round_trip(width, k);
        lemma_coords_inside_frame(width, height, k);
        let i = k % width;
        let j = k / width;
        assert(first.contains(i, j) && second.contains(i, j));
        assert(first.pixel(i, j) == source.pixel(x + i, y + j));
        assert(second.pixel(i, j) == source.pixel(x + i, y + j));
    }
    assert(first.pixels =~= second.pixels);
}

/// The region of a frame's own size in its top-left corner is the frame.
pub proof fn lemma_whole_frame_region(region: FrameModel, source: FrameModel)
    requires
        source.wf(),
        region.width == source.width,
        region.height == source.height,
        is_region_of(region, source, 0, 0),
    ensures
        region == source,
{
    assert(is_region_of(source, source, 0, 0));
    lemma_region_is_determined(region, source, source, 0, 0);
}

/// The start of the window along one axis.
fn window_origin(center: u32, window: u32, extent: u32) -> (origin: u32)
    requires
        window <= extent,
    ensures
        origin == crop_origin(center as int, window as int, extent as int),
        origin + window <= extent,
{
    let start: u32 = center.saturating_sub(window / 2);
    let limit: u32 = extent - window;
    if start <= limit {
        start
    } else {
        limit
    }
}

/// Copies the `width` by `height` region whose top-left corner is `(x, y)`
/// out of `source`, by `image::imageops::crop` followed by
/// `SubImage::to_image`, on an `ImageBuffer` made of the frame's buffer with
/// `from_raw` and taken apart again with `into_raw`.
///
/// For a region that lies inside the source, `crop` leaves the four
/// coordinates as they are, and `to_image` allocates a buffer of the region's
/// size and fills its pixel `(i, j)` with the source's pixel `(x + i, y + j)`.
/// An `ImageBuffer` of single-channel pixels keeps the pixel `(x, y)` at
/// position `y * width + x` of its buffer, as a frame does.
#[verifier::external_body]
fn copy_region(source: &GrayFrame, x: u32, y: u32, width: u32, height: u32) -> (region: GrayFrame)
    requires
        source@.wf(),
        x + width <= source@.width,
        y + height <= source@.height,
    ensures
        region@.width == width,
        region@.height == height,
        is_region_of(region@, source@, x as int, y as int),
{
    let raw = source.data.clone();
    let mut image = image::GrayImage::from_raw(source.width, source.height, raw).unwrap();
    let region = image::imageops::crop(&mut image, x, y, width, height).to_image();
    GrayFrame { width: region.width(), height: region.height(), data: region.into_raw() }
}

/// Cuts a `window_width` by `window_height` window out of `input_frame`,
/// centred on `center` as far as the frame allows.
///
/// The window's corner is `center` less half the window, stopped at zero, and
/// then moved back until the window ends inside the frame: a centre at or
/// beyond an edge shifts the window, it never shrinks it. A window wider or
/// taller than the frame is rejected with `InvalidArgument`.
pub fn window_crop(
    input_frame: &GrayFrame,
    window_width: u32,
    window_height: u32,
    center: (u32, u32),
) -> (r: Result<GrayFrame, FrameError>)
    ensures
        window_width > input_frame@.width || window_height > input_frame@.height
            ==> r == Err::<GrayFrame, FrameError>(FrameError::InvalidArgument),
        window_width <= input_frame@.width && window_height <= input_frame@.height ==> r is Ok,
        r matches Ok(window) ==> window@.width == window_width && window@.height == window_height,
        r matches Ok(window) ==> is_region_of(
            window@,
            input_frame@,
            crop_origin(center.0 as int, window_width as int, input_frame@.width as int),
            crop_origin(center.1 as int, window_height as int, input_frame@.height as int),
        ),
{
    if window_width > input_frame.width() || window_height > input_frame.height() {
        return Err(FrameError::InvalidArgument);
    }
    proof {
        use_type_invariant(input_frame);
    }
    let x: u32 = window_origin(center.0, window_width, input_frame.width());
    let y: u32 = window_origin(center.1, window_height, input_frame.height());
    Ok(copy_region(input_frame, x, y, window_width, window_height))
}

} // verus!
