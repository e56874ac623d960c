use vstd::prelude::*;
use crate::coords::{lemma_coords_inside_frame, lemma_index_inside_buffer, lemma_index_round_trip};
use crate::error::FrameError;

verus! {

/// How the cosine window tapers along one axis at one position.
#[derive(Debug, Clone, Copy, PartialEq, Eq, Structural)]
pub enum Taper {
    /// The axis holds a single sample, so there is no border to taper
    /// towards: the window is 1.
    Flat,
    /// The window is the sine of `pi * step / last`, where `last` is the
    /// largest step of the axis: 0 at either border, 1 half-way.
    Sine { step: u32, last: u32 },
}

/// The two tapers that meet at one position of the feature vector. The window
/// there is the smaller of the two.
#[derive(Debug, Clone, Copy, PartialEq, Eq, Structural)]
pub struct WindowSite {
    /// Along the width.
    pub across: Taper,
    /// Along the height.
    pub down: Taper,
}

/// The taper at `step` along an axis of `extent` samples.
pub open spec fn taper_of(step: int, extent: int) -> Taper {
    if extent <= 1 {
        Taper::Flat
    } else {
        Taper::Sine { step: step as u32, last: (extent - 1) as u32 }
    }
}

/// The tapers at a position of the feature vector. Positions are counted with
/// the width outside and the height inside: the position goes up by one with
/// every step down a column, and by `height` with every step across.
pub open spec fn window_site_of(width: int, height: int, position: int) -> WindowSite {
    WindowSite {
        across: taper_of(position / height, width),
        down: taper_of(position % height, height),
    }
}

/// The taper at `step` along an axis of `extent` samples.
fn taper_at(step: u32, extent: u32) -> (taper: Taper)
    ensures
        taper == taper_of(step as int, extent as int),
{
    if extent <= 1 {
        Taper::Flat
    } else {
        Taper::Sine { step, last: extent - 1 }
    }
}

/// Names the two tapers whose smaller value windows the feature at
/// `position`, for a frame of `width` by `height` pixels.
///
/// A position that no pixel of such a frame has is rejected with
/// `InvalidArgument`.
pub fn window_site(width: u32, height: u32, position: usize) -> (r: Result<WindowSite, FrameError>)
    ensures
        position >= width * height
            ==> r == Err::<WindowSite, FrameError>(FrameError::InvalidArgument),
        position < width * height ==> r == Ok::<WindowSite, FrameError>(
            window_site_of(width as int, height as int, position as int),
        ),
{
    assert(width * height <= 0xFFFF_FFFF * 0xFFFF_FFFF) by (nonlinear_arith)
        requires
            0 <= width <= 0xFFFF_FFFF,
            0 <= height <= 0xFFFF_FFFF,
    ;
    let total: u64 = (width as u64) * (height as u64);
    if position as u64 >= total {
        return Err(FrameError::InvalidArgument);
    }
    assert(height > 0 && width > 0) by (nonlinear_arith)
        requires
            0 <= position < width * height,
    ;
    proof {
        assert(height * width == width * height) by (nonlinear_arith);
        lemma_coords_inside_frame(height as int, width as int, position as int);
    }
    let across: usize = position / (height as usize);
    let down: usize = position % (height as usize);
    Ok(WindowSite { across: taper_at(across as u32, width), down: taper_at(down as u32, height) })
}

/// At every position of a frame the step of a sine taper lies between the two
/// borders of its axis, so the sine is taken of an angle between 0 and pi.
pub proof fn lemma_window_site_inside(width: int, height: int, position: int)
    requires
        0 <= width <= u32::MAX,
        0 <= height <= u32::MAX,
        0 <= position < width * height,
    ensures
        window_site_of(width, height, position).across matches Taper::Sine { step, last }
            ==> step <= last && last == width - 1,
        window_site_of(width, height, position).down matches Taper::Sine { step, last }
            ==> step <= last && last == height - 1,
        window_site_of(width, height, position).across is Flat <==> width == 1,
        window_site_of(width, height, position).down is Flat <==> height == 1,
{
    assert(height > 0 && width > 0) by (nonlinear_arith)
        requires
            0 <= position < width * height,
            0 <= width,
            0 <= height,
    ;
    assert(height * width == width * height) by (nonlinear_arith);
    lemma_coords_inside_frame(height, width, position);
}

/// The pixel `i` steps across and `j` steps down is windowed at position
/// `i * height + j`, from which both steps can be read back, so no two pixels
/// share a position.
pub proof fn lemma_window_site_of_pixel(width: int, height: int, i: int, j: int)
    requires
        0 <= i < width,
        0 <= j < height,
    ensures
        0 <= i * height + j < width * height,
        (i * height + j) / height == i,
        (i * height + j) % height == j,
        window_site_of(width, height, i * height + j) == (WindowSite {
            across: taper_of(i, width),
            down: taper_of(j, height),
        }),
{
    lemma_index_round_trip(height, j, i);
    lemma_index_inside_buffer(height, width, j, i);
    assert(height * width == width * height) by (nonlinear_arith);
}

} // verus!
