use vstd::prelude::*;
use vstd::arithmetic::div_mod::{lemma_fundamental_div_mod, lemma_fundamental_div_mod_converse};
use crate::error::FrameError;

verus! {

/// Position of the pixel `(x, y)` in a row-major buffer whose rows hold
/// `width` values.
pub open spec fn linear_index(width: int, x: int, y: int) -> int {
    y * width + x
}

/// The coordinates `(x, y)` that a position in a row-major buffer stands for.
pub open spec fn coords_of(width: int, index: int) -> (int, int) {
    (index % width, index / width)
}

/// Maps a position in a flattened buffer to the coordinates it stands for:
/// `x` is `index` modulo `width`, `y` is `(index - x) / width`.
///
/// A zero `width` is rejected with `InvalidArgument`; every other input
/// succeeds.
pub fn index_to_coords(width: u32, index: u32) -> (r: Result<(u32, u32), FrameError>)
    ensures
        width == 0 ==> r == Err::<(u32, u32), FrameError>(FrameError::InvalidArgument),
        width != 0 ==> r == Ok::<(u32, u32), FrameError>(
            ((index % width) as u32, (index / width) as u32),
        ),
        r matches Ok(p) ==> p.0 < width,
        r matches Ok(p) ==> linear_index(width as int, p.0 as int, p.1 as int) == index,
        width != 0 && index == 0 ==> r == Ok::<(u32, u32), FrameError>((0u32, 0u32)),
{
    let x: u32 = match index.checked_rem(width) {
        Some(x) => x,
        None => {
            return Err(FrameError::InvalidArgument);
        },
    };
    proof {
        lemma_fundamental_div_mod(index as int, width as int);
        lemma_fundamental_div_mod_converse(
            index as int - x as int,
            width as int,
            index as int / width as int,
            0,
        );
        assert(width as int * (index as int / width as int) == (index as int / width as int)
            * width as int) by (nonlinear_arith);
    }
    let y: u32 = (index - x) / width;
    Ok((x, y))
}

/// Mapping a position to coordinates and back gives the position again.
pub proof fn lemma_coords_round_trip(width: int, index: int)
    requires
        width > 0,
        index >= 0,
    ensures
        0 <= coords_of(width, index).0 < width,
        0 <= coords_of(width, index).1,
        linear_index(width, coords_of(width, index).0, coords_of(width, index).1) == index,
{
    lemma_fundamental_div_mod(index, width);
    assert(width * (index / width) == (index / width) * width) by (nonlinear_arith);
    assert(index / width >= 0) by (nonlinear_arith)
        requires
            width > 0,
            index >= 0,
    ;
}

/// Laying a pixel out in a row-major buffer and mapping its position back
/// gives the pixel's coordinates again.
pub proof fn lemma_index_round_trip(width: int, x: int, y: int)
    requires
        0 <= x < width,
        0 <= y,
    ensures
        linear_index(width, x, y) >= 0,
        coords_of(width, linear_index(width, x, y)) == (x, y),
{
    assert(y * width >= 0) by (nonlinear_arith)
        requires
            width > 0,
            y >= 0,
    ;
    assert(y * width + x == width * y + x) by (nonlinear_arith);
    lemma_fundamental_div_mod_converse(y * width + x, width, y, x);
}

/// Every position below `width * height` maps to a coordinate inside a frame
/// of that size: `x < width` and `y < height`.
pub proof fn lemma_coords_inside_frame(width: int, height: int, index: int)
    requires
        width > 0,
        0 <= index < width * height,
    ensures
        0 <= coords_of(width, index).0 < width,
        0 <= coords_of(width, index).1 < height,
{
    lemma_coords_round_trip(width, index);
    let x = index % width;
    let y = index / width;
    if y >= height {
        assert(y * width >= height * width) by (nonlinear_arith)
            requires
                y >= height,
                width > 0,
        ;
        assert(height * width == width * height) by (nonlinear_arith);
    }
}

/// Every pixel of a frame has a position below `width * height`.
pub proof fn lemma_index_inside_buffer(width: int, height: int, x: int, y: int)
    requires
        0 <= x < width,
        0 <= y < height,
    ensures
        0 <= linear_index(width, x, y) < width * height,
{
    assert(0 <= y * width <= (height - 1) * width) by (nonlinear_arith)
        requires
            0 <= y <= height - 1,
            width > 0,
    ;
    assert((height - 1) * width == width * height - width) by (nonlinear_arith);
}

} // verus!
