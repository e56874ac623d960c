use vstd::prelude::*;
use crate::coords::{lemma_index_inside_buffer, linear_index};
use crate::error::FrameError;

verus! {

/// What a grayscale frame is: its size and one intensity per pixel, rows
/// first (the pixel `(x, y)` stands at position `y * width + x`).
pub struct FrameModel {
    pub width: nat,
    pub height: nat,
    pub pixels: Seq<u8>,
}

impl FrameModel {
    /// There is exactly one intensity for every pixel.
    pub open spec fn wf(self) -> bool {
        self.pixels.len() == self.width * self.height
    }

    /// Whether `(x, y)` names a pixel of the frame.
    pub open spec fn contains(self, x: int, y: int) -> bool {
        0 <= x < self.width && 0 <= y < self.height
    }

    /// The intensity at `(x, y)`.
    pub open spec fn pixel(self, x: int, y: int) -> u8
        recommends
            self.contains(x, y),
    {
        self.pixels[linear_index(self.width as int, x, y)]
    }

    /// Whether every pixel has intensity zero.
    pub open spec fn is_blank(self) -> bool {
        forall|k: int| 0 <= k < self.pixels.len() ==> self.pixels[k] == 0
    }
}

/// A single-channel frame of 8-bit intensities.
///
/// The buffer always holds `width * height` values in row-major order; no
/// operation of this crate hands out a frame for which that fails.
#[derive(Debug, PartialEq, Eq)]
pub struct GrayFrame {
    pub(crate) width: u32,
    pub(crate) height: u32,
    pub(crate) data: Vec<u8>,
}

impl View for GrayFrame {
    type V = FrameModel;

    closed spec fn view(&self) -> FrameModel {
        FrameModel { width: self.width as nat, height: self.height as nat, pixels: self.data@ }
    }
}

impl Clone for GrayFrame {
    /// A frame of the same size with the same intensities.
    fn clone(&self) -> (copy: GrayFrame)
        ensures
            copy@ == self@,
    {
        proof {
            use_type_invariant(self);
        }
        let data: Vec<u8> = self.data.clone();
        assert(data@ == self.data@);
        GrayFrame { width: self.width, height: self.height, data }
    }
}

impl GrayFrame {
    #[verifier::type_invariant]
    pub open spec fn well_formed(&self) -> bool {
        self@.wf()
    }

    /// A frame of the given size with every intensity zero.
    pub fn new(width: u32, height: u32) -> (frame: GrayFrame)
        requires
            width * height <= usize::MAX,
        ensures
            frame@.wf(),
            frame@.width == width,
            frame@.height == height,
            frame@.is_blank(),
    {
        let len: usize = (width as usize) * (height as usize);
        let data: Vec<u8> = vec![0u8; len];
        GrayFrame { width, height, data }
    }

    /// Takes a row-major buffer as the pixels of a `width` by `height` frame.
    ///
    /// Fails with `LengthMismatch` unless the buffer holds exactly
    /// `width * height` values.
    pub fn from_raw(width: u32, height: u32, data: Vec<u8>) -> (r: Result<GrayFrame, FrameError>)
        ensures
            data@.len() != width * height
                ==> r == Err::<GrayFrame, FrameError>(FrameError::LengthMismatch),
            data@.len() == width * height ==> r is Ok,
            r matches Ok(frame) ==> frame@ == (FrameModel {
                width: width as nat,
                height: height as nat,
                pixels: data@,
            }),
    {
        assert(width * height <= 0xFFFF_FFFF * 0xFFFF_FFFF) by (nonlinear_arith)
            requires
                0 <= width <= 0xFFFF_FFFF,
                0 <= height <= 0xFFFF_FFFF,
        ;
        let expected: u64 = (width as u64) * (height as u64);
        if data.len() as u64 == expected {
            Ok(GrayFrame { width, height, data })
        } else {
            Err(FrameError::LengthMismatch)
        }
    }

    /// The number of pixels in a row.
    pub fn width(&self) -> (w: u32)
        ensures
            w == self@.width,
    {
        self.width
    }

    /// The number of rows.
    pub fn height(&self) -> (h: u32)
        ensures
            h == self@.height,
    {
        self.height
    }

    /// Width and height, in that order.
    pub fn dimensions(&self) -> (d: (u32, u32))
        ensures
            d.0 == self@.width,
            d.1 == self@.height,
    {
        (self.width, self.height)
    }

    /// The intensity at `(x, y)`, which must name a pixel of the frame.
    pub fn get_pixel(&self, x: u32, y: u32) -> (p: u8)
        requires
            self@.contains(x as int, y as int),
        ensures
            p == self@.pixel(x as int, y as int),
    {
        let len: usize = self.data.len();
        proof {
            use_type_invariant(self);
            lemma_index_inside_buffer(self.width as int, self.height as int, x as int, y as int);
            assert(self.width as int * self.height as int == len);
        }
        let index: usize = (y as usize) * (self.width as usize) + (x as usize);
        self.data[index]
    }

    /// The intensity at `(x, y)`, or `None` where `(x, y)` lies outside the
    /// frame.
    pub fn get_pixel_checked(&self, x: u32, y: u32) -> (p: Option<u8>)
        ensures
            self@.contains(x as int, y as int) ==> p == Some(self@.pixel(x as int, y as int)),
            !self@.contains(x as int, y as int) ==> p.is_none(),
    {
        if x < self.width && y < self.height {
            Some(self.get_pixel(x, y))
        } else {
            None
        }
    }

    /// The intensities in row-major order.
    pub fn as_raw(&self) -> (raw: &Vec<u8>)
        ensures
            raw@ == self@.pixels,
            raw@.len() == self@.width * self@.height,
    {
        proof {
            use_type_invariant(self);
        }
        &self.data
    }

    /// Gives up the frame for its intensities in row-major order.
    pub fn into_raw(self) -> (raw: Vec<u8>)
        ensures
            raw@ == self@.pixels,
            raw@.len() == self@.width * self@.height,
    {
        proof {
            use_type_invariant(&self);
        }
        self.data
    }
}

} // verus!
