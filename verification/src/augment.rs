use vstd::prelude::*;
use crate::error::FrameError;
use crate::frame::GrayFrame;

verus! {

/// The rotation angles of the training variants, in hundredths of a radian,
/// in the order in which the variants are produced.
pub const ROTATION_STEPS: [i32; 16] = [
    2,
    -2,
    5,
    -5,
    7,
    -7,
    9,
    -9,
    110,
    -110,
    130,
    -130,
    150,
    -150,
    200,
    -200,
];

/// The scale factors of the training variants, in hundredths, in the order in
/// which the variants are produced.
pub const SCALE_STEPS: [i32; 4] = [80, 90, 110, 120];

/// One geometric perturbation of a frame. The resampler that carries it out
/// picks the nearest source pixel and fills what the source does not cover
/// with intensity zero; the result has the size of the source.
#[derive(Debug, Clone, Copy, PartialEq, Eq, Structural)]
pub enum Transform {
    /// A clockwise rotation about the frame's centre by `hundredths / 100`
    /// radians.
    Rotate { hundredths: i32 },
    /// A scaling about the frame's centre by the factor `hundredths / 100`.
    Scale { hundredths: i32 },
}

/// The rotations of the training variants, in order.
pub open spec fn rotation_transforms() -> Seq<Transform> {
    Seq::new(16, |k: int| Transform::Rotate { hundredths: ROTATION_STEPS[k] })
}

/// The scalings of the training variants, in order.
pub open spec fn scale_transforms() -> Seq<Transform> {
    Seq::new(4, |k: int| Transform::Scale { hundredths: SCALE_STEPS[k] })
}

/// Where a sequence of variants stands: what it will ask for, how much of
/// that has been produced, and the size every variant must have.
pub struct SequenceModel {
    pub transforms: Seq<Transform>,
    pub produced: nat,
    pub width: nat,
    pub height: nat,
}

impl SequenceModel {
    /// No more variants have been produced than there are transforms.
    pub open spec fn wf(self) -> bool {
        self.produced <= self.transforms.len()
    }

    /// How many variants are still to come.
    pub open spec fn remaining(self) -> nat {
        (self.transforms.len() - self.produced) as nat
    }

    /// The transform that makes the next variant, if one is left.
    pub open spec fn pending(self) -> Option<Transform> {
        if self.produced < self.transforms.len() {
            Some(self.transforms[self.produced as int])
        } else {
            None
        }
    }

    /// Whether `variant` can be the next one of the sequence: one is still
    /// due, and the variant has the size of the source frame.
    pub open spec fn accepts(self, variant: GrayFrame) -> bool {
        &&& self.produced < self.transforms.len()
        &&& variant@.width == self.width
        &&& variant@.height == self.height
    }

    /// The sequence after one more variant.
    pub open spec fn advanced(self) -> SequenceModel {
        SequenceModel { produced: self.produced + 1, ..self }
    }

    /// The sequence after `count` more variants.
    pub open spec fn after(self, count: nat) -> SequenceModel {
        SequenceModel { produced: self.produced + count, ..self }
    }
}

/// Neither family of variants is empty: there are sixteen rotations and four
/// scalings.
pub proof fn lemma_variant_families_are_not_empty()
    ensures
        rotation_transforms().len() == 16,
        scale_transforms().len() == 4,
{
}

/// However many variants a sequence has yielded, the next one that it accepts
/// has the size that the sequence started with, and accepting it moves the
/// sequence on by one.
pub proof fn lemma_accepted_variants_keep_size(
    sequence: SequenceModel,
    yielded: nat,
    variant: GrayFrame,
)
    requires
        sequence.after(yielded).accepts(variant),
    ensures
        variant@.width == sequence.width,
        variant@.height == sequence.height,
        sequence.after(yielded).advanced() == sequence.after(yielded + 1),
        sequence.after(yielded).remaining() == sequence.after(yielded + 1).remaining() + 1,
{
}

/// A finite sequence of perturbed copies of one frame, produced one at a
/// time. The sequence names the transform that is due (`pending`); whoever
/// drives it resamples the source frame accordingly and hands the result to
/// `accept`, which yields it as the next variant.
#[derive(Debug)]
pub struct VariantSequence {
    transforms: Vec<Transform>,
    produced: usize,
    width: u32,
    height: u32,
}

impl View for VariantSequence {
    type V = SequenceModel;

    closed spec fn view(&self) -> SequenceModel {
        SequenceModel {
            transforms: self.transforms@,
            produced: self.produced as nat,
            width: self.width as nat,
            height: self.height as nat,
        }
    }
}

impl VariantSequence {
    #[verifier::type_invariant]
    pub open spec fn well_formed(&self) -> bool {
        self@.wf()
    }

    /// The transform that makes the next variant, or `None` once every
    /// variant has been produced.
    pub fn pending(&self) -> (next: Option<Transform>)
        ensures
            next == self@.pending(),
    {
        if self.produced < self.transforms.len() {
            Some(self.transforms[self.produced])
        } else {
            None
        }
    }

    /// How many variants are still to come.
    pub fn remaining(&self) -> (n: usize)
        ensures
            n == self@.remaining(),
    {
        proof {
            use_type_invariant(self);
        }
        self.transforms.len() - self.produced
    }

    /// Takes what the resampler made of the pending transform and yields it
    /// as the next variant of the sequence.
    ///
    /// A variant is yielded only if one is due and it has the width and the
    /// height of the source frame; the sequence then moves on by one. Anything
    /// else is rejected with `InvalidArgument`, and the sequence stays where it
    /// was.
    pub fn accept(&mut self, variant: GrayFrame) -> (r: Result<GrayFrame, FrameError>)
        ensures
            old(self)@.accepts(variant) ==> r == Ok::<GrayFrame, FrameError>(variant),
            old(self)@.accepts(variant) ==> final(self)@ == old(self)@.advanced(),
            !old(self)@.accepts(variant)
                ==> r == Err::<GrayFrame, FrameError>(FrameError::InvalidArgument),
            !old(self)@.accepts(variant) ==> final(self)@ == old(self)@,
            r matches Ok(yielded) ==> yielded@.width == old(self)@.width,
            r matches Ok(yielded) ==> yielded@.height == old(self)@.height,
    {
        if self.produced < self.transforms.len() && variant.width() == self.width
            && variant.height() == self.height {
            self.produced = self.produced + 1;
            Ok(variant)
        } else {
            Err(FrameError::InvalidArgument)
        }
    }
}

/// The rotation variants of `frame`: sixteen of them, one for each angle of
/// `ROTATION_STEPS` in order, each of the size of `frame`. Every call starts
/// a fresh sequence.
pub fn rotated_frames(frame: &GrayFrame) -> (sequence: VariantSequence)
    ensures
        sequence@ == (SequenceModel {
            transforms: rotation_transforms(),
            produced: 0,
            width: frame@.width,
            height: frame@.height,
        }),
        sequence@.remaining() == 16,
        sequence@.pending() == Some(Transform::Rotate { hundredths: 2 }),
{
    let mut transforms: Vec<Transform> = Vec::new();
    let mut k: usize = 0;
    while k < 16
        invariant
            k <= 16,
            transforms@ == rotation_transforms().subrange(0, k as int),
        decreases 16 - k,
    {
        transforms.push(Transform::Rotate { hundredths: ROTATION_STEPS[k] });
        k = k + 1;
    }
    assert(transforms@ == rotation_transforms());
    VariantSequence { transforms, produced: 0, width: frame.width(), height: frame.height() }
}

/// The scale variants of `frame`: four of them, one for each factor of
/// `SCALE_STEPS` in order, each of the size of `frame`. Every call starts a
/// fresh sequence.
pub fn scaled_frames(frame: &GrayFrame) -> (sequence: VariantSequence)
    ensures
        sequence@ == (SequenceModel {
            transforms: scale_transforms(),
            produced: 0,
            width: frame@.width,
            height: frame@.height,
        }),
        sequence@.remaining() == 4,
        sequence@.pending() == Some(Transform::Scale { hundredths: 80 }),
{
    let mut transforms: Vec<Transform> = Vec::new();
    let mut k: usize = 0;
    while k < 4
        invariant
            k <= 4,
            transforms@ == scale_transforms().subrange(0, k as int),
        decreases 4 - k,
    {
        transforms.push(Transform::Scale { hundredths: SCALE_STEPS[k] });
        k = k + 1;
    }
    assert(transforms@ == scale_transforms());
    VariantSequence { transforms, produced: 0, width: frame.width(), height: frame.height() }
}

} // verus!
