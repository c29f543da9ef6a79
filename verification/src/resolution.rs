//! Window sizes as they are configured: in physical or in logical pixels.

use vstd::prelude::*;

verus! {

/// The smallest dimension that a size floor may have.
pub const MIN_WINDOW_SIZE: u32 = 1;

/// A window size, in physical or in logical pixels: width, then height.
#[derive(Clone, Copy, PartialEq, Eq, Structural, Debug)]
pub enum ResolutionConfig {
    Physical(u32, u32),
    Logical(u32, u32),
}

/// `dimension`, or the smallest admissible dimension where it is zero.
pub open spec fn at_least_one(dimension: u32) -> u32 {
    if dimension == 0 {
        MIN_WINDOW_SIZE
    } else {
        dimension
    }
}

impl ResolutionConfig {
    /// The width, in the unit of the variant.
    pub open spec fn spec_width(&self) -> u32 {
        match *self {
            ResolutionConfig::Physical(w, _) => w,
            ResolutionConfig::Logical(w, _) => w,
        }
    }

    /// The height, in the unit of the variant.
    pub open spec fn spec_height(&self) -> u32 {
        match *self {
            ResolutionConfig::Physical(_, h) => h,
            ResolutionConfig::Logical(_, h) => h,
        }
    }

    /// The same size in the same unit, with each zero dimension raised to the
    /// smallest admissible one.
    pub open spec fn non_zero(self) -> ResolutionConfig {
        match self {
            ResolutionConfig::Physical(w, h) => ResolutionConfig::Physical(
                at_least_one(w),
                at_least_one(h),
            ),
            ResolutionConfig::Logical(w, h) => ResolutionConfig::Logical(
                at_least_one(w),
                at_least_one(h),
            ),
        }
    }

    /// The width, in the unit of the variant.
    #[verifier::when_used_as_spec(spec_width)]
    pub fn width(&self) -> (w: u32)
        ensures
            w == self.spec_width(),
    {
        match self {
            ResolutionConfig::Physical(w, _) => *w,
            ResolutionConfig::Logical(w, _) => *w,
        }
    }

    /// The height, in the unit of the variant.
    #[verifier::when_used_as_spec(spec_height)]
    pub fn height(&self) -> (h: u32)
        ensures
            h == self.spec_height(),
    {
        match self {
            ResolutionConfig::Physical(_, h) => *h,
            ResolutionConfig::Logical(_, h) => *h,
        }
    }

    /// Raises each zero dimension to the smallest admissible one, in place,
    /// and returns the result.
    pub fn ensure_non_zero(&mut self) -> (r: ResolutionConfig)
        ensures
            *final(self) == old(self).non_zero(),
            r == old(self).non_zero(),
            r.spec_width() >= 1 && r.spec_height() >= 1,
    {
        let fixed = match *self {
            ResolutionConfig::Physical(w, h) => ResolutionConfig::Physical(
                raise_to_one(w),
                raise_to_one(h),
            ),
            ResolutionConfig::Logical(w, h) => ResolutionConfig::Logical(
                raise_to_one(w),
                raise_to_one(h),
            ),
        };
        *self = fixed;
        fixed
    }
}

fn raise_to_one(dimension: u32) -> (r: u32)
    ensures
        r == at_least_one(dimension),
{
    if dimension == 0 {
        MIN_WINDOW_SIZE
    } else {
        dimension
    }
}

} // verus!
