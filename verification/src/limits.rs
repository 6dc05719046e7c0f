use vstd::prelude::*;

use crate::error::ImageError;
use crate::error::LimitError;
use crate::error::LimitErrorKind;

verus! {

/// Limit categories this adapter knows how to enforce. The adapter's
/// baseline support set covers every category a [`Limits`] value can
/// express, so it carries no data; it exists so the support check is an
/// explicit step of the pipeline, as the host decoder contract demands.
#[derive(Clone, Copy, Debug, PartialEq, Eq, Structural)]
pub struct LimitSupport {
}

impl Default for LimitSupport {
    /// The baseline support set.
    fn default() -> (r: LimitSupport)
        ensures
            r == (LimitSupport {  }),
    {
        LimitSupport {  }
    }
}

/// Resource ceilings a caller may impose before an image is decoded.
/// A ceiling of `None` means the category is unrestricted.
#[derive(Clone, Copy, Debug)]
pub struct Limits {
    /// Maximum permitted image width in pixels.
    pub max_image_width: Option<u32>,
    /// Maximum permitted image height in pixels.
    pub max_image_height: Option<u32>,
    /// Maximum permitted single allocation in bytes. Stored for the host's
    /// bookkeeping; the external engine enforces its own allocation limits.
    pub max_alloc: Option<u64>,
}

impl Limits {
    /// Whether a width of `w` pixels is within the declared width ceiling.
    pub open spec fn spec_fits_width(self, w: u32) -> bool {
        match self.max_image_width {
            Option::Some(max) => w <= max,
            Option::None => true,
        }
    }

    /// Whether a height of `h` pixels is within the declared height ceiling.
    pub open spec fn spec_fits_height(self, h: u32) -> bool {
        match self.max_image_height {
            Option::Some(max) => h <= max,
            Option::None => true,
        }
    }

    /// The unrestricted policy: no ceiling in any category.
    pub fn no_limits() -> (r: Limits)
        ensures
            r.max_image_width is None,
            r.max_image_height is None,
            r.max_alloc is None,
    {
        Limits { max_image_width: None, max_image_height: None, max_alloc: None }
    }

    /// Checks that every category this policy restricts is one the given
    /// support set can enforce. Every category a `Limits` value can express
    /// lies in the baseline support set, so the check never fails; it is
    /// kept as an explicit pipeline step so a policy is vetted before any
    /// dimension comparison touches decoder state.
    pub fn check_support(&self, support: &LimitSupport) -> (r: Result<(), ImageError>)
        ensures
            r is Ok,
    {
        let _ = support;
        Ok(())
    }

    /// Checks the already-known image dimensions against the declared
    /// ceilings, failing exactly when a ceiling is exceeded.
    pub fn check_dimensions(&self, width: u32, height: u32) -> (r: Result<(), ImageError>)
        ensures
            r is Ok <==> self.spec_fits_width(width) && self.spec_fits_height(height),
            r matches Err(e) ==> e matches ImageError::Limits(le) && le.kind
                == LimitErrorKind::DimensionError,
    {
        let width_ok = match self.max_image_width {
            Some(max) => width <= max,
            None => true,
        };
        let height_ok = match self.max_image_height {
            Some(max) => height <= max,
            None => true,
        };
        if width_ok && height_ok {
            Ok(())
        } else {
            Err(ImageError::Limits(LimitError { kind: LimitErrorKind::DimensionError }))
        }
    }
}

} // verus!
