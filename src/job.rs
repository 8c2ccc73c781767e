use vstd::prelude::*;

use crate::framebuffer::{buffer_len, rgb_len};

verus! {

/// Why a set of render parameters was refused.
#[derive(Clone, Copy, Debug, PartialEq, Eq, Structural)]
pub enum RenderError {
    /// The image has no pixels: its width or its height is zero.
    EmptyImage,
    /// Zero samples per pixel leave every pixel's average undefined.
    NoSamples,
    /// The RGB buffer of the image would not fit in memory.
    TooLarge,
}

/// The parameters of one render, checked: a non-empty image whose RGB buffer
/// fits in `usize`, and at least one sample per pixel.
#[derive(Clone, Copy, Debug)]
pub struct RenderJob {
    width: usize,
    height: usize,
    samples_per_pixel: usize,
    max_depth: usize,
}

impl RenderJob {
    pub closed spec fn width_spec(&self) -> nat {
        self.width as nat
    }

    pub closed spec fn height_spec(&self) -> nat {
        self.height as nat
    }

    pub closed spec fn samples_spec(&self) -> nat {
        self.samples_per_pixel as nat
    }

    pub closed spec fn depth_spec(&self) -> nat {
        self.max_depth as nat
    }

    pub open spec fn wf(&self) -> bool {
        &&& self.width_spec() > 0
        &&& self.height_spec() > 0
        &&& self.samples_spec() > 0
        &&& rgb_len(self.width_spec(), self.height_spec()) <= usize::MAX
    }

    /// Checks the parameters of a render. Refused, in this order: an empty
    /// image, zero samples per pixel, an image whose buffer would not fit in
    /// memory. Any depth limit is accepted; zero renders black.
    pub fn new(width: usize, height: usize, samples_per_pixel: usize, max_depth: usize) -> (r:
        Result<RenderJob, RenderError>)
        ensures
            r is Ok <==> width > 0 && height > 0 && samples_per_pixel > 0 && rgb_len(
                width as nat,
                height as nat,
            ) <= usize::MAX,
            r is Ok ==> r->Ok_0.wf() && r->Ok_0.width_spec() == width && r->Ok_0.height_spec()
                == height && r->Ok_0.samples_spec() == samples_per_pixel
                && r->Ok_0.depth_spec() == max_depth,
            r == Err::<RenderJob, RenderError>(RenderError::EmptyImage) <==> width == 0 || height
                == 0,
            r == Err::<RenderJob, RenderError>(RenderError::NoSamples) <==> width > 0 && height
                > 0 && samples_per_pixel == 0,
            r == Err::<RenderJob, RenderError>(RenderError::TooLarge) <==> width > 0 && height
                > 0 && samples_per_pixel > 0 && rgb_len(width as nat, height as nat)
                > usize::MAX,
    {
        if width == 0 || height == 0 {
            return Err(RenderError::EmptyImage);
        }
        if samples_per_pixel == 0 {
            return Err(RenderError::NoSamples);
        }
        match buffer_len(width, height) {
            Some(_) => Ok(RenderJob { width, height, samples_per_pixel, max_depth }),
            None => Err(RenderError::TooLarge),
        }
    }

    pub fn width(&self) -> (r: usize)
        ensures
            r == self.width_spec(),
    {
        self.width
    }

    pub fn height(&self) -> (r: usize)
        ensures
            r == self.height_spec(),
    {
        self.height
    }

    pub fn samples_per_pixel(&self) -> (r: usize)
        ensures
            r == self.samples_spec(),
    {
        self.samples_per_pixel
    }

    pub fn max_depth(&self) -> (r: usize)
        ensures
            r == self.depth_spec(),
    {
        self.max_depth
    }

    /// Number of pixels of the image.
    pub fn pixel_count(&self) -> (r: usize)
        requires
            self.wf(),
        ensures
            r == self.width_spec() * self.height_spec(),
    {
        proof {
            assert(self.width * self.height <= 3 * (self.width * self.height)) by (nonlinear_arith);
        }
        self.width * self.height
    }

    /// The divisor that maps a column (a row) plus jitter in [0, 1) onto the
    /// viewport's [0, 1]: the extent less one, or one for an extent of one
    /// pixel, which samples its single column (row) across the whole viewport.
    pub fn span(extent: usize) -> (r: usize)
        ensures
            extent > 1 ==> r == extent - 1,
            extent <= 1 ==> r == 1,
    {
        if extent > 1 {
            extent - 1
        } else {
            1
        }
    }
}

} // verus!
