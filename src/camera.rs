use vstd::prelude::*;

verus! {

/// Why a camera configuration was refused.
#[derive(Debug, Clone, Copy, PartialEq, Eq, Structural)]
pub enum ConfigError {
    /// The image has no columns.
    ZeroWidth,
    /// The image has no rows.
    ZeroHeight,
    /// No sample ray would be traced for a pixel.
    ZeroSamples,
    /// `width * height` does not fit in `usize`.
    TooManyPixels,
}

/// The integer part of a camera: image size, samples per pixel and bounce
/// budget.
#[derive(Debug, Clone, Copy)]
pub struct RenderSettings {
    pub width: usize,
    pub height: usize,
    pub samples: usize,
    pub max_bounces: usize,
}

impl RenderSettings {
    /// Every dimension and the sample count are positive, and the pixel
    /// count fits in `usize`.
    pub open spec fn wf(&self) -> bool {
        &&& self.width > 0
        &&& self.height > 0
        &&& self.samples > 0
        &&& self.width * self.height <= usize::MAX
    }

    /// Checks a configuration, refusing empty images and zero samples.
    pub fn new(width: usize, height: usize, samples: usize, max_bounces: usize) -> (r: Result<
        RenderSettings,
        ConfigError,
    >)
        ensures
            width == 0 ==> r == Err::<RenderSettings, ConfigError>(ConfigError::ZeroWidth),
            width > 0 && height == 0 ==> r == Err::<RenderSettings, ConfigError>(
                ConfigError::ZeroHeight,
            ),
            width > 0 && height > 0 && samples == 0 ==> r == Err::<RenderSettings, ConfigError>(
                ConfigError::ZeroSamples,
            ),
            width > 0 && height > 0 && samples > 0 && width * height > usize::MAX ==> r == Err::<
                RenderSettings,
                ConfigError,
            >(ConfigError::TooManyPixels),
            width > 0 && height > 0 && samples > 0 && width * height <= usize::MAX ==> r == Ok::<
                RenderSettings,
                ConfigError,
            >((RenderSettings { width, height, samples, max_bounces })),
            r is Ok ==> r->Ok_0.wf(),
    {
        if width == 0 {
            return Err(ConfigError::ZeroWidth);
        }
        if height == 0 {
            return Err(ConfigError::ZeroHeight);
        }
        if samples == 0 {
            return Err(ConfigError::ZeroSamples);
        }
        if height > usize::MAX / width {
            assert(width * height > usize::MAX) by (nonlinear_arith)
                requires
                    width > 0,
                    height > usize::MAX / width,
            ;
            return Err(ConfigError::TooManyPixels);
        }
        assert(width * height <= usize::MAX) by (nonlinear_arith)
            requires
                width > 0,
                height <= usize::MAX / width,
        ;
        Ok(RenderSettings { width, height, samples, max_bounces })
    }

    /// Number of pixels in the image.
    pub fn pixel_count(&self) -> (r: usize)
        requires
            self.wf(),
        ensures
            r == self.width * self.height,
    {
        self.width * self.height
    }

    /// Column and row of the pixel at row-major position `index`.
    pub fn pixel_position(&self, index: usize) -> (r: (usize, usize))
        requires
            self.wf(),
            index < self.width * self.height,
        ensures
            r.0 < self.width,
            r.1 < self.height,
            r.1 * self.width + r.0 == index,
    {
        let x = index % self.width;
        let y = index / self.width;
        assert(y * self.width + x == index) by (nonlinear_arith)
            requires
                self.width > 0,
                x == index % self.width,
                y == index / self.width,
        ;
        assert(y < self.height) by (nonlinear_arith)
            requires
                self.width > 0,
                y * self.width + x == index,
                x >= 0,
                index < self.width * self.height,
        ;
        (x, y)
    }
}

} // verus!
