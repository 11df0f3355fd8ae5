//! Render settings: image size, samples per pixel and recursion depth.

use vstd::prelude::*;

verus! {

/// Image width, in pixels, of a scene that names none.
pub const DEFAULT_WIDTH: u32 = 400;

/// Image height, in pixels, of a scene that names none.
pub const DEFAULT_HEIGHT: u32 = 300;

/// Recursion depth of a scene that names none.
pub const DEFAULT_DEPTH: u32 = 8;

/// Samples per pixel of a scene that names none.
pub const DEFAULT_SAMPLES: u32 = 8;

/// How an image is rendered.
#[derive(Clone, Copy, Debug, PartialEq, Eq, Structural)]
pub struct Config {
    /// Image width in pixels.
    pub width: u32,
    /// Image height in pixels.
    pub height: u32,
    /// The number of scatterings after which a light path is cut off.
    pub depth: u32,
    /// The number of light paths averaged into one pixel.
    pub samples: u32,
}

/// The setting that makes a configuration unusable, because it is zero.
#[derive(Clone, Copy, Debug, PartialEq, Eq, Structural)]
pub enum ConfigError {
    Width,
    Height,
    Depth,
    Samples,
}

impl Config {
    pub fn default_height() -> (h: u32)
        ensures
            h == 300,
            h == DEFAULT_HEIGHT,
    {
        DEFAULT_HEIGHT
    }

    pub fn default_width() -> (w: u32)
        ensures
            w == 400,
            w == DEFAULT_WIDTH,
    {
        DEFAULT_WIDTH
    }

    pub fn default_depth() -> (d: u32)
        ensures
            d == 8,
            d == DEFAULT_DEPTH,
    {
        DEFAULT_DEPTH
    }

    pub fn default_samples() -> (s: u32)
        ensures
            s == 8,
            s == DEFAULT_SAMPLES,
    {
        DEFAULT_SAMPLES
    }

    /// A configuration can be rendered when all four settings are positive.
    pub open spec fn is_valid(self) -> bool {
        self.width > 0 && self.height > 0 && self.depth > 0 && self.samples > 0
    }

    /// The first setting that is zero, in the order width, height, depth,
    /// samples; none for a valid configuration.
    pub open spec fn first_fault(self) -> Option<ConfigError> {
        if self.width == 0 {
            Some(ConfigError::Width)
        } else if self.height == 0 {
            Some(ConfigError::Height)
        } else if self.depth == 0 {
            Some(ConfigError::Depth)
        } else if self.samples == 0 {
            Some(ConfigError::Samples)
        } else {
            None
        }
    }

    /// Accepts a configuration exactly when it is valid, and otherwise names
    /// the first setting that is zero.
    pub fn validate(&self) -> (r: Result<(), ConfigError>)
        ensures
            r is Ok <==> self.is_valid(),
            r is Err ==> self.first_fault() == Some(r->Err_0),
    {
        if self.width == 0 {
            Err(ConfigError::Width)
        } else if self.height == 0 {
            Err(ConfigError::Height)
        } else if self.depth == 0 {
            Err(ConfigError::Depth)
        } else if self.samples == 0 {
            Err(ConfigError::Samples)
        } else {
            Ok(())
        }
    }

    /// The settings after the caller's overrides: each setting for which a
    /// value is given takes that value, the others stay.
    pub fn overridden(
        self,
        width: Option<u32>,
        height: Option<u32>,
        depth: Option<u32>,
        samples: Option<u32>,
    ) -> (c: Config)
        ensures
            c.width == (if let Some(w) = width { w } else { self.width }),
            c.height == (if let Some(h) = height { h } else { self.height }),
            c.depth == (if let Some(d) = depth { d } else { self.depth }),
            c.samples == (if let Some(s) = samples { s } else { self.samples }),
    {
        let mut c = self;
        if let Some(w) = width {
            c.width = w;
        }
        if let Some(h) = height {
            c.height = h;
        }
        if let Some(d) = depth {
            c.depth = d;
        }
        if let Some(s) = samples {
            c.samples = s;
        }
        c
    }
}

impl Default for Config {
    fn default() -> (c: Config)
        ensures
            c == (Config { width: 400, height: 300, depth: 8, samples: 8 }),
    {
        Config {
            width: DEFAULT_WIDTH,
            height: DEFAULT_HEIGHT,
            depth: DEFAULT_DEPTH,
            samples: DEFAULT_SAMPLES,
        }
    }
}

/// The default configuration can be rendered.
pub proof fn lemma_default_is_valid()
    ensures
        (Config { width: DEFAULT_WIDTH, height: DEFAULT_HEIGHT, depth: DEFAULT_DEPTH, samples: DEFAULT_SAMPLES }).is_valid(),
{
}

} // verus!
