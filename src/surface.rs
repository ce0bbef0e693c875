//! Surface configuration and the sizes that must follow it: the camera's
//! aspect ratio, its depth buffer and the antialiasing target.

use vstd::prelude::*;

verus! {

/// A width and a height in pixels.
#[derive(Clone, Copy, Debug, PartialEq, Eq, Structural)]
pub struct Extent {
    pub width: u32,
    pub height: u32,
}

impl Extent {
    pub fn new(width: u32, height: u32) -> (e: Extent)
        ensures
            e.width == width,
            e.height == height,
    {
        Extent { width, height }
    }

    /// Whether either dimension is zero.
    pub open spec fn spec_is_empty(&self) -> bool {
        self.width == 0 || self.height == 0
    }

    #[verifier::when_used_as_spec(spec_is_empty)]
    pub fn is_empty(&self) -> (b: bool)
        ensures
            b == self.spec_is_empty(),
    {
        self.width == 0 || self.height == 0
    }
}

/// Why a device, queue or presentable surface could not be set up.
#[derive(Clone, Copy, Debug, PartialEq, Eq, Structural)]
pub enum ContextError {
    AdapterUnavailable,
    DeviceRequestFailed,
    SurfaceConfigurationError,
}

/// Whether index `i` is the format to pick from a capability list whose
/// entries are flagged sRGB or not: the first sRGB entry, or the first
/// entry when none is sRGB.
pub open spec fn is_chosen_format(srgb: Seq<bool>, i: int) -> bool {
    &&& 0 <= i < srgb.len()
    &&& if exists|j: int| 0 <= j < srgb.len() && srgb[j] {
        srgb[i] && forall|j: int| 0 <= j < i ==> !srgb[j]
    } else {
        i == 0
    }
}

/// Picks the colour format of a surface from the formats it supports,
/// given as one sRGB flag per format: the first sRGB one, else the first.
/// `None` when the surface supports no format.
pub fn select_format(srgb: &Vec<bool>) -> (r: Option<usize>)
    ensures
        r is None <==> srgb@.len() == 0,
        r matches Some(i) ==> is_chosen_format(srgb@, i as int),
{
    let mut i: usize = 0;
    while i < srgb.len()
        invariant
            0 <= i <= srgb@.len(),
            forall|j: int| 0 <= j < i ==> !srgb@[j],
        decreases srgb@.len() - i,
    {
        if srgb[i] {
            return Some(i);
        }
        i = i + 1;
    }
    if srgb.len() == 0 {
        None
    } else {
        Some(0)
    }
}

/// The configuration of a presentable surface. The format, present mode and
/// alpha mode are indices into the lists of the surface's capabilities.
#[derive(Clone, Copy, Debug, PartialEq, Eq, Structural)]
pub struct SurfaceConfig {
    pub format: usize,
    pub present_mode: usize,
    pub alpha_mode: usize,
    pub width: u32,
    pub height: u32,
}

impl SurfaceConfig {
    /// The configuration a surface starts with: the format that
    /// `select_format` picks, the first present mode and the first alpha
    /// mode, at `size`. Fails when any of the three lists is empty.
    pub fn new(srgb: &Vec<bool>, present_modes: usize, alpha_modes: usize, size: Extent) -> (r:
        Result<SurfaceConfig, ContextError>)
        ensures
            r is Err <==> (srgb@.len() == 0 || present_modes == 0 || alpha_modes == 0),
            r matches Err(e) ==> e == ContextError::SurfaceConfigurationError,
            r matches Ok(c) ==> {
                &&& is_chosen_format(srgb@, c.format as int)
                &&& c.present_mode == 0
                &&& c.alpha_mode == 0
                &&& c.width == size.width
                &&& c.height == size.height
            },
    {
        if present_modes == 0 || alpha_modes == 0 {
            return Err(ContextError::SurfaceConfigurationError);
        }
        match select_format(srgb) {
            None => Err(ContextError::SurfaceConfigurationError),
            Some(format) => Ok(
                SurfaceConfig {
                    format,
                    present_mode: 0,
                    alpha_mode: 0,
                    width: size.width,
                    height: size.height,
                },
            ),
        }
    }

    /// The configured size.
    pub open spec fn spec_extent(&self) -> Extent {
        Extent { width: self.width, height: self.height }
    }

    #[verifier::when_used_as_spec(spec_extent)]
    pub fn extent(&self) -> (e: Extent)
        ensures
            e == self.spec_extent(),
    {
        Extent { width: self.width, height: self.height }
    }

    /// The configuration after a resize request: unchanged for a size with a
    /// zero dimension, else the same modes at the new size.
    pub open spec fn resized(self, size: Extent) -> SurfaceConfig {
        if size.spec_is_empty() {
            self
        } else {
            SurfaceConfig { width: size.width, height: size.height, ..self }
        }
    }

    /// Applies a resize request; returns whether the surface must be
    /// reconfigured, which is exactly when both dimensions are positive.
    pub fn resize(&mut self, size: Extent) -> (changed: bool)
        ensures
            *final(self) == old(self).resized(size),
            changed == !size.spec_is_empty(),
    {
        if size.is_empty() {
            false
        } else {
            self.width = size.width;
            self.height = size.height;
            true
        }
    }
}

/// What the camera derives from the surface size: its aspect ratio, kept
/// exactly as the fraction `aspect.width / aspect.height`, and the size of
/// its depth buffer.
#[derive(Clone, Copy, Debug, PartialEq, Eq, Structural)]
pub struct CameraFrame {
    pub aspect: Extent,
    pub depth: Extent,
}

impl CameraFrame {
    /// Whether both sizes follow `config`.
    pub open spec fn follows(self, config: SurfaceConfig) -> bool {
        self.aspect == config.spec_extent() && self.depth == config.spec_extent()
    }

    pub fn new(config: &SurfaceConfig) -> (c: CameraFrame)
        ensures
            c.follows(*config),
    {
        CameraFrame { aspect: config.extent(), depth: config.extent() }
    }

    /// Rebuilds the depth buffer size and the aspect ratio from `config`.
    pub fn resize(&mut self, config: &SurfaceConfig)
        ensures
            final(self).follows(*config),
    {
        self.aspect = config.extent();
        self.depth = config.extent();
    }
}

/// The surface configuration together with every size that must match it.
#[derive(Clone, Copy, Debug, PartialEq, Eq, Structural)]
pub struct RenderTargets {
    pub config: SurfaceConfig,
    pub camera: CameraFrame,
    pub antialias: Extent,
}

impl RenderTargets {
    /// The camera and the antialiasing target match the configuration.
    pub open spec fn wf(self) -> bool {
        self.camera.follows(self.config) && self.antialias == self.config.spec_extent()
    }

    pub fn new(config: SurfaceConfig) -> (t: RenderTargets)
        ensures
            t.wf(),
            t.config == config,
    {
        RenderTargets { config, camera: CameraFrame::new(&config), antialias: config.extent() }
    }

    /// The targets after a resize request.
    pub open spec fn resized(self, size: Extent) -> RenderTargets {
        if size.spec_is_empty() {
            self
        } else {
            RenderTargets {
                config: self.config.resized(size),
                camera: CameraFrame { aspect: size, depth: size },
                antialias: size,
            }
        }
    }

    /// Resizes the surface configuration, then the camera, then the
    /// antialiasing target. A size with a zero dimension changes nothing.
    /// Returns whether anything changed, so that the surface must be
    /// reconfigured, the depth buffer and antialiasing target rebuilt and
    /// the camera uniform re-uploaded.
    pub fn resize(&mut self, size: Extent) -> (changed: bool)
        requires
            old(self).wf(),
        ensures
            *final(self) == old(self).resized(size),
            final(self).wf(),
            changed == !size.spec_is_empty(),
            size.spec_is_empty() ==> *final(self) == *old(self),
            !size.spec_is_empty() ==> {
                &&& final(self).config.width == size.width
                &&& final(self).config.height == size.height
                &&& final(self).camera.depth == size
                &&& final(self).camera.aspect == size
                &&& final(self).antialias == size
            },
    {
        let changed = self.config.resize(size);
        if changed {
            self.camera.resize(&self.config);
            self.antialias = self.config.extent();
        }
        changed
    }
}

/// A resize to a size with a zero dimension leaves every target as it was.
pub proof fn lemma_empty_resize_is_noop(t: RenderTargets, size: Extent)
    requires
        size.spec_is_empty(),
    ensures
        t.resized(size) == t,
{
}

/// After a resize to a positive size, every target has exactly that size
/// and the aspect ratio is its width over its height.
pub proof fn lemma_resize_sets_size(t: RenderTargets, size: Extent)
    requires
        !size.spec_is_empty(),
    ensures
        t.resized(size).wf(),
        t.resized(size).config.spec_extent() == size,
        t.resized(size).camera.depth == size,
        t.resized(size).camera.aspect == size,
        t.resized(size).antialias == size,
{
}

/// A request with a zero dimension after a successful resize keeps the size
/// of that resize.
pub proof fn lemma_empty_after_resize(t: RenderTargets, size: Extent, empty: Extent)
    requires
        !size.spec_is_empty(),
        empty.spec_is_empty(),
    ensures
        t.resized(size).resized(empty) == t.resized(size),
        t.resized(size).resized(empty).config.spec_extent() == size,
{
}

} // verus!
