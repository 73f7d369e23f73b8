//! The configuration of the presentable surface: which format is chosen from
//! what the adapter offers, and how the stored size follows the window.

use vstd::prelude::*;

verus! {

/// `wgpu::TextureFormat`, the format of a texture or of a surface. The
/// library only carries such values around, copies them and compares them in
/// contracts; nothing is claimed of what is inside.
#[verifier::external_type_specification]
#[verifier::external_body]
pub struct ExTextureFormat(wgpu::TextureFormat);

/// `wgpu::PresentMode`, the way finished images reach the display. Carried
/// around only.
#[verifier::external_type_specification]
#[verifier::external_body]
pub struct ExPresentMode(wgpu::PresentMode);

/// `wgpu::CompositeAlphaMode`, the way the window system treats the alpha
/// channel of a surface. Carried around only.
#[verifier::external_type_specification]
#[verifier::external_body]
pub struct ExCompositeAlphaMode(wgpu::CompositeAlphaMode);

/// Whether `wgpu::TextureFormat::is_srgb` holds of a format.
pub uninterp spec fn srgb_encoded(format: wgpu::TextureFormat) -> bool;

/// Calls `wgpu::TextureFormat::is_srgb`. Nothing is proved of the answer; it
/// is only given the name [`srgb_encoded`], which claims that the same format
/// always gets the same answer.
#[verifier::external_body]
fn format_is_srgb(format: &wgpu::TextureFormat) -> (r: bool)
    ensures
        r == srgb_encoded(*format),
{
    format.is_srgb()
}

/// Why the device could not be set up.
#[derive(Clone, Copy, Debug, PartialEq, Eq, Structural)]
pub enum InitError {
    /// No adapter can present to the surface.
    NoAdapter,
    /// The adapter did not hand out a device and queue.
    NoDevice,
}

/// For each offered format, whether it is sRGB-encoded.
pub open spec fn srgb_flags(formats: Seq<wgpu::TextureFormat>) -> Seq<bool> {
    Seq::new(formats.len(), |i: int| srgb_encoded(formats[i]))
}

/// `i` is the position that is preferred among `srgb.len()` offered formats:
/// that of the first sRGB-encoded one, or the first position if there is none.
pub open spec fn is_preferred(srgb: Seq<bool>, i: int) -> bool {
    &&& 0 <= i < srgb.len()
    &&& forall|j: int| 0 <= j < i ==> !(#[trigger] srgb[j])
    &&& (srgb[i] || (i == 0 && forall|j: int| 0 <= j < srgb.len() ==> !(#[trigger] srgb[j])))
}

/// At most one position is preferred.
pub proof fn lemma_preferred_unique(srgb: Seq<bool>, i: int, j: int)
    requires
        is_preferred(srgb, i),
        is_preferred(srgb, j),
    ensures
        i == j,
{
    if i < j {
        assert(!srgb[i]);
    }
    if j < i {
        assert(!srgb[j]);
    }
}

/// Picks a position given, for each offered format in order, whether it is
/// sRGB-encoded. Nothing can be picked from an empty offer.
pub fn preferred_index(srgb: &Vec<bool>) -> (r: Option<usize>)
    ensures
        r is None <==> srgb@.len() == 0,
        r matches Some(i) ==> is_preferred(srgb@, i as int),
{
    if srgb.len() == 0 {
        return None;
    }
    let mut k: usize = 0;
    while k < srgb.len()
        invariant
            k <= srgb@.len(),
            forall|j: int| 0 <= j < k ==> !(#[trigger] srgb@[j]),
        decreases srgb@.len() - k,
    {
        if srgb[k] {
            return Some(k);
        }
        k = k + 1;
    }
    Some(0)
}

/// Picks the surface format from the formats an adapter supports: the first
/// sRGB-encoded one in listed order, or the first listed if none is.
pub fn choose_surface_format(formats: &Vec<wgpu::TextureFormat>) -> (r: Option<wgpu::TextureFormat>)
    ensures
        r is None <==> formats@.len() == 0,
        r matches Some(f) ==> exists|i: int|
            is_preferred(srgb_flags(formats@), i) && f == #[trigger] formats@[i],
{
    let mut flags: Vec<bool> = Vec::new();
    let mut k: usize = 0;
    while k < formats.len()
        invariant
            k <= formats@.len(),
            flags@.len() == k,
            forall|j: int| 0 <= j < k ==> #[trigger] flags@[j] == srgb_encoded(formats@[j]),
        decreases formats@.len() - k,
    {
        flags.push(format_is_srgb(&formats[k]));
        k = k + 1;
    }
    assert(flags@ =~= srgb_flags(formats@));
    match preferred_index(&flags) {
        Some(i) => Some(formats[i]),
        None => None,
    }
}

/// What the surface is configured with.
#[derive(Clone, Copy, Debug)]
pub struct SurfaceConfig {
    pub format: wgpu::TextureFormat,
    pub width: u32,
    pub height: u32,
    pub present_mode: wgpu::PresentMode,
    pub alpha_mode: wgpu::CompositeAlphaMode,
    /// How many frames may be queued for presentation.
    pub max_frame_latency: u32,
}

/// Frames that may be queued for presentation.
pub const FRAME_LATENCY: u32 = 2;

/// `after` is what `reconfigure(width, height)` makes of `before`.
pub open spec fn resized(
    before: SurfaceConfig,
    after: SurfaceConfig,
    width: int,
    height: int,
) -> bool {
    if width > 0 && height > 0 {
        &&& after.width == width
        &&& after.height == height
        &&& after.format == before.format
        &&& after.present_mode == before.present_mode
        &&& after.alpha_mode == before.alpha_mode
        &&& after.max_frame_latency == before.max_frame_latency
    } else {
        after == before
    }
}

impl SurfaceConfig {
    /// The first configuration of a surface of the given size: the preferred
    /// format, the first listed present mode and the first listed alpha mode.
    /// An adapter that lists no format, no present mode or no alpha mode
    /// cannot present to the surface, which counts as having no adapter.
    pub fn initial(
        formats: &Vec<wgpu::TextureFormat>,
        present_modes: &Vec<wgpu::PresentMode>,
        alpha_modes: &Vec<wgpu::CompositeAlphaMode>,
        width: u32,
        height: u32,
    ) -> (r: Result<SurfaceConfig, InitError>)
        ensures
            r is Err <==> (formats@.len() == 0 || present_modes@.len() == 0 || alpha_modes@.len()
                == 0),
            r matches Err(e) ==> e == InitError::NoAdapter,
            r matches Ok(c) ==> {
                &&& exists|i: int|
                    is_preferred(srgb_flags(formats@), i) && c.format == #[trigger] formats@[i]
                &&& c.width == width
                &&& c.height == height
                &&& c.present_mode == present_modes@[0]
                &&& c.alpha_mode == alpha_modes@[0]
                &&& c.max_frame_latency == FRAME_LATENCY
            },
    {
        if present_modes.len() == 0 || alpha_modes.len() == 0 {
            return Err(InitError::NoAdapter);
        }
        match choose_surface_format(formats) {
            Some(format) => Ok(
                SurfaceConfig {
                    format,
                    width,
                    height,
                    present_mode: present_modes[0],
                    alpha_mode: alpha_modes[0],
                    max_frame_latency: FRAME_LATENCY,
                },
            ),
            None => Err(InitError::NoAdapter),
        }
    }

    /// Follows a change of the window's framebuffer size. A size with a
    /// dimension that is not positive (a minimised window) is ignored.
    /// Returns whether the configuration changed hands, that is whether the
    /// surface has to be configured again before the next frame is acquired.
    pub fn reconfigure(&mut self, width: i32, height: i32) -> (apply: bool)
        ensures
            apply == (width > 0 && height > 0),
            resized(*old(self), *final(self), width as int, height as int),
    {
        if width <= 0 || height <= 0 {
            return false;
        }
        self.width = width as u32;
        self.height = height as u32;
        true
    }
}

/// The surface's configuration together with the knowledge whether the
/// surface itself has been given it. The stored size is always the last size
/// of the window's framebuffer that was reported with positive dimensions.
#[derive(Clone, Copy, Debug)]
pub struct SurfaceState {
    config: SurfaceConfig,
    pending: bool,
}

impl View for SurfaceState {
    type V = SurfaceConfig;

    closed spec fn view(&self) -> SurfaceConfig {
        self.config
    }
}

impl SurfaceState {
    /// The surface has to be configured before the next image is acquired.
    pub closed spec fn is_pending(&self) -> bool {
        self.pending
    }

    /// Starts from a configuration that the surface has not been given yet.
    pub fn new(config: SurfaceConfig) -> (s: SurfaceState)
        ensures
            s@ == config,
            s.is_pending(),
    {
        SurfaceState { config, pending: true }
    }

    /// The configuration to give to the surface.
    pub fn config(&self) -> (c: SurfaceConfig)
        ensures
            c == self@,
    {
        self.config
    }

    /// Whether the surface has to be configured before the next image is
    /// acquired.
    pub fn needs_configure(&self) -> (r: bool)
        ensures
            r == self.is_pending(),
    {
        self.pending
    }

    /// Follows a change of the window's framebuffer size, as
    /// [`SurfaceConfig::reconfigure`] does. A size that is taken over leaves
    /// the surface to be configured again; one that is ignored changes
    /// nothing at all.
    pub fn reconfigure(&mut self, width: i32, height: i32) -> (apply: bool)
        ensures
            apply == (width > 0 && height > 0),
            resized(old(self)@, final(self)@, width as int, height as int),
            final(self).is_pending() == (old(self).is_pending() || apply),
    {
        let apply = self.config.reconfigure(width, height);
        if apply {
            self.pending = true;
        }
        apply
    }

    /// Marks the surface for configuration, as after it was reported lost or
    /// outdated. The configuration itself stays.
    pub fn invalidate(&mut self)
        ensures
            final(self)@ == old(self)@,
            final(self).is_pending(),
    {
        self.pending = true;
    }

    /// Records that the surface has been given the stored configuration.
    pub fn mark_configured(&mut self)
        ensures
            final(self)@ == old(self)@,
            !final(self).is_pending(),
    {
        self.pending = false;
    }
}

/// Applying the same size twice leaves the configuration as applying it once.
pub proof fn lemma_reconfigure_idempotent(
    c0: SurfaceConfig,
    c1: SurfaceConfig,
    c2: SurfaceConfig,
    width: int,
    height: int,
)
    requires
        resized(c0, c1, width, height),
        resized(c1, c2, width, height),
    ensures
        c2 == c1,
{
}

} // verus!
