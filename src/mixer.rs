//! Settings and layout decisions of the side-by-side comparison mixer.
use vstd::prelude::*;

verus! {

/// The backend that composes the two compared streams.
#[derive(Clone, Copy, Debug, PartialEq, Eq, Structural)]
pub enum Backend {
    GL,
    VAAPI,
    CPU,
    D3D12,
}

/// Settings of the comparison mixer.
#[derive(Clone, Copy, Debug, PartialEq, Eq, Structural)]
pub struct Settings {
    pub backend: Backend,
    /// Show the left half of one stream beside the right half of the other,
    /// rather than the two streams beside each other.
    pub split_screen: bool,
}

impl Default for Settings {
    fn default() -> (r: Settings)
        ensures
            r == (Settings { backend: Backend::CPU, split_screen: false }),
    {
        Settings { backend: Backend::CPU, split_screen: false }
    }
}

/// Name of the compositor element that a backend uses.
pub open spec fn compositor_name(backend: Backend) -> Seq<char> {
    match backend {
        Backend::GL => "glvideomixer"@,
        Backend::VAAPI => "vacompositor"@,
        Backend::CPU => "compositor"@,
        Backend::D3D12 => "d3d12compositor"@,
    }
}

/// Name of the compositor element that `backend` uses.
pub fn get_pipeline_compositor(backend: Backend) -> (r: &'static str)
    ensures
        r@ == compositor_name(backend),
{
    match backend {
        Backend::GL => "glvideomixer",
        Backend::VAAPI => "vacompositor",
        Backend::CPU => "compositor",
        Backend::D3D12 => "d3d12compositor",
    }
}

/// Whether the halves are cut by separate crop elements: in split-screen
/// mode on any backend but GL, whose compositor crops by itself.
pub fn uses_crop_elements(settings: &Settings) -> (r: bool)
    ensures
        r == (settings.split_screen && settings.backend != Backend::GL),
{
    settings.split_screen && settings.backend != Backend::GL
}

/// Where the halves of the two streams are cut.
#[derive(Clone, Copy, Debug, PartialEq, Eq, Structural)]
pub enum Crop {
    /// No cut: both streams are shown whole.
    Whole,
    /// The first crop element keeps the left `half` columns of the first
    /// stream by cutting `half` from its right; the second cuts `half` from
    /// the left of the second stream.
    Elements { half: i32 },
    /// The compositor's own inputs cut the same amounts.
    CompositorPads { half: i32 },
}

/// How the two streams are laid out: the cut, and the horizontal position
/// of the second stream.
#[derive(Clone, Copy, Debug, PartialEq, Eq, Structural)]
pub struct MixerLayout {
    pub crop: Crop,
    pub second_xpos: i32,
}

/// Half of `w`, rounded toward zero.
pub open spec fn half_of(w: int) -> int {
    if w >= 0 {
        w / 2
    } else {
        -((-w) / 2)
    }
}

/// The layout for streams `width` columns wide. In split-screen mode each
/// stream keeps one half and the second starts at the middle; otherwise the
/// second stream starts right of the first.
pub fn layout_for(settings: &Settings, width: i32) -> (r: MixerLayout)
    ensures
        !settings.split_screen ==> r == (MixerLayout { crop: Crop::Whole, second_xpos: width }),
        settings.split_screen && settings.backend != Backend::GL ==> r == (MixerLayout {
            crop: Crop::Elements { half: half_of(width as int) as i32 },
            second_xpos: half_of(width as int) as i32,
        }),
        settings.split_screen && settings.backend == Backend::GL ==> r == (MixerLayout {
            crop: Crop::CompositorPads { half: half_of(width as int) as i32 },
            second_xpos: half_of(width as int) as i32,
        }),
{
    let half = width / 2;
    if !settings.split_screen {
        MixerLayout { crop: Crop::Whole, second_xpos: width }
    } else if settings.backend != Backend::GL {
        MixerLayout { crop: Crop::Elements { half }, second_xpos: half }
    } else {
        MixerLayout { crop: Crop::CompositorPads { half }, second_xpos: half }
    }
}

} // verus!
