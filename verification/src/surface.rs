//! Surface and device initialization decisions: which texture format a
//! surface should use, and how the presentable surface is configured from
//! the requested window size and the capabilities an adapter reports.

use vstd::prelude::*;

verus! {

/// A surface texture format as the initializer sees it: an opaque code that
/// the GPU layer maps back to its own format value, and whether the format
/// is an sRGB one.
#[derive(Clone, Copy, Debug, PartialEq, Eq, Structural)]
pub struct SurfaceFormat {
    /// Opaque tag identifying the format to the GPU layer.
    pub code: u32,
    /// Whether the format stores channels in sRGB encoding.
    pub srgb: bool,
}

/// What a surface reports it can do for a given adapter: the supported
/// texture formats, present modes and alpha modes, each in the order the
/// surface lists them. The mode values are opaque tags for the GPU layer.
#[derive(Debug)]
pub struct SurfaceCaps {
    pub formats: Vec<SurfaceFormat>,
    pub present_modes: Vec<u32>,
    pub alpha_modes: Vec<u32>,
}

/// Why startup initialization failed. Every failure here is fatal: the
/// caller aborts startup instead of entering the render loop.
#[derive(Clone, Copy, Debug, PartialEq, Eq, Structural)]
pub enum InitError {
    /// No compatible graphics adapter exists.
    NoAdapter,
    /// An adapter exists but refused to provide a logical device.
    NoDevice,
    /// The surface reports no usable format, present mode or alpha mode.
    UnsupportedSurface,
    /// The bundled texture asset could not be decoded.
    TextureDecode,
}

impl InitError {
    /// What the error means, in one spec-level sentence.
    pub open spec fn spec_message(self) -> Seq<char> {
        match self {
            InitError::NoAdapter => "no compatible graphics adapter was found"@,
            InitError::NoDevice => "the adapter did not provide a logical device"@,
            InitError::UnsupportedSurface => "the surface reports no usable configuration"@,
            InitError::TextureDecode => "the bundled texture asset did not decode"@,
        }
    }

    /// A human-readable description of the failure.
    pub fn message(&self) -> (m: &'static str)
        ensures
            m@ == self.spec_message(),
    {
        match self {
            InitError::NoAdapter => "no compatible graphics adapter was found",
            InitError::NoDevice => "the adapter did not provide a logical device",
            InitError::UnsupportedSurface => "the surface reports no usable configuration",
            InitError::TextureDecode => "the bundled texture asset did not decode",
        }
    }
}

/// Accepts the outcome of the logical-device request: with a device in
/// hand startup goes on; a refusal is the fatal `NoDevice` error.
pub fn confirm_device(device_ok: bool) -> (r: Result<(), InitError>)
    ensures
        r is Ok <==> device_ok,
        !device_ok ==> r == Err::<(), InitError>(InitError::NoDevice),
{
    if device_ok {
        Ok(())
    } else {
        Err(InitError::NoDevice)
    }
}

/// The configuration a surface is given at startup: the requested pixel
/// size, the chosen format, and the first present and alpha modes the
/// surface reported. It is not updated afterwards.
#[derive(Clone, Copy, Debug, PartialEq, Eq, Structural)]
pub struct SurfaceConfig {
    pub width: u32,
    pub height: u32,
    pub format: SurfaceFormat,
    pub present_mode: u32,
    pub alpha_mode: u32,
    /// How many frames the presentation engine may queue ahead.
    pub frame_latency: u32,
}

/// The first sRGB-capable format of the list, if the list has one.
pub open spec fn spec_first_srgb(formats: Seq<SurfaceFormat>) -> Option<SurfaceFormat>
    decreases formats.len(),
{
    if formats.len() == 0 {
        None
    } else if formats[0].srgb {
        Some(formats[0])
    } else {
        spec_first_srgb(formats.drop_first())
    }
}

/// The format a surface should be configured with: the first sRGB-capable
/// format, or the first format of the list when none is sRGB.
pub open spec fn spec_chosen_format(formats: Seq<SurfaceFormat>) -> Option<SurfaceFormat> {
    if formats.len() == 0 {
        None
    } else if spec_first_srgb(formats) is Some {
        spec_first_srgb(formats)
    } else {
        Some(formats[0])
    }
}

/// What "first sRGB-capable format" means, index by index: when the list
/// has an sRGB format, the one picked is at some index before which every
/// format is non-sRGB; when it has none, nothing is picked.
pub proof fn lemma_first_srgb_is_first(formats: Seq<SurfaceFormat>)
    ensures
        spec_first_srgb(formats) matches Some(f) ==> exists|i: int|
            {
                &&& 0 <= i < formats.len()
                &&& #[trigger] formats[i] == f
                &&& f.srgb
                &&& forall|j: int| 0 <= j < i ==> !(#[trigger] formats[j]).srgb
            },
        spec_first_srgb(formats) is None ==> forall|j: int|
            0 <= j < formats.len() ==> !(#[trigger] formats[j]).srgb,
    decreases formats.len(),
{
    if formats.len() == 0 {
    } else if formats[0].srgb {
        let f = formats[0];
        assert(formats[0] == f && f.srgb && forall|j: int| 0 <= j < 0 ==> !(#[trigger] formats[j]).srgb);
    } else {
        lemma_first_srgb_is_first(formats.drop_first());
        let rest = formats.drop_first();
        if spec_first_srgb(formats) is Some {
            let f = spec_first_srgb(formats).unwrap();
            let i = choose|i: int|
                {
                    &&& 0 <= i < rest.len()
                    &&& #[trigger] rest[i] == f
                    &&& f.srgb
                    &&& forall|j: int| 0 <= j < i ==> !(#[trigger] rest[j]).srgb
                };
            assert(formats[i + 1] == f);
            assert forall|j: int| 0 <= j < i + 1 implies !(#[trigger] formats[j]).srgb by {
                if j > 0 {
                    assert(rest[j - 1] == formats[j]);
                }
            }
        } else {
            assert forall|j: int| 0 <= j < formats.len() implies !(#[trigger] formats[j]).srgb by {
                if j > 0 {
                    assert(rest[j - 1] == formats[j]);
                }
            }
        }
    }
}

/// The chosen format is a member of the list it was chosen from.
pub proof fn lemma_chosen_format_supported(formats: Seq<SurfaceFormat>)
    requires
        formats.len() > 0,
    ensures
        spec_chosen_format(formats) matches Some(f) && formats.contains(f),
    decreases formats.len(),
{
    if formats[0].srgb {
    } else if spec_first_srgb(formats) is Some {
        assert(spec_first_srgb(formats.drop_first()) is Some);
        assert(formats.drop_first().len() > 0);
        lemma_chosen_format_supported(formats.drop_first());
        let f = spec_chosen_format(formats).unwrap();
        assert(formats.drop_first().contains(f));
        let i = choose|i: int|
            0 <= i < formats.drop_first().len() && formats.drop_first()[i] == f;
        assert(formats[i + 1] == f);
    } else {
        assert(formats.contains(formats[0]));
    }
}

/// Picks the surface format: the first sRGB-capable format the surface
/// reports, falling back to the surface's first (default) format when none
/// is sRGB; nothing when the surface reports no format at all.
pub fn choose_surface_format(formats: &Vec<SurfaceFormat>) -> (r: Option<SurfaceFormat>)
    ensures
        r == spec_chosen_format(formats@),
        r is Some <==> formats@.len() > 0,
{
    let n = formats.len();
    let mut i: usize = 0;
    proof {
        assert(formats@.skip(0) =~= formats@);
    }
    while i < n
        invariant
            n == formats@.len(),
            0 <= i <= n,
            forall|j: int| 0 <= j < i ==> !(#[trigger] formats@[j]).srgb,
            spec_first_srgb(formats@) == spec_first_srgb(formats@.skip(i as int)),
        decreases n - i,
    {
        proof {
            assert(formats@.skip(i as int)[0] == formats@[i as int]);
            assert(formats@.skip(i as int).drop_first() =~= formats@.skip(i + 1));
        }
        if formats[i].srgb {
            return Some(formats[i]);
        }
        i += 1;
    }
    proof {
        assert(formats@.skip(n as int).len() == 0);
    }
    if n == 0 {
        None
    } else {
        Some(formats[0])
    }
}

/// Decides the whole startup negotiation from what the platform reported:
/// no adapter is a fatal `NoAdapter` error; an adapter whose surface lists
/// no format, present mode or alpha mode is a fatal `UnsupportedSurface`
/// error; otherwise the surface is configured at the requested size, with
/// the chosen format and the first present and alpha modes reported, and a
/// frame latency of 2.
pub fn plan_init(adapter: Option<SurfaceCaps>, width: u32, height: u32) -> (r: Result<
    SurfaceConfig,
    InitError,
>)
    ensures
        adapter is None ==> r == Err::<SurfaceConfig, InitError>(InitError::NoAdapter),
        adapter matches Some(caps) ==> {
            &&& (caps.formats@.len() == 0 || caps.present_modes@.len() == 0
                || caps.alpha_modes@.len() == 0) <==> r == Err::<SurfaceConfig, InitError>(
                InitError::UnsupportedSurface,
            )
            &&& r matches Ok(c) ==> {
                &&& c.width == width
                &&& c.height == height
                &&& Some(c.format) == spec_chosen_format(caps.formats@)
                &&& c.present_mode == caps.present_modes@[0]
                &&& c.alpha_mode == caps.alpha_modes@[0]
                &&& c.frame_latency == 2
            }
        },
        r is Ok <==> (adapter matches Some(caps) && caps.formats@.len() > 0
            && caps.present_modes@.len() > 0 && caps.alpha_modes@.len() > 0),
{
    let caps = match adapter {
        None => {
            return Err(InitError::NoAdapter);
        },
        Some(caps) => caps,
    };
    if caps.present_modes.len() == 0 || caps.alpha_modes.len() == 0 {
        return Err(InitError::UnsupportedSurface);
    }
    let format = match choose_surface_format(&caps.formats) {
        None => {
            return Err(InitError::UnsupportedSurface);
        },
        Some(f) => f,
    };
    Ok(
        SurfaceConfig {
            width,
            height,
            format,
            present_mode: caps.present_modes[0],
            alpha_mode: caps.alpha_modes[0],
            frame_latency: 2,
        },
    )
}

} // verus!
