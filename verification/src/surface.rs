//! Surface capabilities, the choice of a surface format, and the
//! configuration that a surface is given for a window size.

use vstd::prelude::*;

verus! {

/// `wgpu::TextureFormat`, carried through without looking inside.
#[verifier::external_type_specification]
#[verifier::external_body]
pub struct ExTextureFormat(wgpu::TextureFormat);

/// `wgpu::PresentMode`, carried through without looking inside.
#[verifier::external_type_specification]
#[verifier::external_body]
pub struct ExPresentMode(wgpu::PresentMode);

/// `wgpu::CompositeAlphaMode`, carried through without looking inside.
#[verifier::external_type_specification]
#[verifier::external_body]
pub struct ExCompositeAlphaMode(wgpu::CompositeAlphaMode);

/// The answer of `wgpu::TextureFormat::is_srgb` for `format`: whether the
/// format stores colour in the non-linear sRGB encoding.
pub uninterp spec fn format_is_srgb(format: wgpu::TextureFormat) -> bool;

/// `wgpu::TextureFormat::is_srgb` compares the format with itself stripped
/// of its `Srgb` suffix, so its answer depends on the format alone. Nothing
/// is claimed about which formats it accepts.
pub assume_specification[ wgpu::TextureFormat::is_srgb ](
    format: &wgpu::TextureFormat,
) -> (srgb: bool)
    ensures
        srgb == format_is_srgb(*format),
;

/// The bit of `wgpu::TextureUsages::RENDER_ATTACHMENT`.
pub const RENDER_ATTACHMENT: u32 = 16;

/// `i` is the position of the first `true` in `flags`.
pub open spec fn is_first_set(flags: Seq<bool>, i: int) -> bool {
    &&& 0 <= i < flags.len()
    &&& flags[i]
    &&& forall|j: int| 0 <= j < i ==> !flags[j]
}

/// The position of the first `true` in `flags`, or 0 where there is none.
pub open spec fn preferred_index(flags: Seq<bool>) -> int {
    if exists|i: int| is_first_set(flags, i) {
        choose|i: int| is_first_set(flags, i)
    } else {
        0
    }
}

/// For each format, in order, whether it is sRGB.
pub open spec fn srgb_flags_of(formats: Seq<wgpu::TextureFormat>) -> Seq<bool> {
    Seq::new(formats.len(), |i: int| format_is_srgb(formats[i]))
}

/// The format chosen from a non-empty list: the first sRGB one, or the
/// first of all where none is sRGB.
pub open spec fn selected_format(formats: Seq<wgpu::TextureFormat>) -> wgpu::TextureFormat {
    formats[preferred_index(srgb_flags_of(formats))]
}

/// At most one position is the first `true`.
pub proof fn lemma_first_set_unique(flags: Seq<bool>, i: int, j: int)
    requires
        is_first_set(flags, i),
        is_first_set(flags, j),
    ensures
        i == j,
{
    if i < j {
        assert(!flags[i]);
    } else if j < i {
        assert(!flags[j]);
    }
}

/// The preferred index lies inside a non-empty list.
pub proof fn lemma_preferred_index_in_range(flags: Seq<bool>)
    requires
        flags.len() > 0,
    ensures
        0 <= preferred_index(flags) < flags.len(),
{
}

/// The position of the first `true` in `flags`, or 0 where there is none
/// (also for an empty list).
pub fn first_preferred(flags: &Vec<bool>) -> (index: usize)
    ensures
        index == preferred_index(flags@),
        is_first_set(flags@, index as int) || (index == 0 && forall|j: int|
            0 <= j < flags@.len() ==> !flags@[j]),
{
    let mut i: usize = 0;
    while i < flags.len()
        invariant
            i <= flags.len(),
            forall|j: int| 0 <= j < i ==> !flags@[j],
        decreases flags.len() - i,
    {
        if flags[i] {
            assert(is_first_set(flags@, i as int));
            proof {
                lemma_first_set_unique(flags@, i as int, preferred_index(flags@));
            }
            return i;
        }
        i += 1;
    }
    assert forall|k: int| !is_first_set(flags@, k) by {}
    0
}

/// Asks `wgpu` of each format, in order, whether it is sRGB.
pub fn srgb_flags(formats: &Vec<wgpu::TextureFormat>) -> (flags: Vec<bool>)
    ensures
        flags@ == srgb_flags_of(formats@),
{
    let mut flags: Vec<bool> = Vec::new();
    let mut i: usize = 0;
    while i < formats.len()
        invariant
            i <= formats.len(),
            flags@.len() == i,
            forall|j: int| 0 <= j < i ==> flags@[j] == format_is_srgb(formats@[j]),
        decreases formats.len() - i,
    {
        let srgb = formats[i].is_srgb();
        flags.push(srgb);
        i += 1;
    }
    assert(flags@ =~= srgb_flags_of(formats@));
    flags
}

/// Chooses the surface format: the first sRGB format of the list, or its
/// first format where none is sRGB.
pub fn select_format(formats: &Vec<wgpu::TextureFormat>) -> (format: wgpu::TextureFormat)
    requires
        formats@.len() > 0,
    ensures
        format == selected_format(formats@),
{
    let flags = srgb_flags(formats);
    let index = first_preferred(&flags);
    proof {
        lemma_preferred_index_in_range(flags@);
    }
    formats[index]
}

/// What a surface and an adapter support together, as `wgpu` reports it:
/// each list in the order in which it was reported.
#[derive(Clone, Debug, PartialEq)]
pub struct SurfaceCaps {
    pub formats: Vec<wgpu::TextureFormat>,
    pub present_modes: Vec<wgpu::PresentMode>,
    pub alpha_modes: Vec<wgpu::CompositeAlphaMode>,
}

/// The settings that a surface is configured with.
#[derive(Clone, Copy, Debug, PartialEq)]
pub struct SurfaceConfig {
    /// Texture usage bits, as `wgpu::TextureUsages` encodes them.
    pub usage: u32,
    pub format: wgpu::TextureFormat,
    /// Width in physical pixels.
    pub width: u32,
    /// Height in physical pixels.
    pub height: u32,
    pub present_mode: wgpu::PresentMode,
    pub alpha_mode: wgpu::CompositeAlphaMode,
}

/// Why no configuration can be derived from a set of capabilities: the
/// surface and the adapter have nothing in common in one respect.
#[derive(Clone, Copy, Debug, PartialEq, Eq)]
pub enum SurfaceError {
    /// No texture format is supported.
    NoFormat,
    /// No presentation mode is supported.
    NoPresentMode,
    /// No alpha mode is supported.
    NoAlphaMode,
}

impl SurfaceCaps {
    /// Every list offers at least one choice.
    pub open spec fn usable(&self) -> bool {
        &&& self.formats@.len() > 0
        &&& self.present_modes@.len() > 0
        &&& self.alpha_modes@.len() > 0
    }

    /// The first respect, in the order formats, presentation modes, alpha
    /// modes, in which nothing is supported.
    pub open spec fn defect(&self) -> Option<SurfaceError> {
        if self.formats@.len() == 0 {
            Some(SurfaceError::NoFormat)
        } else if self.present_modes@.len() == 0 {
            Some(SurfaceError::NoPresentMode)
        } else if self.alpha_modes@.len() == 0 {
            Some(SurfaceError::NoAlphaMode)
        } else {
            None
        }
    }

    /// The configuration for a surface of `width` by `height` physical
    /// pixels: render-attachment usage, the selected format, and the first
    /// presentation mode and alpha mode on offer.
    pub open spec fn configuration_for(&self, width: u32, height: u32) -> SurfaceConfig {
        SurfaceConfig {
            usage: RENDER_ATTACHMENT,
            format: selected_format(self.formats@),
            width,
            height,
            present_mode: self.present_modes@[0],
            alpha_mode: self.alpha_modes@[0],
        }
    }

    /// Tells whether a configuration can be derived, and if not, why.
    pub fn validate(&self) -> (outcome: Result<(), SurfaceError>)
        ensures
            outcome.is_ok() <==> self.usable(),
            outcome matches Err(error) ==> self.defect() == Some(error),
    {
        if self.formats.len() == 0 {
            Err(SurfaceError::NoFormat)
        } else if self.present_modes.len() == 0 {
            Err(SurfaceError::NoPresentMode)
        } else if self.alpha_modes.len() == 0 {
            Err(SurfaceError::NoAlphaMode)
        } else {
            Ok(())
        }
    }

    /// Derives the configuration for a surface of `width` by `height`
    /// physical pixels.
    pub fn configuration(&self, width: u32, height: u32) -> (config: SurfaceConfig)
        requires
            self.usable(),
        ensures
            config == self.configuration_for(width, height),
    {
        SurfaceConfig {
            usage: RENDER_ATTACHMENT,
            format: select_format(&self.formats),
            width,
            height,
            present_mode: self.present_modes[0],
            alpha_mode: self.alpha_modes[0],
        }
    }
}

/// The chosen format depends on the list of formats alone, not on the size
/// that the surface is configured for: deriving a configuration again from
/// the same capabilities, for whatever size, gives the same format.
pub proof fn lemma_format_independent_of_size(
    caps: SurfaceCaps,
    width_a: u32,
    height_a: u32,
    width_b: u32,
    height_b: u32,
)
    ensures
        caps.configuration_for(width_a, height_a).format == caps.configuration_for(
            width_b,
            height_b,
        ).format,
        caps.configuration_for(width_a, height_a).format == selected_format(caps.formats@),
{
}

/// A configuration carries exactly the size that it was derived for.
pub proof fn lemma_configuration_size(caps: SurfaceCaps, width: u32, height: u32)
    ensures
        caps.configuration_for(width, height).width == width,
        caps.configuration_for(width, height).height == height,
{
}

} // verus!
