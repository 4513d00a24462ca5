//! Translation of a document's texture sampler into the backend's sampler settings.

use vstd::prelude::*;

verus! {

/// Magnification filter as a scene document states it.
#[derive(Clone, Copy, Debug, PartialEq, Eq, Structural)]
pub enum MagFilter {
    Nearest,
    Linear,
}

/// Minification filter as a scene document states it.
#[derive(Clone, Copy, Debug, PartialEq, Eq, Structural)]
pub enum MinFilter {
    Nearest,
    Linear,
    NearestMipmapNearest,
    LinearMipmapNearest,
    NearestMipmapLinear,
    LinearMipmapLinear,
}

/// Texture coordinate wrapping as a scene document states it.
#[derive(Clone, Copy, Debug, PartialEq, Eq, Structural)]
pub enum WrappingMode {
    ClampToEdge,
    MirroredRepeat,
    Repeat,
}

/// A document's sampler: absent filters are left to the engine.
#[derive(Clone, Copy, Debug, PartialEq, Eq, Structural)]
pub struct SamplerDesc {
    pub mag_filter: Option<MagFilter>,
    pub min_filter: Option<MinFilter>,
    pub wrap_s: WrappingMode,
    pub wrap_t: WrappingMode,
}

/// Texel filter of the graphics backend.
#[derive(Clone, Copy, Debug, PartialEq, Eq, Structural)]
pub enum Filter {
    Nearest,
    Linear,
}

/// Mipmap selection of the graphics backend.
#[derive(Clone, Copy, Debug, PartialEq, Eq, Structural)]
pub enum MipmapMode {
    Nearest,
    Linear,
}

/// Address mode of the graphics backend.
#[derive(Clone, Copy, Debug, PartialEq, Eq, Structural)]
pub enum AddressMode {
    ClampToEdge,
    MirroredRepeat,
    Repeat,
}

/// The backend's sampler settings.
#[derive(Clone, Copy, Debug, PartialEq, Eq, Structural)]
pub struct SamplerInfo {
    pub mag_filter: Filter,
    pub min_filter: Filter,
    pub mipmap_mode: MipmapMode,
    pub address_mode_u: AddressMode,
    pub address_mode_v: AddressMode,
}

/// The filter used where a document states none.
pub const DEFAULT_TEXTURE_FILTER: Filter = Filter::Linear;

pub open spec fn mag_filter_of(f: Option<MagFilter>) -> Filter {
    match f {
        None => DEFAULT_TEXTURE_FILTER,
        Some(MagFilter::Nearest) => Filter::Nearest,
        Some(MagFilter::Linear) => Filter::Linear,
    }
}

/// Texel filter and mipmap mode of a minification filter.
pub open spec fn min_filter_of(f: Option<MinFilter>) -> (Filter, MipmapMode) {
    match f {
        None => (DEFAULT_TEXTURE_FILTER, MipmapMode::Linear),
        Some(MinFilter::Nearest) => (Filter::Nearest, MipmapMode::Nearest),
        Some(MinFilter::Linear) => (Filter::Linear, MipmapMode::Nearest),
        Some(MinFilter::NearestMipmapNearest) => (Filter::Nearest, MipmapMode::Nearest),
        Some(MinFilter::LinearMipmapNearest) => (Filter::Linear, MipmapMode::Nearest),
        Some(MinFilter::NearestMipmapLinear) => (Filter::Nearest, MipmapMode::Linear),
        Some(MinFilter::LinearMipmapLinear) => (Filter::Linear, MipmapMode::Linear),
    }
}

pub open spec fn address_mode_of(w: WrappingMode) -> AddressMode {
    match w {
        WrappingMode::ClampToEdge => AddressMode::ClampToEdge,
        WrappingMode::MirroredRepeat => AddressMode::MirroredRepeat,
        WrappingMode::Repeat => AddressMode::Repeat,
    }
}

pub open spec fn sampler_info_of(s: SamplerDesc) -> SamplerInfo {
    SamplerInfo {
        mag_filter: mag_filter_of(s.mag_filter),
        min_filter: min_filter_of(s.min_filter).0,
        mipmap_mode: min_filter_of(s.min_filter).1,
        address_mode_u: address_mode_of(s.wrap_s),
        address_mode_v: address_mode_of(s.wrap_t),
    }
}

/// The settings of a sampler that no document describes.
pub open spec fn default_sampler_info() -> SamplerInfo {
    SamplerInfo {
        mag_filter: DEFAULT_TEXTURE_FILTER,
        min_filter: DEFAULT_TEXTURE_FILTER,
        mipmap_mode: MipmapMode::Linear,
        address_mode_u: AddressMode::Repeat,
        address_mode_v: AddressMode::Repeat,
    }
}

pub fn default_sampler() -> (r: SamplerInfo)
    ensures
        r == default_sampler_info(),
{
    SamplerInfo {
        mag_filter: DEFAULT_TEXTURE_FILTER,
        min_filter: DEFAULT_TEXTURE_FILTER,
        mipmap_mode: MipmapMode::Linear,
        address_mode_u: AddressMode::Repeat,
        address_mode_v: AddressMode::Repeat,
    }
}

pub fn conv_wrapping_mode(mode: WrappingMode) -> (r: AddressMode)
    ensures
        r == address_mode_of(mode),
{
    match mode {
        WrappingMode::ClampToEdge => AddressMode::ClampToEdge,
        WrappingMode::MirroredRepeat => AddressMode::MirroredRepeat,
        WrappingMode::Repeat => AddressMode::Repeat,
    }
}

/// Translates a document's sampler field by field.
pub fn convert_sampler(sampler: &SamplerDesc) -> (r: SamplerInfo)
    ensures
        r == sampler_info_of(*sampler),
{
    let mag_filter = match sampler.mag_filter {
        None => DEFAULT_TEXTURE_FILTER,
        Some(MagFilter::Nearest) => Filter::Nearest,
        Some(MagFilter::Linear) => Filter::Linear,
    };
    let (min_filter, mipmap_mode) = match sampler.min_filter {
        None => (DEFAULT_TEXTURE_FILTER, MipmapMode::Linear),
        Some(MinFilter::Nearest) => (Filter::Nearest, MipmapMode::Nearest),
        Some(MinFilter::Linear) => (Filter::Linear, MipmapMode::Nearest),
        Some(MinFilter::NearestMipmapNearest) => (Filter::Nearest, MipmapMode::Nearest),
        Some(MinFilter::LinearMipmapNearest) => (Filter::Linear, MipmapMode::Nearest),
        Some(MinFilter::NearestMipmapLinear) => (Filter::Nearest, MipmapMode::Linear),
        Some(MinFilter::LinearMipmapLinear) => (Filter::Linear, MipmapMode::Linear),
    };
    SamplerInfo {
        mag_filter,
        min_filter,
        mipmap_mode,
        address_mode_u: conv_wrapping_mode(sampler.wrap_s),
        address_mode_v: conv_wrapping_mode(sampler.wrap_t),
    }
}

} // verus!
