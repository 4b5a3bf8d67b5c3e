//! Texture and sampler records: filter, wrap, format and texel-type
//! enumerations with their wire codes and defaults.

use vstd::prelude::*;

verus! {

/// Extension-specific sampler data; no extension is modeled, and unknown
/// extension fields are ignored.
#[derive(Clone, Copy, Debug, PartialEq, Eq, Structural)]
pub struct SamplerExtensions {}

/// Extension-specific texture data; no extension is modeled, and unknown
/// extension fields are ignored.
#[derive(Clone, Copy, Debug, PartialEq, Eq, Structural)]
pub struct TextureExtensions {}

/// Magnification or minification filter of a sampler.
#[derive(Clone, Copy, Debug, PartialEq, Eq, Structural)]
pub enum Filter {
    Nearest,
    Linear,
    NearestMipmapNearest,
    LinearMipmapNearest,
    NearestMipmapLinear,
    LinearMipmapLinear,
}

impl Filter {
    /// The numeric wire code of this filter.
    pub open spec fn code_spec(self) -> u32 {
        match self {
            Filter::Nearest => 9728,
            Filter::Linear => 9729,
            Filter::NearestMipmapNearest => 9984,
            Filter::LinearMipmapNearest => 9985,
            Filter::NearestMipmapLinear => 9986,
            Filter::LinearMipmapLinear => 9987,
        }
    }

    /// The numeric wire code of this filter.
    pub fn code(self) -> (r: u32)
        ensures
            r == self.code_spec(),
    {
        match self {
            Filter::Nearest => 9728,
            Filter::Linear => 9729,
            Filter::NearestMipmapNearest => 9984,
            Filter::LinearMipmapNearest => 9985,
            Filter::NearestMipmapLinear => 9986,
            Filter::LinearMipmapLinear => 9987,
        }
    }
}

impl Default for Filter {
    /// The filter assumed when a sampler record declares none at all.
    fn default() -> (r: Filter)
        ensures
            r == Filter::Nearest,
    {
        Filter::Nearest
    }
}

/// Texture co-ordinate wrapping mode of a sampler.
#[derive(Clone, Copy, Debug, PartialEq, Eq, Structural)]
pub enum Wrap {
    Repeat,
    ClampToEdge,
    MirroredRepeat,
}

impl Wrap {
    /// The numeric wire code of this wrapping mode.
    pub open spec fn code_spec(self) -> u32 {
        match self {
            Wrap::Repeat => 10497,
            Wrap::ClampToEdge => 33071,
            Wrap::MirroredRepeat => 33648,
        }
    }

    /// The numeric wire code of this wrapping mode.
    pub fn code(self) -> (r: u32)
        ensures
            r == self.code_spec(),
    {
        match self {
            Wrap::Repeat => 10497,
            Wrap::ClampToEdge => 33071,
            Wrap::MirroredRepeat => 33648,
        }
    }
}

impl Default for Wrap {
    /// The wrapping mode assumed when a sampler record declares none.
    fn default() -> (r: Wrap)
        ensures
            r == Wrap::Repeat,
    {
        Wrap::Repeat
    }
}

/// Pixel format of a texture.
#[derive(Clone, Copy, Debug, PartialEq, Eq, Structural)]
pub enum Format {
    Alpha,
    Rgb,
    Rgba,
    Luminance,
    LuminanceAlpha,
}

impl Format {
    /// The numeric wire code of this format.
    pub open spec fn code_spec(self) -> u32 {
        match self {
            Format::Alpha => 6406,
            Format::Rgb => 6407,
            Format::Rgba => 6408,
            Format::Luminance => 6409,
            Format::LuminanceAlpha => 6410,
        }
    }

    /// The numeric wire code of this format.
    pub fn code(self) -> (r: u32)
        ensures
            r == self.code_spec(),
    {
        match self {
            Format::Alpha => 6406,
            Format::Rgb => 6407,
            Format::Rgba => 6408,
            Format::Luminance => 6409,
            Format::LuminanceAlpha => 6410,
        }
    }
}

impl Default for Format {
    /// The format assumed when a texture record declares none.
    fn default() -> (r: Format)
        ensures
            r == Format::Rgba,
    {
        Format::Rgba
    }
}

/// Binding target of a texture.
#[derive(Clone, Copy, Debug, PartialEq, Eq, Structural)]
pub enum Target {
    Texture2d,
}

impl Target {
    /// The numeric wire code of this target.
    pub open spec fn code_spec(self) -> u32 {
        match self {
            Target::Texture2d => 3553,
        }
    }

    /// The numeric wire code of this target.
    pub fn code(self) -> (r: u32)
        ensures
            r == self.code_spec(),
    {
        match self {
            Target::Texture2d => 3553,
        }
    }
}

impl Default for Target {
    /// The target assumed when a texture record declares none.
    fn default() -> (r: Target)
        ensures
            r == Target::Texture2d,
    {
        Target::Texture2d
    }
}

/// Texel datatype of a texture.
#[derive(Clone, Copy, Debug, PartialEq, Eq, Structural)]
pub enum TexelType {
    U8,
    U16R5G6B5,
    U16R4G4B4A4,
    U16R5G5B5A1,
}

impl TexelType {
    /// The numeric wire code of this texel type.
    pub open spec fn code_spec(self) -> u32 {
        match self {
            TexelType::U8 => 5121,
            TexelType::U16R5G6B5 => 33635,
            TexelType::U16R4G4B4A4 => 32819,
            TexelType::U16R5G5B5A1 => 32820,
        }
    }

    /// The numeric wire code of this texel type.
    pub fn code(self) -> (r: u32)
        ensures
            r == self.code_spec(),
    {
        match self {
            TexelType::U8 => 5121,
            TexelType::U16R5G6B5 => 33635,
            TexelType::U16R4G4B4A4 => 32819,
            TexelType::U16R5G5B5A1 => 32820,
        }
    }
}

impl Default for TexelType {
    /// The texel type assumed when a texture record declares none.
    fn default() -> (r: TexelType)
        ensures
            r == TexelType::U8,
    {
        TexelType::U8
    }
}

/// The magnification filter a sampler record gets when the document omits
/// the field.
pub fn sample_mag_filter_default() -> (r: Filter)
    ensures
        r == Filter::Linear,
{
    Filter::Linear
}

/// The minification filter a sampler record gets when the document omits
/// the field.
pub fn sample_min_filter_default() -> (r: Filter)
    ensures
        r == Filter::NearestMipmapLinear,
{
    Filter::NearestMipmapLinear
}

/// The s wrapping mode a sampler record gets when the document omits the
/// field.
pub fn sample_wrap_s_default() -> (r: Wrap)
    ensures
        r == Wrap::Repeat,
{
    Wrap::Repeat
}

/// The t wrapping mode a sampler record gets when the document omits the
/// field.
pub fn sample_wrap_t_default() -> (r: Wrap)
    ensures
        r == Wrap::Repeat,
{
    Wrap::Repeat
}

/// A sampler record: filtering and wrapping of one texture.
#[derive(Clone, Debug)]
pub struct Sampler {
    /// Magnification filter.
    pub mag_filter: Filter,
    /// Minification filter.
    pub min_filter: Filter,
    /// s wrapping mode.
    pub wrap_s: Wrap,
    /// t wrapping mode.
    pub wrap_t: Wrap,
    /// The user-defined name of this object.
    pub name: Option<String>,
    /// A dictionary object containing extension-specific data.
    pub extensions: SamplerExtensions,
    /// Application-specific data, kept as raw text.
    pub extras: Option<String>,
}

impl Sampler {
    /// A sampler with every omitted field at its documented default.
    pub fn with_defaults() -> (r: Sampler)
        ensures
            r.mag_filter == Filter::Linear,
            r.min_filter == Filter::NearestMipmapLinear,
            r.wrap_s == Wrap::Repeat,
            r.wrap_t == Wrap::Repeat,
            r.name is None,
            r.extras is None,
    {
        Sampler {
            mag_filter: sample_mag_filter_default(),
            min_filter: sample_min_filter_default(),
            wrap_s: sample_wrap_s_default(),
            wrap_t: sample_wrap_t_default(),
            name: None,
            extensions: SamplerExtensions {},
            extras: None,
        }
    }
}

/// A texture record: format, sampler and image bindings.
#[derive(Clone, Debug)]
pub struct Texture {
    /// The texture's format.
    pub format: Format,
    /// The texture's internal format.
    pub internal_format: Format,
    /// The identifier of the sampler used by this texture.
    pub sampler: String,
    /// The identifier of the image used by this texture.
    pub source: String,
    /// The target the texture should be bound to.
    pub target: Target,
    /// Texel datatype.
    pub kind: TexelType,
    /// The user-defined name of this object; not necessarily unique.
    pub name: Option<String>,
    /// A dictionary object containing extension-specific data.
    pub extensions: TextureExtensions,
    /// Application-specific data, kept as raw text.
    pub extras: Option<String>,
}

} // verus!
