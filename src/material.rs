//! Material resolution: the diffuse texture, the per-frame uniform buffers and the
//! per-frame descriptor bindings of one material.

use vstd::prelude::*;
use crate::error::LoadError;
use crate::image_codec::{
    DecodedImage, decode_rgba, decoded_dimensions, format_of_mime, mime_format, sniff_format,
    sniffed_format,
};
use crate::sampler::{
    SamplerDesc, SamplerInfo, convert_sampler, default_sampler, default_sampler_info,
    sampler_info_of,
};

verus! {

/// Bytes of a material record in a uniform buffer: four 32-bit colour channels.
pub const MATERIAL_UNIFORM_SIZE: u64 = 16;

/// Bytes of a light record in a uniform buffer: a position and a colour, each
/// padded to four 32-bit words.
pub const LIGHT_UNIFORM_SIZE: u64 = 32;

/// Side of the square placeholder image of a material without a texture.
pub const PLACEHOLDER_SIZE: u32 = 128;

/// Where the encoded bytes of a texture are.
pub enum TextureSource {
    /// A span of one of the document's buffers; the MIME type picks the decoder.
    Embedded { buffer: usize, offset: usize, length: usize, mime: String },
    /// The contents of a file next to the document; without a MIME type the
    /// format is read from the bytes.
    File { bytes: Vec<u8>, declared_mime: Option<String> },
}

pub struct TextureDesc {
    pub source: TextureSource,
    pub sampler: SamplerDesc,
}

/// A material as the document states it. Colour channels are the bit patterns of
/// 32-bit floats.
pub struct MaterialDesc {
    pub base_color: [u32; 4],
    pub base_color_texture: Option<TextureDesc>,
}

/// The record held by each uniform buffer of a material.
#[derive(Clone, Copy, Debug)]
pub struct Material {
    pub base_color: [u32; 4],
}

/// The pixels of a diffuse texture.
pub enum TextureImage {
    Solid { rgba: [u8; 4], width: u32, height: u32 },
    Decoded(DecodedImage),
}

pub struct Texture {
    pub image: TextureImage,
    pub sampler: SamplerInfo,
}

/// One uniform buffer, filled once at creation.
#[derive(Clone, Copy, Debug)]
pub struct UniformBuffer {
    pub size: u64,
    pub contents: Material,
}

#[derive(Clone, Copy, Debug, PartialEq, Eq, Structural)]
pub enum DescriptorKind {
    UniformBuffer,
    CombinedImageSampler,
}

#[derive(Clone, Copy, Debug, PartialEq, Eq, Structural)]
pub enum ShaderStage {
    Vertex,
    Fragment,
}

/// What a binding points at; uniforms are named by their frame.
#[derive(Clone, Copy, Debug, PartialEq, Eq, Structural)]
pub enum BoundResource {
    MaterialUniform(usize),
    DiffuseTexture,
    LightUniform(usize),
}

/// One binding update of one descriptor set; `set` is the frame of the set.
#[derive(Clone, Copy, Debug, PartialEq, Eq, Structural)]
pub struct DescriptorWrite {
    pub set: usize,
    pub binding: u32,
    pub kind: DescriptorKind,
    pub stage: ShaderStage,
    pub resource: BoundResource,
    pub range: u64,
}

/// A resolved material: its texture, one uniform buffer and one descriptor set per
/// frame in flight, and the writes that fill those sets.
pub struct MaterialBindings {
    pub material: Material,
    pub texture: Texture,
    pub uniform_buffers: Vec<UniformBuffer>,
    pub writes: Vec<DescriptorWrite>,
}

/// The `k`-th of the four binding updates of the descriptor set of frame `i`.
pub open spec fn frame_write(i: usize, k: int) -> DescriptorWrite {
    if k == 0 {
        DescriptorWrite {
            set: i,
            binding: 0,
            kind: DescriptorKind::UniformBuffer,
            stage: ShaderStage::Vertex,
            resource: BoundResource::MaterialUniform(i),
            range: MATERIAL_UNIFORM_SIZE,
        }
    } else if k == 1 {
        DescriptorWrite {
            set: i,
            binding: 0,
            kind: DescriptorKind::CombinedImageSampler,
            stage: ShaderStage::Fragment,
            resource: BoundResource::DiffuseTexture,
            range: 0,
        }
    } else if k == 2 {
        DescriptorWrite {
            set: i,
            binding: 1,
            kind: DescriptorKind::UniformBuffer,
            stage: ShaderStage::Fragment,
            resource: BoundResource::MaterialUniform(i),
            range: MATERIAL_UNIFORM_SIZE,
        }
    } else {
        DescriptorWrite {
            set: i,
            binding: 2,
            kind: DescriptorKind::UniformBuffer,
            stage: ShaderStage::Fragment,
            resource: BoundResource::LightUniform(i),
            range: LIGHT_UNIFORM_SIZE,
        }
    }
}

/// The writes of `frames` descriptor sets: four per set, set after set.
pub open spec fn descriptor_writes_ok(writes: Seq<DescriptorWrite>, frames: nat) -> bool {
    &&& writes.len() == 4 * frames
    &&& forall|i: int, k: int|
        0 <= i < frames && 0 <= k < 4 ==> #[trigger] writes[4 * i + k] == frame_write(
            i as usize,
            k,
        )
}

/// `frames` uniform buffers, each holding `material`.
pub open spec fn uniform_buffers_ok(buffers: Seq<UniformBuffer>, material: Material, frames: nat) -> bool {
    &&& buffers.len() == frames
    &&& forall|i: int|
        0 <= i < frames ==> #[trigger] buffers[i] == UniformBuffer {
            size: MATERIAL_UNIFORM_SIZE,
            contents: material,
        }
}

/// The encoded bytes that a texture source designates, if they are there.
pub open spec fn source_bytes(src: TextureSource, buffers: Seq<Vec<u8>>) -> Option<Seq<u8>> {
    match src {
        TextureSource::Embedded { buffer, offset, length, .. } => {
            if buffer < buffers.len() && offset + length <= buffers[buffer as int]@.len() {
                Some(buffers[buffer as int]@.subrange(offset as int, offset + length))
            } else {
                None
            }
        },
        TextureSource::File { bytes, .. } => Some(bytes@),
    }
}

/// The format in which a source's `bytes` are decoded.
pub open spec fn source_format(src: TextureSource, bytes: Seq<u8>) -> Option<image::ImageFormat> {
    match src {
        TextureSource::Embedded { mime, .. } => mime_format(mime@),
        TextureSource::File { declared_mime, .. } => match declared_mime {
            Some(m) => mime_format(m@),
            None => sniffed_format(bytes),
        },
    }
}

/// What decoding a texture source gives: its width and height, or the error.
pub open spec fn texture_outcome(src: TextureSource, buffers: Seq<Vec<u8>>) -> Result<
    (u32, u32),
    LoadError,
> {
    match source_bytes(src, buffers) {
        None => Err(LoadError::Parse),
        Some(bytes) => match source_format(src, bytes) {
            None => Err(LoadError::UnsupportedFormat),
            Some(format) => match decoded_dimensions(bytes, format) {
                None => Err(LoadError::Decode),
                Some(img) => Ok(img),
            },
        },
    }
}

/// The solid opaque white placeholder of a material without a texture.
pub open spec fn is_placeholder(t: Texture) -> bool {
    &&& t.image == (TextureImage::Solid {
        rgba: [255u8, 255u8, 255u8, 255u8],
        width: PLACEHOLDER_SIZE,
        height: PLACEHOLDER_SIZE,
    })
    &&& t.sampler == default_sampler_info()
}

/// What a resolved material holds: its colour, its texture (decoded, or the
/// placeholder), and one uniform buffer and one descriptor set per frame.
pub open spec fn bindings_match(
    b: MaterialBindings,
    desc: MaterialDesc,
    buffers: Seq<Vec<u8>>,
    frames: nat,
) -> bool {
    &&& b.material == (Material { base_color: desc.base_color })
    &&& uniform_buffers_ok(b.uniform_buffers@, b.material, frames)
    &&& descriptor_writes_ok(b.writes@, frames)
    &&& match desc.base_color_texture {
        None => is_placeholder(b.texture),
        Some(t) => {
            &&& b.texture.sampler == sampler_info_of(t.sampler)
            &&& b.texture.image matches TextureImage::Decoded(img)
            &&& texture_outcome(t.source, buffers) == Ok::<_, LoadError>(img.dimensions())
        },
    }
}

/// Whether a material's texture resolves.
pub open spec fn material_outcome_ok(m: MaterialDesc, buffers: Seq<Vec<u8>>) -> bool {
    match m.base_color_texture {
        None => true,
        Some(t) => texture_outcome(t.source, buffers) is Ok,
    }
}

/// The error with which a material fails to resolve.
pub open spec fn material_error(m: MaterialDesc, buffers: Seq<Vec<u8>>) -> LoadError {
    texture_outcome(m.base_color_texture->0.source, buffers)->Err_0
}

fn copy_span(bytes: &Vec<u8>, offset: usize, length: usize) -> (r: Vec<u8>)
    requires
        offset + length <= bytes@.len(),
    ensures
        r@ == bytes@.subrange(offset as int, offset + length),
{
    let mut r: Vec<u8> = Vec::with_capacity(length);
    let n: usize = bytes.len();
    let mut i: usize = 0;
    while i < length
        invariant
            i <= length,
            n == bytes@.len(),
            offset + length <= bytes@.len(),
            r@ == bytes@.subrange(offset as int, offset + i),
        decreases length - i,
    {
        r.push(bytes[offset + i]);
        i = i + 1;
    }
    r
}

/// Decodes the image of a texture source into RGBA pixels.
pub fn decode_texture(src: &TextureSource, buffers: &Vec<Vec<u8>>) -> (r: Result<
    DecodedImage,
    LoadError,
>)
    ensures
        match (r, texture_outcome(*src, buffers@)) {
            (Ok(img), Ok(expected)) => img.dimensions() == expected && img.pixels@.len() == 4 * img.width
                * img.height,
            (Err(e), Err(expected)) => e == expected,
            _ => false,
        },
{
    match src {
        TextureSource::Embedded { buffer, offset, length, mime } => {
            if *buffer >= buffers.len() || *length > buffers[*buffer].len()
                || *offset > buffers[*buffer].len() - *length {
                return Err(LoadError::Parse);
            }
            let bytes = copy_span(&buffers[*buffer], *offset, *length);
            match format_of_mime(mime.as_str()) {
                None => Err(LoadError::UnsupportedFormat),
                Some(format) => match decode_rgba(bytes.as_slice(), format) {
                    None => Err(LoadError::Decode),
                    Some(img) => Ok(img),
                },
            }
        },
        TextureSource::File { bytes, declared_mime } => {
            let format = match declared_mime {
                Some(m) => format_of_mime(m.as_str()),
                None => sniff_format(bytes.as_slice()),
            };
            match format {
                None => Err(LoadError::UnsupportedFormat),
                Some(format) => match decode_rgba(bytes.as_slice(), format) {
                    None => Err(LoadError::Decode),
                    Some(img) => Ok(img),
                },
            }
        },
    }
}

/// The solid opaque white texture that stands in for a missing one.
pub fn placeholder_texture() -> (r: Texture)
    ensures
        is_placeholder(r),
{
    Texture {
        image: TextureImage::Solid {
            rgba: [255u8, 255u8, 255u8, 255u8],
            width: PLACEHOLDER_SIZE,
            height: PLACEHOLDER_SIZE,
        },
        sampler: default_sampler(),
    }
}

/// One uniform buffer holding `material` for each of `frames` frames in flight.
pub fn create_uniform_buffers(material: &Material, frames: usize) -> (r: Vec<UniformBuffer>)
    ensures
        uniform_buffers_ok(r@, *material, frames as nat),
{
    let mut r: Vec<UniformBuffer> = Vec::new();
    let mut i: usize = 0;
    while i < frames
        invariant
            i <= frames,
            uniform_buffers_ok(r@, *material, i as nat),
        decreases frames - i,
    {
        r.push(UniformBuffer { size: MATERIAL_UNIFORM_SIZE, contents: *material });
        i = i + 1;
    }
    r
}

/// The binding updates of one descriptor set per frame in flight: the material
/// uniform for the vertex stage, then the diffuse texture, the material uniform
/// and the light uniform for the fragment stage, each set bound to its own frame.
pub fn write_sets(frames: usize) -> (r: Vec<DescriptorWrite>)
    requires
        4 * frames <= usize::MAX,
    ensures
        descriptor_writes_ok(r@, frames as nat),
{
    let mut r: Vec<DescriptorWrite> = Vec::new();
    let mut i: usize = 0;
    while i < frames
        invariant
            i <= frames,
            4 * frames <= usize::MAX,
            descriptor_writes_ok(r@, i as nat),
        decreases frames - i,
    {
        let ghost prev = r@;
        r.push(DescriptorWrite {
            set: i,
            binding: 0,
            kind: DescriptorKind::UniformBuffer,
            stage: ShaderStage::Vertex,
            resource: BoundResource::MaterialUniform(i),
            range: MATERIAL_UNIFORM_SIZE,
        });
        r.push(DescriptorWrite {
            set: i,
            binding: 0,
            kind: DescriptorKind::CombinedImageSampler,
            stage: ShaderStage::Fragment,
            resource: BoundResource::DiffuseTexture,
            range: 0,
        });
        r.push(DescriptorWrite {
            set: i,
            binding: 1,
            kind: DescriptorKind::UniformBuffer,
            stage: ShaderStage::Fragment,
            resource: BoundResource::MaterialUniform(i),
            range: MATERIAL_UNIFORM_SIZE,
        });
        r.push(DescriptorWrite {
            set: i,
            binding: 2,
            kind: DescriptorKind::UniformBuffer,
            stage: ShaderStage::Fragment,
            resource: BoundResource::LightUniform(i),
            range: LIGHT_UNIFORM_SIZE,
        });
        assert forall|j: int, k: int| 0 <= j < i + 1 && 0 <= k < 4 implies #[trigger] r@[4 * j
            + k] == frame_write(j as usize, k) by {
            if j < i {
                assert(r@[4 * j + k] == prev[4 * j + k]);
            }
        }
        i = i + 1;
    }
    r
}

/// The bindings of a material whose texture is already at hand.
pub fn material_bindings(material: Material, texture: Texture, frames: usize) -> (r: MaterialBindings)
    requires
        4 * frames <= usize::MAX,
    ensures
        r.material == material,
        r.texture == texture,
        uniform_buffers_ok(r.uniform_buffers@, material, frames as nat),
        descriptor_writes_ok(r.writes@, frames as nat),
{
    let uniform_buffers = create_uniform_buffers(&material, frames);
    let writes = write_sets(frames);
    MaterialBindings { material, texture, uniform_buffers, writes }
}

/// Resolves a material: its texture is decoded, or stands in as a placeholder
/// where the material has none.
pub fn load_material(desc: &MaterialDesc, buffers: &Vec<Vec<u8>>, frames: usize) -> (r: Result<
    MaterialBindings,
    LoadError,
>)
    requires
        4 * frames <= usize::MAX,
    ensures
        r is Ok <==> material_outcome_ok(*desc, buffers@),
        r is Err ==> r->Err_0 == material_error(*desc, buffers@),
        r matches Ok(b) ==> bindings_match(b, *desc, buffers@, frames as nat),
{
    let texture = match &desc.base_color_texture {
        None => placeholder_texture(),
        Some(t) => match decode_texture(&t.source, buffers) {
            Err(e) => {
                return Err(e);
            },
            Ok(img) => Texture { image: TextureImage::Decoded(img), sampler: convert_sampler(&t.sampler) },
        },
    };
    let material = Material { base_color: desc.base_color };
    Ok(material_bindings(material, texture, frames))
}

} // verus!
