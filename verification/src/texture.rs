//! The texture loader: decoding the bundled image asset into an RGBA8
//! pixel buffer, and the descriptors (texture, upload layout, sampler) that
//! the GPU layer builds from it.

use vstd::prelude::*;

use crate::surface::{InitError, SurfaceConfig};

verus! {

/// Whether the image decoder accepts these bytes as an image.
pub uninterp spec fn decodes(bytes: Seq<u8>) -> bool;

/// The pixel width and height the decoder reports for these bytes.
pub uninterp spec fn decoded_dims(bytes: Seq<u8>) -> (u32, u32);

/// The RGBA8 pixel buffer the decoder produces from these bytes.
pub uninterp spec fn decoded_rgba(bytes: Seq<u8>) -> Seq<u8>;

/// Declares `image::ImageError`, the decoder's error type, so the trusted
/// decoder below can return it; the library maps it to its own error.
#[verifier::external_type_specification]
#[verifier::external_body]
pub struct ExImageError(image::ImageError);

/// Relies on `image::load_from_memory`, `image::DynamicImage::to_rgba8` and
/// `image::ImageBuffer::{dimensions, into_raw}`: whether the bytes decode,
/// the pixel dimensions and the RGBA8 buffer are functions of the bytes
/// alone, and the buffer holds exactly 4 bytes per pixel.
#[verifier::external_body]
fn decode_rgba(bytes: &[u8]) -> (r: Result<(u32, u32, Vec<u8>), image::ImageError>)
    ensures
        r is Ok <==> decodes(bytes@),
        r matches Ok(t) ==> ({
            &&& (t.0, t.1) == decoded_dims(bytes@)
            &&& t.2@ == decoded_rgba(bytes@)
            &&& t.2@.len() == 4 * (t.0 as nat) * (t.1 as nat)
        }),
{
    let img = image::load_from_memory(bytes)?;
    let rgba = img.to_rgba8();
    let (w, h) = rgba.dimensions();
    Ok((w, h, rgba.into_raw()))
}

/// A decoded image, ready to upload: its pixel dimensions and its RGBA8
/// pixel buffer, 4 bytes per pixel.
#[derive(Debug)]
pub struct TextureImage {
    pub width: u32,
    pub height: u32,
    pub rgba: Vec<u8>,
}

impl TextureImage {
    /// The pixel buffer holds exactly 4 bytes for each of width * height
    /// pixels.
    pub open spec fn wf(self) -> bool {
        self.rgba@.len() == 4 * self.width * self.height
    }

    /// This image is what decoding `bytes` yields.
    pub open spec fn is_decode_of(self, bytes: Seq<u8>) -> bool {
        &&& decodes(bytes)
        &&& (self.width, self.height) == decoded_dims(bytes)
        &&& self.rgba@ == decoded_rgba(bytes)
    }

    /// Decodes an image asset. Returns the decoded pixels for exactly the
    /// byte strings the decoder accepts; any other input is the fatal
    /// `TextureDecode` startup error.
    pub fn from_bytes(bytes: &[u8]) -> (r: Result<TextureImage, InitError>)
        ensures
            r is Ok <==> decodes(bytes@),
            r matches Ok(t) ==> t.wf() && t.is_decode_of(bytes@),
            r is Err ==> r == Err::<TextureImage, InitError>(InitError::TextureDecode),
    {
        match decode_rgba(bytes) {
            Ok((w, h, rgba)) => Ok(TextureImage { width: w, height: h, rgba }),
            Err(_) => Err(InitError::TextureDecode),
        }
    }

    /// How the pixel buffer is handed to the transfer queue: from offset 0,
    /// with a row stride of 4 bytes per pixel of width, one row per pixel of
    /// height. Yields nothing only when the row stride would not fit in 32
    /// bits; the whole buffer is then exactly the stated rows.
    pub fn upload_layout(&self) -> (r: Option<UploadLayout>)
        ensures
            r is Some <==> self.width <= u32::MAX / 4,
            r matches Some(l) ==> ({
                &&& l.offset == 0
                &&& l.bytes_per_row == 4 * self.width
                &&& l.rows_per_image == self.height
                &&& self.wf() ==> self.rgba@.len() == l.bytes_per_row * l.rows_per_image
            }),
    {
        if self.width <= u32::MAX / 4 {
            proof {
                assert((4 * (self.width as int)) * (self.height as int) == 4 * ((
                self.width as int) * (self.height as int))) by (nonlinear_arith);
            }
            Some(
                UploadLayout {
                    offset: 0,
                    bytes_per_row: 4 * self.width,
                    rows_per_image: self.height,
                },
            )
        } else {
            None
        }
    }
}

/// Decoding the same bytes a second time yields the same dimensions and the
/// same pixel buffer, byte for byte.
pub proof fn lemma_decode_deterministic(bytes: Seq<u8>, a: TextureImage, b: TextureImage)
    requires
        a.is_decode_of(bytes),
        b.is_decode_of(bytes),
    ensures
        a.width == b.width,
        a.height == b.height,
        a.rgba@.len() == b.rgba@.len(),
        a.rgba@ == b.rgba@,
{
}

/// How the pixel buffer lies in the transfer: a starting offset, the byte
/// stride between rows, and the number of rows.
#[derive(Clone, Copy, Debug, PartialEq, Eq, Structural)]
pub struct UploadLayout {
    pub offset: u64,
    pub bytes_per_row: u32,
    pub rows_per_image: u32,
}

/// The texture formats the engine uses.
#[derive(Clone, Copy, Debug, PartialEq, Eq, Structural)]
pub enum PixelFormat {
    /// 8-bit RGBA, linear encoding; used for normal maps.
    Rgba8Unorm,
    /// 8-bit RGBA, sRGB encoding; used for color textures.
    Rgba8UnormSrgb,
    /// 32-bit depth; used by the depth-texture helpers.
    Depth32Float,
}

/// Picks the color texture format: linear for a normal map, sRGB otherwise.
pub fn color_format(is_normal_map: bool) -> (f: PixelFormat)
    ensures
        f == (if is_normal_map {
            PixelFormat::Rgba8Unorm
        } else {
            PixelFormat::Rgba8UnormSrgb
        }),
{
    if is_normal_map {
        PixelFormat::Rgba8Unorm
    } else {
        PixelFormat::Rgba8UnormSrgb
    }
}

/// The size of a texture in texels and array layers.
#[derive(Clone, Copy, Debug, PartialEq, Eq, Structural)]
pub struct Extent {
    pub width: u32,
    pub height: u32,
    pub layers: u32,
}

/// Everything the GPU layer needs to create a texture: its size, mip and
/// sample counts, format, the usages it is created for, and whether it is
/// viewed as a cube.
#[derive(Clone, Copy, Debug, PartialEq, Eq, Structural)]
pub struct TextureDesc {
    pub extent: Extent,
    pub mip_level_count: u32,
    pub sample_count: u32,
    pub format: PixelFormat,
    pub render_attachment: bool,
    pub texture_binding: bool,
    pub copy_dst: bool,
    pub cube_view: bool,
}

/// Describes the texture for a decoded color image: a single-layer,
/// single-mip, single-sample 2D texture at the image's pixel dimensions,
/// bindable by shaders and a copy destination for the upload, in linear or
/// sRGB format by the normal-map flag.
pub fn color_texture_desc(width: u32, height: u32, is_normal_map: bool) -> (d: TextureDesc)
    ensures
        d.extent == (Extent { width, height, layers: 1 }),
        d.mip_level_count == 1,
        d.sample_count == 1,
        d.format == (if is_normal_map {
            PixelFormat::Rgba8Unorm
        } else {
            PixelFormat::Rgba8UnormSrgb
        }),
        !d.render_attachment,
        d.texture_binding,
        d.copy_dst,
        !d.cube_view,
{
    TextureDesc {
        extent: Extent { width, height, layers: 1 },
        mip_level_count: 1,
        sample_count: 1,
        format: color_format(is_normal_map),
        render_attachment: false,
        texture_binding: true,
        copy_dst: true,
        cube_view: false,
    }
}

/// Describes a depth texture matching a configured surface: a single-layer,
/// single-mip, single-sample 2D depth texture at the surface's size, used
/// as a render attachment and bindable by shaders.
pub fn depth_texture_desc(config: &SurfaceConfig) -> (d: TextureDesc)
    ensures
        d.extent == (Extent { width: config.width, height: config.height, layers: 1 }),
        d.mip_level_count == 1,
        d.sample_count == 1,
        d.format == PixelFormat::Depth32Float,
        d.render_attachment,
        d.texture_binding,
        !d.copy_dst,
        !d.cube_view,
{
    TextureDesc {
        extent: Extent { width: config.width, height: config.height, layers: 1 },
        mip_level_count: 1,
        sample_count: 1,
        format: PixelFormat::Depth32Float,
        render_attachment: true,
        texture_binding: true,
        copy_dst: false,
        cube_view: false,
    }
}

/// Describes a cube texture: six array layers viewed as a cube, single
/// sample, with the caller's format, mip count and usages.
pub fn cube_texture_desc(
    width: u32,
    height: u32,
    format: PixelFormat,
    mip_level_count: u32,
    render_attachment: bool,
    texture_binding: bool,
    copy_dst: bool,
) -> (d: TextureDesc)
    ensures
        d.extent == (Extent { width, height, layers: 6 }),
        d.mip_level_count == mip_level_count,
        d.sample_count == 1,
        d.format == format,
        d.render_attachment == render_attachment,
        d.texture_binding == texture_binding,
        d.copy_dst == copy_dst,
        d.cube_view,
{
    TextureDesc {
        extent: Extent { width, height, layers: 6 },
        mip_level_count,
        sample_count: 1,
        format,
        render_attachment,
        texture_binding,
        copy_dst,
        cube_view: true,
    }
}

/// A sampler filter: nearest texel or linear interpolation.
#[derive(Clone, Copy, Debug, PartialEq, Eq, Structural)]
pub enum FilterChoice {
    Nearest,
    Linear,
}

/// How a sampler reads a texture: one address mode for all three axes, the
/// three filters, and whether it compares depth with less-or-equal. The
/// level-of-detail clamps are left to the GPU layer's defaults.
#[derive(Clone, Copy, Debug, PartialEq, Eq, Structural)]
pub struct SamplerDesc {
    /// Whether coordinates outside [0, 1] clamp to the edge texel (the
    /// engine never repeats or mirrors).
    pub clamp_to_edge: bool,
    pub mag_filter: FilterChoice,
    pub min_filter: FilterChoice,
    pub mipmap_filter: FilterChoice,
    /// A comparison sampler testing depth with less-or-equal.
    pub compare_less_equal: bool,
}

/// Describes the sampler created beside every color texture: clamped
/// addressing, the caller's magnification filter, nearest for everything
/// else, and no depth comparison.
pub fn standard_sampler_desc(mag_filter: FilterChoice) -> (s: SamplerDesc)
    ensures
        s.clamp_to_edge,
        s.mag_filter == mag_filter,
        s.min_filter == FilterChoice::Nearest,
        s.mipmap_filter == FilterChoice::Nearest,
        !s.compare_less_equal,
{
    SamplerDesc {
        clamp_to_edge: true,
        mag_filter,
        min_filter: FilterChoice::Nearest,
        mipmap_filter: FilterChoice::Nearest,
        compare_less_equal: false,
    }
}

/// Describes a depth-texture sampler: clamped addressing; a comparison
/// sampler filters linearly and compares less-or-equal, a non-comparison
/// one reads the nearest texel and does not compare.
pub fn depth_sampler_desc(comparison: bool) -> (s: SamplerDesc)
    ensures
        s.clamp_to_edge,
        s.mipmap_filter == FilterChoice::Nearest,
        comparison ==> s.mag_filter == FilterChoice::Linear && s.min_filter
            == FilterChoice::Linear && s.compare_less_equal,
        !comparison ==> s.mag_filter == FilterChoice::Nearest && s.min_filter
            == FilterChoice::Nearest && !s.compare_less_equal,
{
    if comparison {
        SamplerDesc {
            clamp_to_edge: true,
            mag_filter: FilterChoice::Linear,
            min_filter: FilterChoice::Linear,
            mipmap_filter: FilterChoice::Nearest,
            compare_less_equal: true,
        }
    } else {
        SamplerDesc {
            clamp_to_edge: true,
            mag_filter: FilterChoice::Nearest,
            min_filter: FilterChoice::Nearest,
            mipmap_filter: FilterChoice::Nearest,
            compare_less_equal: false,
        }
    }
}

} // verus!
