//! Texture resources as plain descriptions: the diffuse texture with the
//! pixels to upload, the depth buffer and the multisample colour buffer.

use crate::surface::SurfaceConfiguration;
use image::GenericImageView;
use vstd::prelude::*;

verus! {

/// `image::DynamicImage`, a decoded image. Nothing of its inside is known
/// here: it is handed on to the functions below.
#[verifier::external_type_specification]
#[verifier::external_body]
pub struct ExDynamicImage(image::DynamicImage);

/// `image::ImageError`, the decoder's error. It is not looked into.
#[verifier::external_type_specification]
#[verifier::external_body]
pub struct ExImageError(image::ImageError);

/// The width and height of a decoded image, in pixels.
pub uninterp spec fn image_size(image: image::DynamicImage) -> (u32, u32);

/// The pixels of a decoded image as 8-bit RGBA, row by row, and whatever
/// the image's buffer holds behind them.
pub uninterp spec fn image_rgba8(image: image::DynamicImage) -> Seq<u8>;

/// `image::ImageReader::decode`, on a reader over `bytes` whose format was
/// guessed from them and whose limits were lifted. Nothing is claimed of
/// which bytes decode, nor of the image that comes out.
#[verifier::external_body]
fn decode_image(bytes: &[u8]) -> (result: Result<image::DynamicImage, image::ImageError>) {
    let mut reader = image::ImageReader::new(std::io::Cursor::new(bytes));
    reader.no_limits();
    reader.with_guessed_format()?.decode()
}

/// `image::GenericImageView::dimensions` of a `DynamicImage`: the width and
/// height that the image was made with.
#[verifier::external_body]
fn image_dimensions(image: &image::DynamicImage) -> (size: (u32, u32))
    ensures
        size == image_size(*image),
{
    image.dimensions()
}

/// `image::DynamicImage::to_rgba8`, and `into_raw` of the buffer it returns:
/// the image converted to 8-bit RGBA. The buffer keeps the image's size, and
/// holds at least four bytes for each pixel.
#[verifier::external_body]
fn image_to_rgba8(image: &image::DynamicImage) -> (pixels: Vec<u8>)
    ensures
        pixels@ == image_rgba8(*image),
        pixels@.len() >= 4 * image_size(*image).0 * image_size(*image).1,
{
    image.to_rgba8().into_raw()
}

/// The texel formats that the renderer uses.
#[derive(Clone, Copy, Debug, PartialEq, Eq, Structural)]
pub enum TextureFormat {
    /// Four 8-bit channels, sRGB encoded.
    Rgba8UnormSrgb,
    /// One 32-bit depth channel.
    Depth32Float,
    /// The format that the presentation surface was configured with.
    Surface,
}

/// What a texture may be used for.
#[derive(Clone, Copy, Debug, PartialEq, Eq, Structural)]
pub struct TextureUsages {
    pub texture_binding: bool,
    pub copy_dst: bool,
    pub render_attachment: bool,
}

/// The description from which the graphics backend creates a
/// two-dimensional texture.
#[derive(Clone, Copy, Debug, PartialEq, Eq, Structural)]
pub struct TextureDescriptor {
    pub width: u32,
    pub height: u32,
    pub depth_or_array_layers: u32,
    pub mip_level_count: u32,
    pub sample_count: u32,
    pub format: TextureFormat,
    pub usage: TextureUsages,
}

/// Why no texture could be made.
#[derive(Clone, Copy, Debug, PartialEq, Eq, Structural)]
pub enum TextureError {
    /// The bytes are not an image that could be decoded.
    Decode,
    /// A row of the image has more bytes than 32 bits can count.
    RowTooLong,
    /// There are fewer pixels than the width and height ask for.
    MissingPixels,
}

/// The diffuse texture: its description, and the pixels to copy into it.
#[derive(Debug)]
pub struct Texture {
    pub descriptor: TextureDescriptor,
    pub pixels: Vec<u8>,
    pub bytes_per_row: u32,
    pub rows_per_image: u32,
}

/// The description of a sampled RGBA texture of the given size.
pub open spec fn sampled_descriptor(width: u32, height: u32) -> TextureDescriptor {
    TextureDescriptor {
        width,
        height,
        depth_or_array_layers: 1,
        mip_level_count: 1,
        sample_count: 1,
        format: TextureFormat::Rgba8UnormSrgb,
        usage: TextureUsages { texture_binding: true, copy_dst: true, render_attachment: false },
    }
}

/// The description of a texture that is rendered to, as large as the surface.
pub open spec fn attachment_descriptor(
    config: SurfaceConfiguration,
    sample_count: u32,
    format: TextureFormat,
) -> TextureDescriptor {
    TextureDescriptor {
        width: config.width,
        height: config.height,
        depth_or_array_layers: 1,
        mip_level_count: 1,
        sample_count,
        format,
        usage: TextureUsages { texture_binding: false, copy_dst: false, render_attachment: true },
    }
}

impl Texture {
    /// The pixels fill the texture: four bytes a pixel, rows without padding.
    pub open spec fn wf(&self) -> bool {
        &&& self.descriptor == sampled_descriptor(self.descriptor.width, self.descriptor.height)
        &&& self.bytes_per_row == 4 * self.descriptor.width
        &&& self.rows_per_image == self.descriptor.height
        &&& self.pixels@.len() >= self.bytes_per_row * self.rows_per_image
    }

    /// What [`Texture::from_rgba8`] returns for an image of `width` by
    /// `height` pixels with `len` bytes of pixel data: the error, if any.
    pub open spec fn rgba8_error(width: u32, height: u32, len: nat) -> Option<TextureError> {
        if 4 * width > u32::MAX {
            Some(TextureError::RowTooLong)
        } else if len < 4 * width * height {
            Some(TextureError::MissingPixels)
        } else {
            None
        }
    }

    /// Makes the texture for `width` by `height` pixels of 8-bit RGBA.
    pub fn from_rgba8(width: u32, height: u32, pixels: Vec<u8>) -> (result: Result<
        Texture,
        TextureError,
    >)
        ensures
            match Self::rgba8_error(width, height, pixels@.len()) {
                Some(error) => result == Err::<Texture, TextureError>(error),
                None => (result matches Ok(texture) && texture.wf() && texture.descriptor
                    == sampled_descriptor(width, height) && texture.pixels@ == pixels@),
            },
    {
        if width > u32::MAX / 4 {
            return Err(TextureError::RowTooLong);
        }
        let bytes_per_row: u32 = 4 * width;
        assert(bytes_per_row * height <= u64::MAX && bytes_per_row * height == 4 * width * height)
            by (nonlinear_arith)
            requires
                bytes_per_row == 4 * width,
                bytes_per_row <= u32::MAX,
                height <= u32::MAX,
        ;
        let needed: u64 = bytes_per_row as u64 * height as u64;
        if (pixels.len() as u64) < needed {
            return Err(TextureError::MissingPixels);
        }
        Ok(
            Texture {
                descriptor: TextureDescriptor {
                    width,
                    height,
                    depth_or_array_layers: 1,
                    mip_level_count: 1,
                    sample_count: 1,
                    format: TextureFormat::Rgba8UnormSrgb,
                    usage: TextureUsages {
                        texture_binding: true,
                        copy_dst: true,
                        render_attachment: false,
                    },
                },
                pixels,
                bytes_per_row,
                rows_per_image: height,
            },
        )
    }

    /// Makes the texture for a decoded image: its pixels as 8-bit RGBA, in
    /// a texture of the image's size.
    pub fn from_image(image: &image::DynamicImage) -> (result: Result<Texture, TextureError>)
        ensures
            4 * image_size(*image).0 > u32::MAX ==> result == Err::<Texture, TextureError>(
                TextureError::RowTooLong,
            ),
            4 * image_size(*image).0 <= u32::MAX ==> (result matches Ok(texture) && texture.wf()
                && texture.descriptor == sampled_descriptor(
                image_size(*image).0,
                image_size(*image).1,
            ) && texture.pixels@ == image_rgba8(*image)),
    {
        let rgba = image_to_rgba8(image);
        let dimensions = image_dimensions(image);
        Self::from_rgba8(dimensions.0, dimensions.1, rgba)
    }

    /// Decodes an image file held in memory and makes the texture for it.
    ///
    /// Whether the bytes decode is the decoder's matter; an image that does
    /// is handed to [`Texture::from_image`].
    pub fn from_bytes(bytes: &[u8]) -> (result: Result<Texture, TextureError>)
        ensures
            result matches Ok(texture) ==> texture.wf(),
            result matches Err(error) ==> (error == TextureError::Decode || error
                == TextureError::RowTooLong),
    {
        match decode_image(bytes) {
            Ok(image) => Self::from_image(&image),
            Err(_) => Err(TextureError::Decode),
        }
    }

    /// Describes the depth buffer for a surface: as large as the surface,
    /// with as many samples as the colour target.
    pub fn create_depth_texture(config: &SurfaceConfiguration, sample_count: u32) -> (descriptor:
        TextureDescriptor)
        ensures
            descriptor == attachment_descriptor(*config, sample_count, TextureFormat::Depth32Float),
    {
        TextureDescriptor {
            width: config.width,
            height: config.height,
            depth_or_array_layers: 1,
            mip_level_count: 1,
            sample_count,
            format: TextureFormat::Depth32Float,
            usage: TextureUsages {
                texture_binding: false,
                copy_dst: false,
                render_attachment: true,
            },
        }
    }

    /// Describes the colour buffer that is rendered to when multisampling:
    /// as large as the surface and in its format.
    pub fn create_multisampled_framebuffer(
        config: &SurfaceConfiguration,
        sample_count: u32,
    ) -> (descriptor: TextureDescriptor)
        ensures
            descriptor == attachment_descriptor(*config, sample_count, TextureFormat::Surface),
    {
        TextureDescriptor {
            width: config.width,
            height: config.height,
            depth_or_array_layers: 1,
            mip_level_count: 1,
            sample_count,
            format: TextureFormat::Surface,
            usage: TextureUsages {
                texture_binding: false,
                copy_dst: false,
                render_attachment: true,
            },
        }
    }
}

} // verus!
