//! The record that the core keeps of a texture on the graphics device,
//! and the descriptions from which the device makes texture and sampler.

use vstd::prelude::*;
use crate::error::ErrorKind;
use crate::geometry::Size;
use crate::image::{
    Image, ImageFlags, ImageFormat, ImageInfo, ImageSource, GENERATE_MIPMAPS, NEAREST, REPEAT_X,
    REPEAT_Y,
};
use crate::renderer::{check_update, update_rejection};

verus! {

/// The pixel formats of the device that the core uses.
#[derive(Copy, Clone, Debug, PartialEq, Eq, Structural, Hash)]
pub enum MTLPixelFormat {
    Invalid,
    R8Unorm,
    BGRA8Unorm,
    Stencil8,
}

/// The device format in which images of `format` are kept; `Invalid` for
/// three-channel images, which the device cannot keep.
pub open spec fn device_format(format: ImageFormat) -> MTLPixelFormat {
    match format {
        ImageFormat::Rgba => MTLPixelFormat::BGRA8Unorm,
        ImageFormat::Gray => MTLPixelFormat::R8Unorm,
        ImageFormat::Rgb => MTLPixelFormat::Invalid,
    }
}

impl From<ImageFormat> for MTLPixelFormat {
    fn from(format: ImageFormat) -> (device: Self) {
        match format {
            ImageFormat::Rgba => MTLPixelFormat::BGRA8Unorm,
            ImageFormat::Gray => MTLPixelFormat::R8Unorm,
            ImageFormat::Rgb => MTLPixelFormat::Invalid,
        }
    }
}

impl vstd::std_specs::convert::FromSpecImpl<ImageFormat> for MTLPixelFormat {
    open spec fn obeys_from_spec() -> bool {
        true
    }

    open spec fn from_spec(format: ImageFormat) -> Self {
        device_format(format)
    }
}

/// What a texture may be used for.
#[derive(Copy, Clone, Debug, PartialEq, Eq, Structural)]
pub struct TextureUsage {
    pub render_target: bool,
    pub shader_read: bool,
    pub shader_write: bool,
}

/// The description from which the device makes a two-dimensional texture.
#[derive(Copy, Clone, Debug, PartialEq, Eq, Structural)]
pub struct TextureDescriptor {
    pub pixel_format: MTLPixelFormat,
    pub width: usize,
    pub height: usize,
    /// A full chain of mipmap levels for this size, or one level.
    pub mipmapped: bool,
    pub usage: TextureUsage,
    /// Storage that only the device reads and writes.
    pub private_storage: bool,
}

/// How a sampler picks between neighbouring texels or levels.
#[derive(Copy, Clone, Debug, PartialEq, Eq, Structural)]
pub enum SamplerFilter {
    Nearest,
    Linear,
}

/// What a sampler does outside of the texture on one axis.
#[derive(Copy, Clone, Debug, PartialEq, Eq, Structural)]
pub enum SamplerAddressMode {
    ClampToEdge,
    Repeat,
}

/// The description from which the device makes a sampler.
#[derive(Copy, Clone, Debug, PartialEq, Eq, Structural)]
pub struct SamplerDescriptor {
    pub min_mag_filter: SamplerFilter,
    /// The filter between mipmap levels; `None` without mipmaps.
    pub mip_filter: Option<SamplerFilter>,
    pub address_mode_s: SamplerAddressMode,
    pub address_mode_t: SamplerAddressMode,
}

/// Whether the flag with the bit `flag` is set in `flags`.
pub open spec fn flag_set(flags: ImageFlags, flag: u32) -> bool {
    flags.spec_bits() & flag == flag
}

fn has_flag(flags: ImageFlags, flag: u32) -> (set: bool)
    ensures
        set == flag_set(flags, flag),
{
    flags.bits() & flag == flag
}

/// The texture description for an image described by `info`.
pub open spec fn texture_descriptor(info: ImageInfo) -> TextureDescriptor {
    TextureDescriptor {
        pixel_format: device_format(info.spec_format()),
        width: info.spec_width(),
        height: info.spec_height(),
        mipmapped: flag_set(info.spec_flags(), GENERATE_MIPMAPS),
        usage: TextureUsage { render_target: true, shader_read: true, shader_write: true },
        private_storage: false,
    }
}

/// The sampler description for an image with the given flags.
pub open spec fn sampler_descriptor(flags: ImageFlags) -> SamplerDescriptor {
    let filter = if flag_set(flags, NEAREST) {
        SamplerFilter::Nearest
    } else {
        SamplerFilter::Linear
    };
    SamplerDescriptor {
        min_mag_filter: filter,
        mip_filter: if flag_set(flags, GENERATE_MIPMAPS) {
            Some(filter)
        } else {
            None
        },
        address_mode_s: if flag_set(flags, REPEAT_X) {
            SamplerAddressMode::Repeat
        } else {
            SamplerAddressMode::ClampToEdge
        },
        address_mode_t: if flag_set(flags, REPEAT_Y) {
            SamplerAddressMode::Repeat
        } else {
            SamplerAddressMode::ClampToEdge
        },
    }
}

/// A texture on the graphics device, as far as the core knows it: the
/// description it was made from and its debugging label. The device object
/// itself is kept by the code that drives the device.
pub struct MtlTexture {
    pub info: ImageInfo,
    pub label: String,
}

impl Image for MtlTexture {
    open spec fn spec_info(&self) -> ImageInfo {
        self.info
    }

    fn info(&self) -> (info: ImageInfo) {
        self.info
    }
}

impl MtlTexture {
    /// The record of a new texture after `info`, without a label. The
    /// device keeps no three-channel textures: those are refused with
    /// `UnsuportedImageFromat`.
    pub fn new(info: ImageInfo) -> (result: Result<Self, ErrorKind>)
        ensures
            info.spec_format() == ImageFormat::Rgb ==> result == Err::<Self, ErrorKind>(
                ErrorKind::UnsuportedImageFromat,
            ),
            info.spec_format() != ImageFormat::Rgb ==> (result matches Ok(texture) && texture.info
                == info && texture.label@ == Seq::<char>::empty()),
    {
        match info.format() {
            ImageFormat::Rgb => Err(ErrorKind::UnsuportedImageFromat),
            _ => Ok(Self { info, label: String::new() }),
        }
    }

    /// The one-pixel grayscale texture that is bound where a draw has no
    /// image.
    pub fn new_pseudo_texture() -> (result: Result<Self, ErrorKind>)
        ensures
            result matches Ok(texture) && texture.info == ImageInfo::spec_new(
                ImageFlags::spec_empty(),
                1,
                1,
                ImageFormat::Gray,
            ),
    {
        let info = ImageInfo::new(ImageFlags::empty(), 1, 1, ImageFormat::Gray);
        Self::new(info)
    }

    /// The description of the texture for the device.
    pub fn descriptor(&self) -> (desc: TextureDescriptor)
        ensures
            desc == texture_descriptor(self.info),
    {
        TextureDescriptor {
            pixel_format: MTLPixelFormat::from(self.info.format()),
            width: self.info.width(),
            height: self.info.height(),
            mipmapped: has_flag(self.info.flags(), GENERATE_MIPMAPS),
            usage: TextureUsage { render_target: true, shader_read: true, shader_write: true },
            private_storage: false,
        }
    }

    /// The description of the texture's sampler for the device.
    pub fn sampler(&self) -> (desc: SamplerDescriptor)
        ensures
            desc == sampler_descriptor(self.info.spec_flags()),
    {
        let flags = self.info.flags();
        let generate_mipmaps = has_flag(flags, GENERATE_MIPMAPS);
        let filter = if has_flag(flags, NEAREST) {
            SamplerFilter::Nearest
        } else {
            SamplerFilter::Linear
        };
        SamplerDescriptor {
            min_mag_filter: filter,
            mip_filter: if generate_mipmaps {
                Some(filter)
            } else {
                None
            },
            address_mode_s: if has_flag(flags, REPEAT_X) {
                SamplerAddressMode::Repeat
            } else {
                SamplerAddressMode::ClampToEdge
            },
            address_mode_t: if has_flag(flags, REPEAT_Y) {
                SamplerAddressMode::Repeat
            } else {
                SamplerAddressMode::ClampToEdge
            },
        }
    }

    /// Size of the texture in pixels.
    pub open spec fn spec_size(&self) -> Size {
        Size { w: self.info.spec_width(), h: self.info.spec_height() }
    }

    #[verifier::when_used_as_spec(spec_size)]
    pub fn size(&self) -> (size: Size)
        ensures
            size == self.spec_size(),
    {
        Size::new(self.info.width(), self.info.height())
    }

    /// Makes the texture at least as large as `size`: a texture that
    /// already holds `size` stays as it is; another is made anew with
    /// exactly `size`, same flags and format, and no label.
    pub fn resize(&mut self, size: Size)
        ensures
            old(self).spec_size().spec_contains(size) ==> final(self).info == old(self).info
                && final(self).label == old(self).label,
            !old(self).spec_size().spec_contains(size) ==> final(self).info == ImageInfo::spec_new(
                old(self).info.spec_flags(),
                size.w,
                size.h,
                old(self).info.spec_format(),
            ) && final(self).label@ == Seq::<char>::empty(),
    {
        if self.size().contains(&size) {
            return ;
        }
        let info = ImageInfo::new(self.info.flags(), size.w, size.h, self.info.format());
        self.info = info;
        self.label = String::new();
    }

    /// Tests an update of the texture with `src` at `(x, y)`: first the
    /// bounds, then the format. On `Ok` the pixels are due to be written.
    pub fn update(&mut self, src: ImageSource, x: usize, y: usize) -> (result: Result<(), ErrorKind>)
        ensures
            *final(self) == *old(self),
            result == match update_rejection(old(self).info, src, x, y) {
                Some(e) => Err::<(), ErrorKind>(e),
                None => Ok(()),
            },
    {
        check_update(self.info, src, x, y)
    }

    /// Gives the record up; the device object goes with it.
    pub fn delete(self) {
    }

    pub fn label(&self) -> (label: &str)
        ensures
            label@ == self.label@,
    {
        self.label.as_str()
    }

    pub fn set_label(&mut self, label: &str)
        ensures
            final(self).label@ == label@,
            final(self).info == old(self).info,
    {
        self.label = label.to_owned();
    }
}

} // verus!
