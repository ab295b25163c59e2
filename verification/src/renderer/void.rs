//! A backend that draws nothing, for running the core without a device.

use vstd::prelude::*;
use crate::error::ErrorKind;
use crate::geometry::Size;
use crate::image::{ImageId, ImageInfo, ImageSource, ImageStore};
use crate::renderer::mtl::mtl_texture::MtlTexture;
use crate::renderer::{
    check_update, update_rejection, Command, PixelBuffer, Renderer, Vertex, VoidCache,
};

verus! {

/// The backend that performs no graphics work. It remembers the size it
/// was given and nothing else: every frame is accepted and forgotten.
pub struct Void {
    size: Size,
}

impl Void {
    /// A backend with an empty view.
    pub fn new() -> (void: Self)
        ensures
            void.spec_view_size() == (Size { w: 0, h: 0 }),
    {
        Void { size: Size::new(0, 0) }
    }
}

impl Default for Void {
    fn default() -> (void: Self)
        ensures
            void.spec_view_size() == (Size { w: 0, h: 0 }),
    {
        Void::new()
    }
}

impl Renderer for Void {
    type BufferCache = VoidCache;

    closed spec fn spec_view_size(&self) -> Size {
        self.size
    }

    open spec fn accepts(&self, images: &ImageStore, verts: Seq<Vertex>, commands: Seq<Command>) -> bool {
        true
    }

    open spec fn labels(&self, images: &ImageStore, id: ImageId) -> bool {
        true
    }

    fn set_size(&mut self, width: u32, height: u32) {
        self.size = Size::new(width as usize, height as usize);
    }

    fn alloc_buffer_cache(&self) -> (cache: VoidCache)
        ensures
            cache.token() == 0,
    {
        VoidCache::new()
    }

    fn render(
        &mut self,
        images: &ImageStore,
        cache: &mut VoidCache,
        verts: &[Vertex],
        commands: &[Command],
    ) -> (submitted: bool)
        ensures
            submitted,
            final(self).spec_view_size() == old(self).spec_view_size(),
    {
        true
    }

    fn alloc_image(&mut self, info: ImageInfo) -> (result: Result<MtlTexture, ErrorKind>)
        ensures
            result is Ok,
            final(self).spec_view_size() == old(self).spec_view_size(),
    {
        Ok(MtlTexture { info, label: String::new() })
    }

    fn update_image(&mut self, image: &mut MtlTexture, data: ImageSource, x: usize, y: usize) -> (result:
        Result<(), ErrorKind>)
        ensures
            update_rejection(old(image).info, data, x, y) is None ==> result is Ok,
            final(self).spec_view_size() == old(self).spec_view_size(),
    {
        check_update(image.info, data, x, y)
    }

    fn delete_image(&mut self, image: MtlTexture)
        ensures
            final(self).spec_view_size() == old(self).spec_view_size(),
    {
    }

    fn screenshot(&mut self, images: &ImageStore) -> (result: Result<PixelBuffer, ErrorKind>)
        ensures
            result matches Ok(pixels) && pixels.width == 0 && pixels.height == 0,
            final(self).spec_view_size() == old(self).spec_view_size(),
    {
        Ok(PixelBuffer { width: 0, height: 0, data: Vec::new() })
    }

    fn flip_y() -> (flip: bool)
        ensures
            !flip,
    {
        false
    }

    fn flip_uv() -> (flip: bool)
        ensures
            !flip,
    {
        false
    }

    fn start_capture(&self) {
    }

    fn stop_capture(&self) {
    }

    fn label(&self, images: &ImageStore, id: ImageId) -> (label: String)
        ensures
            label@ == "labels not supported for void backend"@,
    {
        "labels not supported for void backend".to_owned()
    }

    fn set_label(&self, images: &mut ImageStore, id: ImageId, label: &str) {
    }

    fn view_size(&self) -> (size: Size) {
        self.size
    }
}

} // verus!
