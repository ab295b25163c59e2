//! Images: handles, formats, flags, pixel sources and the image store.

use vstd::prelude::*;
use imgref::Img;
use rgb::{Gray, Rgb, Rgba};
use generational_arena::{Arena, Index};
use crate::error::ErrorKind;
use crate::renderer::mtl::mtl_texture::MtlTexture;
use crate::renderer::{update_rejection, Renderer};

verus! {

/// Stable handle of an image in an [`ImageStore`]: a slot and the
/// generation in which the slot was filled. A slot is filled anew in a
/// later generation, so the handle of an image that was removed does not
/// name the image that takes its place.
#[derive(Copy, Clone, Debug, PartialEq, Eq, Structural, Hash, PartialOrd, Ord)]
pub struct ImageId {
    pub index: usize,
    pub generation: u64,
}

/// Layout of the pixels of an image.
#[derive(Copy, Clone, Debug, PartialEq, Eq, Structural)]
pub enum ImageFormat {
    Rgb,
    Rgba,
    Gray,
}

/// How an image is created and sampled: a set of the six flags below.
#[derive(Copy, Clone, Debug, PartialEq, Eq, Structural, Hash, Default)]
pub struct ImageFlags {
    bits: u32,
}

/// Generate mipmaps during creation of the image.
pub const GENERATE_MIPMAPS: u32 = 1;

/// Repeat image in X direction.
pub const REPEAT_X: u32 = 2;

/// Repeat image in Y direction.
pub const REPEAT_Y: u32 = 4;

/// Flips (inverses) image in Y direction when rendered.
pub const FLIP_Y: u32 = 8;

/// Image data has premultiplied alpha.
pub const PREMULTIPLIED: u32 = 16;

/// Image interpolation is nearest instead of linear.
pub const NEAREST: u32 = 32;

/// All six flags.
pub const ALL_FLAGS: u32 = 63;

impl ImageFlags {
    /// The flags as bits, one bit per flag.
    pub closed spec fn spec_bits(&self) -> u32 {
        self.bits
    }

    /// Whether every flag of `other` is set in `self`.
    pub open spec fn spec_contains(&self, other: ImageFlags) -> bool {
        self.spec_bits() & other.spec_bits() == other.spec_bits()
    }

    /// The set of no flags.
    pub closed spec fn spec_empty() -> ImageFlags {
        ImageFlags { bits: 0 }
    }

    /// No flag set.
    pub fn empty() -> (flags: ImageFlags)
        ensures
            flags == Self::spec_empty(),
            flags.spec_bits() == 0,
    {
        ImageFlags { bits: 0 }
    }

    /// The flags whose bits are set in `bits`; `None` if `bits` holds a
    /// bit that is no flag.
    pub fn from_bits(bits: u32) -> (flags: Option<ImageFlags>)
        ensures
            bits & !ALL_FLAGS == 0 ==> flags.is_some() && flags.unwrap().spec_bits() == bits,
            bits & !ALL_FLAGS != 0 ==> flags.is_none(),
    {
        if bits & !ALL_FLAGS == 0 {
            Some(ImageFlags { bits })
        } else {
            None
        }
    }

    /// The flags whose bits are set in `bits`, without the bits that are
    /// no flag.
    pub fn from_bits_truncate(bits: u32) -> (flags: ImageFlags)
        ensures
            flags.spec_bits() == bits & ALL_FLAGS,
    {
        ImageFlags { bits: bits & ALL_FLAGS }
    }

    #[verifier::when_used_as_spec(spec_bits)]
    pub fn bits(&self) -> (bits: u32)
        ensures
            bits == self.spec_bits(),
    {
        self.bits
    }

    pub fn is_empty(&self) -> (none: bool)
        ensures
            none == (self.spec_bits() == 0),
    {
        self.bits == 0
    }

    #[verifier::when_used_as_spec(spec_contains)]
    pub fn contains(&self, other: ImageFlags) -> (all: bool)
        ensures
            all == self.spec_contains(other),
    {
        self.bits & other.bits == other.bits
    }

    /// The flags set in either.
    pub fn union(self, other: ImageFlags) -> (flags: ImageFlags)
        ensures
            flags.spec_bits() == self.spec_bits() | other.spec_bits(),
    {
        ImageFlags { bits: self.bits | other.bits }
    }

    /// Sets the flags of `other`.
    pub fn insert(&mut self, other: ImageFlags)
        ensures
            final(self).spec_bits() == old(self).spec_bits() | other.spec_bits(),
    {
        self.bits = self.bits | other.bits;
    }

    /// Clears the flags of `other`.
    pub fn remove(&mut self, other: ImageFlags)
        ensures
            final(self).spec_bits() == old(self).spec_bits() & !other.spec_bits(),
    {
        self.bits = self.bits & !other.bits;
    }
}

/// Setting flags and asking for them agree: after a union both operands
/// are contained, and a single flag is contained in the union exactly if
/// it is contained in one of the operands.
pub proof fn lemma_flags_union(a: ImageFlags, b: ImageFlags, sum: ImageFlags, flag: ImageFlags)
    requires
        sum.spec_bits() == a.spec_bits() | b.spec_bits(),
        flag.spec_bits() == GENERATE_MIPMAPS || flag.spec_bits() == REPEAT_X || flag.spec_bits()
            == REPEAT_Y || flag.spec_bits() == FLIP_Y || flag.spec_bits() == PREMULTIPLIED
            || flag.spec_bits() == NEAREST,
    ensures
        sum.spec_contains(a),
        sum.spec_contains(b),
        sum.spec_contains(flag) <==> a.spec_contains(flag) || b.spec_contains(flag),
{
    let x = a.spec_bits();
    let y = b.spec_bits();
    let f = flag.spec_bits();
    assert((x | y) & x == x) by (bit_vector);
    assert((x | y) & y == y) by (bit_vector);
    assert(f == 1 || f == 2 || f == 4 || f == 8 || f == 16 || f == 32 ==> (((x | y) & f == f) <==> (
    x & f == f || y & f == f))) by (bit_vector);
}

/// What the core knows of an image: flags, size in pixels and format.
#[derive(Copy, Clone, Debug, PartialEq, Eq, Structural)]
pub struct ImageInfo {
    flags: ImageFlags,
    width: usize,
    height: usize,
    format: ImageFormat,
}

impl ImageInfo {
    pub closed spec fn spec_flags(&self) -> ImageFlags {
        self.flags
    }

    pub closed spec fn spec_width(&self) -> usize {
        self.width
    }

    pub closed spec fn spec_height(&self) -> usize {
        self.height
    }

    pub closed spec fn spec_format(&self) -> ImageFormat {
        self.format
    }

    /// The description with the given four parts.
    pub closed spec fn spec_new(
        flags: ImageFlags,
        width: usize,
        height: usize,
        format: ImageFormat,
    ) -> ImageInfo {
        ImageInfo { flags, width, height, format }
    }

    pub fn new(flags: ImageFlags, width: usize, height: usize, format: ImageFormat) -> (info: Self)
        ensures
            info == Self::spec_new(flags, width, height, format),
            info.spec_flags() == flags,
            info.spec_width() == width,
            info.spec_height() == height,
            info.spec_format() == format,
    {
        Self { flags, width, height, format }
    }

    #[verifier::when_used_as_spec(spec_flags)]
    pub fn flags(&self) -> (flags: ImageFlags)
        ensures
            flags == self.spec_flags(),
    {
        self.flags
    }

    #[verifier::when_used_as_spec(spec_width)]
    pub fn width(&self) -> (width: usize)
        ensures
            width == self.spec_width(),
    {
        self.width
    }

    #[verifier::when_used_as_spec(spec_height)]
    pub fn height(&self) -> (height: usize)
        ensures
            height == self.spec_height(),
    {
        self.height
    }

    #[verifier::when_used_as_spec(spec_format)]
    pub fn format(&self) -> (format: ImageFormat)
        ensures
            format == self.spec_format(),
    {
        self.format
    }

    pub fn set_format(&mut self, format: ImageFormat)
        ensures
            final(self).spec_format() == format,
            final(self).spec_flags() == old(self).spec_flags(),
            final(self).spec_width() == old(self).spec_width(),
            final(self).spec_height() == old(self).spec_height(),
    {
        self.format = format;
    }
}

/// A description is its four parts: what `new` is given is what the
/// getters return, and two descriptions with the same parts are equal.
pub proof fn lemma_info_parts(a: ImageInfo, b: ImageInfo)
    ensures
        a == ImageInfo::spec_new(a.spec_flags(), a.spec_width(), a.spec_height(), a.spec_format()),
        a.spec_flags() == b.spec_flags() && a.spec_width() == b.spec_width() && a.spec_height()
            == b.spec_height() && a.spec_format() == b.spec_format() ==> a == b,
{
}

/// `Img` of imgref: pixels in a container, with width, height and stride.
#[verifier::external_type_specification]
#[verifier::external_body]
#[verifier::reject_recursive_types(Container)]
pub struct ExImg<Container>(Img<Container>);

/// `Rgb` of rgb: a pixel of three channels.
#[verifier::external_type_specification]
#[verifier::external_body]
#[verifier::reject_recursive_types(T)]
pub struct ExRgb<T>(Rgb<T>);

/// `Rgba` of rgb: a pixel of three channels and alpha.
#[verifier::external_type_specification]
#[verifier::external_body]
#[verifier::reject_recursive_types(T)]
#[verifier::reject_recursive_types(A)]
pub struct ExRgba<T, A>(Rgba<T, A>);

/// `Gray` of rgb: a pixel of one channel.
#[verifier::external_type_specification]
#[verifier::external_body]
#[verifier::reject_recursive_types(T)]
pub struct ExGray<T>(Gray<T>);

/// Width in pixels of a borrowed RGB image.
pub uninterp spec fn rgb_width(img: Img<&[Rgb<u8>]>) -> usize;

/// Height in pixels of a borrowed RGB image.
pub uninterp spec fn rgb_height(img: Img<&[Rgb<u8>]>) -> usize;

/// Width in pixels of a borrowed RGBA image.
pub uninterp spec fn rgba_width(img: Img<&[Rgba<u8>]>) -> usize;

/// Height in pixels of a borrowed RGBA image.
pub uninterp spec fn rgba_height(img: Img<&[Rgba<u8>]>) -> usize;

/// Width in pixels of a borrowed grayscale image.
pub uninterp spec fn gray_width(img: Img<&[Gray<u8>]>) -> usize;

/// Height in pixels of a borrowed grayscale image.
pub uninterp spec fn gray_height(img: Img<&[Gray<u8>]>) -> usize;

/// `Img::width` of imgref on an RGB view: the width that the view was made
/// with. Two calls on one view give one value, which the contract names.
#[verifier::external_body]
fn width_of_rgb(img: &Img<&[Rgb<u8>]>) -> (width: usize)
    ensures
        width == rgb_width(*img),
{
    img.width()
}

/// `Img::height` of imgref on an RGB view, named as the width is.
#[verifier::external_body]
fn height_of_rgb(img: &Img<&[Rgb<u8>]>) -> (height: usize)
    ensures
        height == rgb_height(*img),
{
    img.height()
}

/// `Img::width` of imgref on an RGBA view, named as above.
#[verifier::external_body]
fn width_of_rgba(img: &Img<&[Rgba<u8>]>) -> (width: usize)
    ensures
        width == rgba_width(*img),
{
    img.width()
}

/// `Img::height` of imgref on an RGBA view, named as above.
#[verifier::external_body]
fn height_of_rgba(img: &Img<&[Rgba<u8>]>) -> (height: usize)
    ensures
        height == rgba_height(*img),
{
    img.height()
}

/// `Img::width` of imgref on a grayscale view, named as above.
#[verifier::external_body]
fn width_of_gray(img: &Img<&[Gray<u8>]>) -> (width: usize)
    ensures
        width == gray_width(*img),
{
    img.width()
}

/// `Img::height` of imgref on a grayscale view, named as above.
#[verifier::external_body]
fn height_of_gray(img: &Img<&[Gray<u8>]>) -> (height: usize)
    ensures
        height == gray_height(*img),
{
    img.height()
}

/// A borrowed view over pixel data, tagged with its format. It carries its
/// own dimensions and never owns the pixels.
#[derive(Copy, Clone)]
#[non_exhaustive]
pub enum ImageSource<'a> {
    Rgb(Img<&'a [Rgb<u8>]>),
    Rgba(Img<&'a [Rgba<u8>]>),
    Gray(Img<&'a [Gray<u8>]>),
}

impl ImageSource<'_> {
    /// The format that the source is tagged with.
    pub open spec fn spec_format(&self) -> ImageFormat {
        match self {
            ImageSource::Rgb(_) => ImageFormat::Rgb,
            ImageSource::Rgba(_) => ImageFormat::Rgba,
            ImageSource::Gray(_) => ImageFormat::Gray,
        }
    }

    /// Width and height of the source in pixels.
    pub open spec fn spec_dimensions(&self) -> (usize, usize) {
        match self {
            ImageSource::Rgb(img) => (rgb_width(*img), rgb_height(*img)),
            ImageSource::Rgba(img) => (rgba_width(*img), rgba_height(*img)),
            ImageSource::Gray(img) => (gray_width(*img), gray_height(*img)),
        }
    }

    #[verifier::when_used_as_spec(spec_format)]
    pub fn format(&self) -> (format: ImageFormat)
        ensures
            format == self.spec_format(),
    {
        match self {
            Self::Rgb(_) => ImageFormat::Rgb,
            Self::Rgba(_) => ImageFormat::Rgba,
            Self::Gray(_) => ImageFormat::Gray,
        }
    }

    #[verifier::when_used_as_spec(spec_dimensions)]
    pub fn dimensions(&self) -> (size: (usize, usize))
        ensures
            size == self.spec_dimensions(),
    {
        match self {
            Self::Rgb(img) => (width_of_rgb(img), height_of_rgb(img)),
            Self::Rgba(img) => (width_of_rgba(img), height_of_rgba(img)),
            Self::Gray(img) => (width_of_gray(img), height_of_gray(img)),
        }
    }
}

impl<'a> From<Img<&'a [Rgb<u8>]>> for ImageSource<'a> {
    fn from(src: Img<&'a [Rgb<u8>]>) -> (source: Self) {
        ImageSource::Rgb(src)
    }
}

impl<'a> vstd::std_specs::convert::FromSpecImpl<Img<&'a [Rgb<u8>]>> for ImageSource<'a> {
    open spec fn obeys_from_spec() -> bool {
        true
    }

    open spec fn from_spec(src: Img<&'a [Rgb<u8>]>) -> Self {
        ImageSource::Rgb(src)
    }
}

impl<'a> From<Img<&'a [Rgba<u8>]>> for ImageSource<'a> {
    fn from(src: Img<&'a [Rgba<u8>]>) -> (source: Self) {
        ImageSource::Rgba(src)
    }
}

impl<'a> vstd::std_specs::convert::FromSpecImpl<Img<&'a [Rgba<u8>]>> for ImageSource<'a> {
    open spec fn obeys_from_spec() -> bool {
        true
    }

    open spec fn from_spec(src: Img<&'a [Rgba<u8>]>) -> Self {
        ImageSource::Rgba(src)
    }
}

impl<'a> From<Img<&'a [Gray<u8>]>> for ImageSource<'a> {
    fn from(src: Img<&'a [Gray<u8>]>) -> (source: Self) {
        ImageSource::Gray(src)
    }
}

impl<'a> vstd::std_specs::convert::FromSpecImpl<Img<&'a [Gray<u8>]>> for ImageSource<'a> {
    open spec fn obeys_from_spec() -> bool {
        true
    }

    open spec fn from_spec(src: Img<&'a [Gray<u8>]>) -> Self {
        ImageSource::Gray(src)
    }
}

/// What a backend keeps for an image.
pub trait Image {
    /// The description that the image was allocated with.
    spec fn spec_info(&self) -> ImageInfo;

    fn info(&self) -> (info: ImageInfo)
        ensures
            info == self.spec_info(),
    ;
}

/// `Arena` of generational-arena: values in slots, each under an index
/// that carries the generation in which its slot was filled.
#[verifier::external_type_specification]
#[verifier::external_body]
#[verifier::reject_recursive_types(T)]
pub struct ExArena<T>(Arena<T>);

/// The images that an arena holds, each under its handle.
pub uninterp spec fn arena_items(arena: Arena<MtlTexture>) -> Map<ImageId, MtlTexture>;

/// The handles of an arena that are spent: each named a value that was
/// taken out since.
pub uninterp spec fn arena_spent(arena: Arena<MtlTexture>) -> Set<ImageId>;

/// The store without any image.
pub open spec fn no_images() -> Map<ImageId, MtlTexture> {
    Map::empty()
}

/// No handle at all.
pub open spec fn no_handles() -> Set<ImageId> {
    Set::empty()
}

/// The spent handles of an arena after the removal of `id`.
pub open spec fn spent_after_remove(arena: Arena<MtlTexture>, id: ImageId) -> Set<ImageId> {
    if arena_items(arena).dom().contains(id) {
        arena_spent(arena).insert(id)
    } else {
        arena_spent(arena)
    }
}

/// `Arena::new` of generational-arena: an arena that holds nothing and
/// never held anything.
#[verifier::external_body]
fn arena_new() -> (arena: Arena<MtlTexture>)
    ensures
        arena_items(arena) == no_images(),
        arena_spent(arena) == no_handles(),
{
    Arena::new()
}

/// `Arena::insert` of generational-arena, with `Index::into_raw_parts`
/// for the handle. The value goes into a free slot, so its handle names
/// nothing before; every other entry stays as it was. The handle carries
/// the arena's generation, which the arena's documentation describes as
/// a counter that only rises and that every removal raises: so the handle
/// is none of the spent ones.
#[verifier::external_body]
fn arena_insert(arena: &mut Arena<MtlTexture>, value: MtlTexture) -> (id: ImageId)
    ensures
        !arena_items(*old(arena)).dom().contains(id),
        !arena_spent(*old(arena)).contains(id),
        arena_items(*final(arena)) == arena_items(*old(arena)).insert(id, value),
        arena_spent(*final(arena)) == arena_spent(*old(arena)),
{
    let (index, generation) = arena.insert(value).into_raw_parts();
    ImageId { index, generation }
}

/// `Arena::get` of generational-arena, with `Index::from_raw_parts` for the
/// handle: the entry under the handle, if the slot is filled and its
/// generation is the handle's. No handle makes it panic.
#[verifier::external_body]
fn arena_get(arena: &Arena<MtlTexture>, id: ImageId) -> (found: Option<&MtlTexture>)
    ensures
        arena_items(*arena).dom().contains(id) ==> found == Some(&arena_items(*arena)[id]),
        !arena_items(*arena).dom().contains(id) ==> found.is_none(),
{
    arena.get(Index::from_raw_parts(id.index, id.generation))
}

/// `Arena::get_mut` of generational-arena: as `Arena::get`, and what the
/// caller writes through the reference replaces the entry.
#[verifier::external_body]
fn arena_get_mut(arena: &mut Arena<MtlTexture>, id: ImageId) -> (found: Option<&mut MtlTexture>)
    ensures
        match found {
            Some(image) => arena_items(*old(arena)).dom().contains(id) && *image == arena_items(
                *old(arena),
            )[id] && arena_items(*final(arena)) == arena_items(*old(arena)).insert(
                id,
                *final(image),
            ),
            None => !arena_items(*old(arena)).dom().contains(id) && arena_items(*final(arena))
                == arena_items(*old(arena)),
        },
        arena_spent(*final(arena)) == arena_spent(*old(arena)),
{
    arena.get_mut(Index::from_raw_parts(id.index, id.generation))
}

/// `Arena::remove` of generational-arena: takes the entry under the handle
/// out, if there is one, and leaves every other entry as it was. A handle
/// that named an entry is spent from then on.
#[verifier::external_body]
fn arena_remove(arena: &mut Arena<MtlTexture>, id: ImageId) -> (taken: Option<MtlTexture>)
    ensures
        arena_items(*old(arena)).dom().contains(id) ==> taken == Some(arena_items(*old(arena))[id]),
        !arena_items(*old(arena)).dom().contains(id) ==> taken.is_none(),
        arena_items(*final(arena)) == arena_items(*old(arena)).remove(id),
        arena_spent(*final(arena)) == spent_after_remove(*old(arena), id),
{
    arena.remove(Index::from_raw_parts(id.index, id.generation))
}

/// `Arena::drain` of generational-arena, collected: the arena is left
/// empty, and what comes out are its entries, in no stated order. Every
/// handle that named an entry is spent from then on.
#[verifier::external_body]
fn arena_drain(arena: &mut Arena<MtlTexture>) -> (taken: Vec<MtlTexture>)
    ensures
        arena_items(*final(arena)) == no_images(),
        arena_spent(*final(arena)) == arena_spent(*old(arena)).union(
            arena_items(*old(arena)).dom(),
        ),
        forall|i: int|
            0 <= i < taken@.len() ==> exists|id: ImageId|
                arena_items(*old(arena)).dom().contains(id) && arena_items(*old(arena))[id]
                    == #[trigger] taken@[i],
        forall|id: ImageId|
            arena_items(*old(arena)).dom().contains(id) ==> exists|i: int|
                0 <= i < taken@.len() && taken@[i] == #[trigger] arena_items(*old(arena))[id],
{
    arena.drain().map(|(_, image)| image).collect()
}

/// The single authority over the lifetime of images. It owns every image
/// under a stable handle.
pub struct ImageStore(Arena<MtlTexture>);

impl View for ImageStore {
    type V = Map<ImageId, MtlTexture>;

    closed spec fn view(&self) -> Map<ImageId, MtlTexture> {
        arena_items(self.0)
    }
}

impl ImageStore {
    /// The handles that are spent: each named an image of the store that
    /// was removed since.
    pub closed spec fn spent(&self) -> Set<ImageId> {
        arena_spent(self.0)
    }

    /// Whether no spent handle names an image.
    pub open spec fn wf(&self) -> bool {
        self@.dom().disjoint(self.spent())
    }

    /// A store that holds no image.
    pub fn new() -> (store: Self)
        ensures
            store@ == no_images(),
            store.spent() == no_handles(),
            store.wf(),
    {
        Self(arena_new())
    }

    /// Whether `id` names an image of the store.
    pub open spec fn has(&self, id: ImageId) -> bool {
        self@.dom().contains(id)
    }

    /// The image under `id`; `None` for a stale or unknown handle.
    pub fn get(&self, id: ImageId) -> (found: Option<&MtlTexture>)
        ensures
            self.has(id) ==> found == Some(&self@[id]),
            !self.has(id) ==> found.is_none(),
    {
        arena_get(&self.0, id)
    }

    /// The image under `id`, to be changed in place; `None` for a stale
    /// or unknown handle.
    pub fn get_mut(&mut self, id: ImageId) -> (found: Option<&mut MtlTexture>)
        ensures
            match found {
                Some(image) => old(self).has(id) && *image == old(self)@[id] && final(self)@
                    == old(self)@.insert(id, *final(image)),
                None => !old(self).has(id) && final(self)@ == old(self)@,
            },
            final(self).spent() == old(self).spent(),
    {
        arena_get_mut(&mut self.0, id)
    }
    /// The description of the image that `add` makes from `data`.
    pub open spec fn source_info(data: ImageSource, flags: ImageFlags) -> ImageInfo {
        ImageInfo::spec_new(
            flags,
            data.spec_dimensions().0,
            data.spec_dimensions().1,
            data.spec_format(),
        )
    }

    /// Takes in what a backend allocated: an image goes into a free slot
    /// and gets a handle that named nothing before; a failure is handed
    /// on and leaves the store as it was.
    pub fn insert(&mut self, allocated: Result<MtlTexture, ErrorKind>) -> (result: Result<
        ImageId,
        ErrorKind,
    >)
        ensures
            match allocated {
                Ok(image) => result matches Ok(id) && !old(self).has(id)
                    && !old(self).spent().contains(id)
                    && final(self)@ == old(self)@.insert(id, image),
                Err(e) => result == Err::<ImageId, ErrorKind>(e) && final(self)@ == old(self)@,
            },
            final(self).spent() == old(self).spent(),
            old(self).wf() ==> final(self).wf(),
    {
        match allocated {
            Ok(image) => Ok(arena_insert(&mut self.0, image)),
            Err(e) => Err(e),
        }
    }

    /// Asks the backend for an image of the size and format of `data`,
    /// has the pixels written into it and stores it. Fails only with what
    /// the backend failed with, and then stores nothing.
    pub fn add<R: Renderer>(&mut self, renderer: &mut R, data: ImageSource, flags: ImageFlags) -> (result:
        Result<ImageId, ErrorKind>)
        ensures
            match result {
                Ok(id) => !old(self).has(id) && !old(self).spent().contains(id)
                    && final(self).has(id)
                    && final(self)@ == old(self)@.insert(id, final(self)@[id])
                    && final(self)@[id].info == Self::source_info(data, flags),
                Err(_) => final(self)@ == old(self)@,
            },
            final(self).spent() == old(self).spent(),
            old(self).wf() ==> final(self).wf(),
    {
        let size = data.dimensions();
        let info = ImageInfo::new(flags, size.0, size.1, data.format());
        let allocated = match renderer.alloc_image(info) {
            Ok(image) => {
                let mut image = image;
                match renderer.update_image(&mut image, data, 0, 0) {
                    Ok(()) => Ok(image),
                    Err(e) => {
                        renderer.delete_image(image);
                        Err(e)
                    },
                }
            },
            Err(e) => Err(e),
        };
        self.insert(allocated)
    }

    /// Writes `data` into the image under `id`, with its top left corner
    /// at `(x, y)`. A stale or unknown handle fails with
    /// `ImageIdNotFound`; otherwise the backend tests bounds and format
    /// and decides. No image is added, removed or described anew.
    pub fn update<R: Renderer>(
        &mut self,
        renderer: &mut R,
        id: ImageId,
        data: ImageSource,
        x: usize,
        y: usize,
    ) -> (result: Result<(), ErrorKind>)
        ensures
            !old(self).has(id) ==> result == Err::<(), ErrorKind>(ErrorKind::ImageIdNotFound)
                && final(self)@ == old(self)@,
            old(self).has(id) ==> final(self)@ == old(self)@.insert(id, final(self)@[id])
                && final(self)@[id].info == old(self)@[id].info,
            old(self).has(id) ==> (update_rejection(old(self)@[id].info, data, x, y) matches Some(
                e,
            ) ==> result == Err::<(), ErrorKind>(e)),
            final(self).spent() == old(self).spent(),
            old(self).wf() ==> final(self).wf(),
    {
        match arena_get_mut(&mut self.0, id) {
            Some(image) => renderer.update_image(image, data, x, y),
            None => Err(ErrorKind::ImageIdNotFound),
        }
    }

    /// Removes the image under `id` and hands it to the backend for
    /// destruction. A stale or unknown handle changes nothing.
    pub fn remove<R: Renderer>(&mut self, renderer: &mut R, id: ImageId)
        ensures
            final(self)@ == old(self)@.remove(id),
            !final(self).has(id),
            final(self).spent() == if old(self).has(id) {
                old(self).spent().insert(id)
            } else {
                old(self).spent()
            },
            old(self).wf() ==> final(self).wf(),
    {
        match arena_remove(&mut self.0, id) {
            Some(image) => {
                renderer.delete_image(image);
            },
            None => {},
        }
    }

    /// Removes every image and hands each to the backend for destruction.
    pub fn clear<R: Renderer>(&mut self, renderer: &mut R)
        ensures
            final(self)@ == no_images(),
            final(self).spent() == old(self).spent().union(old(self)@.dom()),
            final(self).wf(),
    {
        let mut taken = arena_drain(&mut self.0);
        while taken.len() > 0
            invariant
                self@ == no_images(),
                self.spent() == old(self).spent().union(old(self)@.dom()),
            decreases taken.len(),
        {
            match taken.pop() {
                Some(image) => {
                    renderer.delete_image(image);
                },
                None => {},
            }
        }
    }
}

/// Looking up a removed image finds nothing, whether or not the handle
/// named an image before, and the removal touches no other image. A new
/// store finds nothing under any handle.
pub proof fn lemma_removed_not_found(before: Map<ImageId, MtlTexture>, id: ImageId, other: ImageId)
    requires
        other != id,
    ensures
        !before.remove(id).dom().contains(id),
        before.remove(id).dom().contains(other) == before.dom().contains(other),
        before.dom().contains(other) ==> before.remove(id)[other] == before[other],
        !no_images().dom().contains(id),
{
}

/// A handle that is spent stays without an image: `store` holds none under
/// it, and a store that comes from `store` by adding an image under a
/// handle that is not spent (the only handles that `add` returns) holds
/// none under it either.
pub proof fn lemma_spent_stays_unknown(store: &ImageStore, id: ImageId, added: ImageId, image: MtlTexture)
    requires
        store.wf(),
        store.spent().contains(id),
        !store.spent().contains(added),
    ensures
        !store.has(id),
        !store@.insert(added, image).dom().contains(id),
{
}

impl Default for ImageStore {
    fn default() -> (store: Self)
        ensures
            store@ == no_images(),
    {
        Self::new()
    }
}

} // verus!
