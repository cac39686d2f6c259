//! Bevy images and the collection that stores them.

use bevy::asset::{Handle, RenderAssetUsages, UntypedHandle};
use bevy::image::Image;
use bevy::render::render_resource::{Extent3d, TextureDimension, TextureFormat};
use vstd::prelude::*;

verus! {

/// `bevy::asset::UntypedHandle`, a reference to an asset that keeps it alive.
#[verifier::external_type_specification]
#[verifier::external_body]
pub struct ExUntypedHandle(UntypedHandle);

/// `bevy::image::Image`, an image in host memory.
#[verifier::external_type_specification]
#[verifier::external_body]
pub struct ExImage(Image);

/// Where a handle points to.
pub ghost enum ImageKey {
    /// To the image in a slot that the collection gave it.
    Index(u64),
    /// To the image with an identifier that was chosen for it.
    Uuid(u128),
    /// To an asset that is no image. Nothing is stored for it.
    Foreign,
}

/// The identifier of the handle that refers to no image in particular.
pub const DEFAULT_UUID: u128 = 200809721996911295814598172825939264631;

/// The texture format of an image.
pub ghost enum ImageFormat {
    /// Red, green, blue in the sRGB encoding, and alpha, of a byte each.
    Rgba8UnormSrgb,
    /// Another format.
    Other {
        /// A number that tells the format from the others.
        id: int,
        /// The columns and rows of pixels that are stored together.
        block: (u32, u32),
        /// The bytes that those pixels take, where there is one number for them.
        block_bytes: Option<u32>,
    },
}

impl ImageFormat {
    /// The columns and rows of pixels that are stored together.
    pub open spec fn block(self) -> (u32, u32) {
        match self {
            ImageFormat::Rgba8UnormSrgb => (1, 1),
            ImageFormat::Other { block, .. } => block,
        }
    }

    /// The bytes that those pixels take, where there is one number for them.
    pub open spec fn block_bytes(self) -> Option<u32> {
        match self {
            ImageFormat::Rgba8UnormSrgb => Some(4),
            ImageFormat::Other { block_bytes, .. } => block_bytes,
        }
    }

    /// How pixels of the format are stored.
    pub open spec fn layout(self) -> PixelLayout {
        if self.block() == (1u32, 1u32) {
            match self.block_bytes() {
                Some(bytes) => PixelLayout::Uncompressed(bytes),
                None => PixelLayout::Unsized,
            }
        } else {
            PixelLayout::Compressed
        }
    }

    /// The number of bytes per pixel, where there is one.
    pub open spec fn pixel_bytes(self) -> Option<int> {
        match self.layout() {
            PixelLayout::Uncompressed(bytes) => Some(bytes as int),
            _ => None,
        }
    }
}

/// How pixels are stored.
#[derive(Clone, Copy, Debug, PartialEq, Eq, Structural)]
pub enum PixelLayout {
    /// One by one, in the given number of bytes each.
    Uncompressed(u32),
    /// In blocks of several pixels.
    Compressed,
    /// One by one, without a size of their own: several planes, or depth with stencil.
    Unsized,
}

/// The number of directions in which a texture extends.
pub ghost enum ImageDimension {
    /// One.
    D1,
    /// Two.
    D2,
    /// Three.
    D3,
}

/// What else is set for an image: mip levels, samples, usages, the worlds that it lives in, the
/// sampler, the label, the view and its formats, the order of layers and mip levels, and whether it
/// is copied on the device when its size changes.
pub ghost enum ImageSettings {
    /// One mip level and one sample; usable as a binding and as source and destination of copies;
    /// in both worlds; everything else as Bevy has it by default.
    Plain,
    /// Other settings, by a number that tells them apart.
    Custom(int),
}

/// What an image holds.
pub ghost struct ImageModel {
    /// The number of pixels in a row.
    pub width: u32,
    /// The number of rows.
    pub height: u32,
    /// The number of layers.
    pub layers: u32,
    /// The number of directions in which it extends.
    pub dimension: ImageDimension,
    /// The texture format.
    pub format: ImageFormat,
    /// What else is set.
    pub settings: ImageSettings,
    /// The pixels as they lie in memory, if the image has any.
    pub data: Option<Seq<u8>>,
}

/// What the image holds.
pub uninterp spec fn image_model(image: Image) -> ImageModel;

/// Where the handle points to.
pub uninterp spec fn handle_key(handle: UntypedHandle) -> ImageKey;

/// The bytes in an optional vector.
pub open spec fn optional_bytes(data: Option<Vec<u8>>) -> Option<Seq<u8>> {
    match data {
        Some(data) => Some(data@),
        None => None,
    }
}

/// The bytes after cutting or filling up with zeros to a length.
pub open spec fn with_length(data: Seq<u8>, len: int) -> Seq<u8> {
    Seq::new(len as nat, |i: int| if i < data.len() { data[i] } else { 0 })
}

/// The bytes over and over, up to a length. No bytes stay none.
pub open spec fn repeated(data: Seq<u8>, len: int) -> Seq<u8> {
    if data.len() == 0 {
        data
    } else {
        Seq::new(len as nat, |i: int| data[i % data.len() as int])
    }
}

/// The image after taking another size. Pixel data follows the size where pixels have one; the
/// format and the settings stay.
pub open spec fn resized(image: ImageModel, width: u32, height: u32) -> ImageModel {
    ImageModel {
        width,
        height,
        layers: 1,
        data: match (image.data, image.format.pixel_bytes()) {
            (Some(data), Some(bytes)) => Some(with_length(data, width * height * bytes)),
            _ => image.data,
        },
        ..image
    }
}

/// A new flat image of four bytes per pixel whose pixels are filled with the bytes, over and over.
pub open spec fn filled(width: u32, height: u32, pixels: Seq<u8>) -> ImageModel {
    ImageModel {
        width,
        height,
        layers: 1,
        dimension: ImageDimension::D2,
        format: ImageFormat::Rgba8UnormSrgb,
        settings: ImageSettings::Plain,
        data: Some(repeated(pixels, width * height * 4)),
    }
}

/// Whether an image can take a size: the number of pixels has to fit in 32 bits, their bytes in the
/// address space, and pixel data of a format without a pixel size cannot follow.
pub open spec fn can_resize(image: ImageModel, width: u32, height: u32) -> bool {
    image.data is Some ==> {
        &&& image.format.layout() != PixelLayout::Unsized
        &&& image.format.pixel_bytes() matches Some(bytes) ==> width * height <= u32::MAX && width
            * height * bytes <= isize::MAX
    }
}

/// Whether a new image can be filled with the bytes: they have to be whole pixels, and no more than
/// the image has.
pub open spec fn can_fill(width: u32, height: u32, len: int) -> bool {
    &&& width * height <= u32::MAX
    &&& width * height * 4 <= isize::MAX
    &&& len % 4 == 0
    &&& len <= width * height * 4
}

/// `Image::width`.
pub assume_specification[ Image::width ](image: &Image) -> (width: u32)
    ensures
        width == image_model(*image).width,
;

/// `Image::height`.
pub assume_specification[ Image::height ](image: &Image) -> (height: u32)
    ensures
        height == image_model(*image).height,
;

/// `<UntypedHandle as Clone>::clone`: the clone refers to the same image.
pub assume_specification[ <UntypedHandle as Clone>::clone ](handle: &UntypedHandle) -> (clone:
    UntypedHandle)
    ensures
        handle_key(clone) == handle_key(*handle),
;

/// `Handle::default`: the handle with Bevy's default identifier.
#[verifier::external_body]
pub(crate) fn default_image_handle() -> (handle: UntypedHandle)
    ensures
        handle_key(handle) == ImageKey::Uuid(DEFAULT_UUID),
{
    Handle::<Image>::default().untyped()
}

/// `TextureFormat::block_dimensions` of the format of the image.
#[verifier::external_body]
fn image_block(image: &Image) -> (block: (u32, u32))
    ensures
        block == image_model(*image).format.block(),
{
    image.texture_descriptor.format.block_dimensions()
}

/// `TextureFormat::block_copy_size` of the format of the image, all aspects together. A block has
/// one to sixteen bytes.
#[verifier::external_body]
fn image_block_bytes(image: &Image) -> (bytes: Option<u32>)
    ensures
        bytes == image_model(*image).format.block_bytes(),
        bytes matches Some(bytes) ==> 1 <= bytes <= 16,
{
    image.texture_descriptor.format.block_copy_size(None)
}

/// Tells how the pixels of an image are stored.
pub fn image_layout(image: &Image) -> (layout: PixelLayout)
    ensures
        layout == image_model(*image).format.layout(),
        layout matches PixelLayout::Uncompressed(bytes) ==> 1 <= bytes <= 16,
        layout is Compressed <==> image_model(*image).format.block() != (1u32, 1u32),
        layout matches PixelLayout::Uncompressed(bytes) ==> image_model(
            *image,
        ).format.block_bytes() == Some(bytes),
        layout is Unsized ==> image_model(*image).format.block_bytes() == None::<u32>,
{
    let (columns, rows) = image_block(image);
    if columns != 1 || rows != 1 {
        return PixelLayout::Compressed;
    }
    match image_block_bytes(image) {
        Some(bytes) => PixelLayout::Uncompressed(bytes),
        None => PixelLayout::Unsized,
    }
}

/// Reads the field `Image::data`.
#[verifier::external_body]
pub(crate) fn image_data(image: &Image) -> (data: Option<&Vec<u8>>)
    ensures
        match data {
            Some(data) => image_model(*image).data == Some(data@),
            None => image_model(*image).data == None::<Seq<u8>>,
        },
{
    image.data.as_ref()
}

/// Lends the field `Image::data`.
#[verifier::external_body]
pub(crate) fn image_data_mut(image: &mut Image) -> (data: &mut Option<Vec<u8>>)
    ensures
        optional_bytes(*data) == image_model(*old(image)).data,
        image_model(*final(image)) == (ImageModel {
            data: optional_bytes(*final(data)),
            ..image_model(*old(image))
        }),
{
    &mut image.data
}

/// `Image::resize` to a single layer.
#[verifier::external_body]
pub(crate) fn resize_image(image: &mut Image, width: u32, height: u32)
    requires
        can_resize(image_model(*old(image)), width, height),
    ensures
        image_model(*final(image)) == resized(image_model(*old(image)), width, height),
{
    image.resize(Extent3d { width, height, depth_or_array_layers: 1 });
}

/// `Image::new_fill` for a flat image of four bytes per pixel in the sRGB encoding, with the settings
/// that every new image has.
#[verifier::external_body]
pub(crate) fn fill_image(width: u32, height: u32, pixels: &[u8]) -> (image: Image)
    requires
        can_fill(width, height, pixels@.len() as int),
    ensures
        image_model(image) == filled(width, height, pixels@),
{
    Image::new_fill(
        Extent3d { width, height, depth_or_array_layers: 1 },
        TextureDimension::D2,
        pixels,
        TextureFormat::Rgba8UnormSrgb,
        RenderAssetUsages::default(),
    )
}

/// The image assets of an application: `bevy::asset::Assets<Image>`.
#[verifier::external_body]
pub struct ImageAssets {
    /// The collection itself, for an application to lend and take back.
    pub images: bevy::asset::Assets<Image>,
}

/// The images in the collection.
pub uninterp spec fn stored_images(assets: ImageAssets) -> Map<ImageKey, ImageModel>;

impl View for ImageAssets {
    type V = Map<ImageKey, ImageModel>;

    /// The images in the collection.
    open spec fn view(&self) -> Map<ImageKey, ImageModel> {
        stored_images(*self)
    }
}

impl ImageAssets {
    /// `Assets::get`: the image that the handle refers to, if it is stored. A handle that
    /// `UntypedAssetId::try_typed` knows to be of another asset type refers to none.
    #[verifier::external_body]
    pub(crate) fn get(&self, handle: &UntypedHandle) -> (image: Option<&Image>)
        ensures
            match image {
                Some(image) => stored_images(*self).contains_key(handle_key(*handle))
                    && image_model(*image) == stored_images(*self)[handle_key(*handle)],
                None => !stored_images(*self).contains_key(handle_key(*handle)),
            },
    {
        let id = handle.id().try_typed::<Image>().ok()?;
        self.images.get(id)
    }

    /// `Assets::get_mut`: the image that the handle refers to, as for [`ImageAssets::get`], to be
    /// changed in place. The others keep as they are.
    #[verifier::external_body]
    pub(crate) fn get_mut(&mut self, handle: &UntypedHandle) -> (image: Option<&mut Image>)
        ensures
            match image {
                Some(image) => {
                    &&& stored_images(*old(self)).contains_key(handle_key(*handle))
                    &&& image_model(*image) == stored_images(*old(self))[handle_key(*handle)]
                    &&& stored_images(*final(self)) == stored_images(*old(self)).insert(
                        handle_key(*handle),
                        image_model(*final(image)),
                    )
                },
                None => {
                    &&& !stored_images(*old(self)).contains_key(handle_key(*handle))
                    &&& stored_images(*final(self)) == stored_images(*old(self))
                },
            },
    {
        let id = handle.id().try_typed::<Image>().ok()?;
        self.images.get_mut(id).map(|image| image.into_inner())
    }

    /// `Assets::add`: stores the image in a slot that held none, and hands out its handle.
    /// Slots are numbered in 32 bits; what happens once they have run out is left unsaid.
    #[verifier::external_body]
    pub(crate) fn add(&mut self, image: Image) -> (handle: UntypedHandle)
        ensures
            handle_key(handle) is Index,
            !stored_images(*old(self)).contains_key(handle_key(handle)),
            stored_images(*final(self)) == stored_images(*old(self)).insert(
                handle_key(handle),
                image_model(image),
            ),
    {
        self.images.add(image).untyped()
    }
}

// ---------- laws ----------

/// How pixels are stored follows from the block: several pixels in a block are compressed, and a block
/// of one pixel has the size of the pixel, where it has one.
pub proof fn law_layout_follows_block(format: ImageFormat, bytes: u32)
    ensures
        format.layout() is Compressed <==> format.block() != (1u32, 1u32),
        format.layout() == PixelLayout::Uncompressed(bytes) <==> format.block() == (1u32, 1u32)
            && format.block_bytes() == Some(bytes),
        format.pixel_bytes() == Some(bytes as int) <==> format.block() == (1u32, 1u32)
            && format.block_bytes() == Some(bytes),
        format.pixel_bytes() is Some ==> format.block() == (1u32, 1u32)
            && format.block_bytes() is Some,
{
}

/// A new image has the given size and repeats the given bytes; a resized one has the given size, keeps
/// the bytes that it has room for, and is zero beyond them. Pixels without a size stay as they are.
pub proof fn law_new_sizes_hold(image: ImageModel, width: u32, height: u32, pixels: Seq<u8>)
    requires
        pixels.len() > 0,
    ensures
        ({
            let new = filled(width, height, pixels);
            &&& new.width == width && new.height == height && new.layers == 1
            &&& new.data matches Some(data) && data.len() == width * height * 4 && forall|i: int|
                0 <= i < data.len() ==> #[trigger] data[i] == pixels[i % pixels.len() as int]
        }),
        ({
            let new = resized(image, width, height);
            &&& new.width == width && new.height == height && new.layers == 1
            &&& new.data is Some <==> image.data is Some
            &&& image.data is Some && image.format.block() == (1u32, 1u32)
                && image.format.block_bytes() is Some ==> {
                let len = width * height * image.format.block_bytes()->0;
                &&& new.data->0.len() == len
                &&& forall|i: int|
                    0 <= i < len ==> #[trigger] new.data->0[i] == if i < image.data->0.len() {
                        image.data->0[i]
                    } else {
                        0
                    }
            }
            &&& image.format.block() != (1u32, 1u32) || image.format.block_bytes() is None
                ==> new.data == image.data
            &&& new.format == image.format && new.dimension == image.dimension && new.settings
                == image.settings
        }),
{
    assert(width * height * 4 >= 0) by (nonlinear_arith)
        requires
            width >= 0,
            height >= 0,
    ;
    if let Some(bytes) = image.format.block_bytes() {
        assert(width * height * bytes >= 0) by (nonlinear_arith)
            requires
                width >= 0,
                height >= 0,
                bytes >= 0,
        ;
    }
}

} // verus!
