//! Transfers in host memory.

use burn_tensor::TensorData;
use vstd::prelude::*;

use crate::handle::{BevyBurnHandle, BindingDirection, TransferKind};
use crate::images::{
    can_fill, can_resize, fill_image, filled, handle_key, image_data, image_data_mut, image_layout,
    law_new_sizes_hold, repeated, resize_image, ImageAssets, ImageDimension, ImageFormat, ImageKey,
    ImageModel, ImageSettings, PixelLayout,
};
use crate::quantize::{law_quantize_undoes_normalize, normalizes, quantized};
use crate::tensor::{
    bytes_to_tensor, is_loaded, law_float_tensors_have_bytes, rgba_bytes,
    tensor_data_to_rgba_bytes, tensor_model, tensor_rgba_bytes, tensor_shape, ElementType, Storage,
    TensorModel,
};

verus! {

/// Pixels on their way into a tensor: a tensor of bytes of rank one, and the extents that it takes
/// once its elements are divided by 255.
pub struct PixelTensor {
    /// The bytes.
    pub data: TensorData,
    /// Height, width and channels.
    pub dims: [usize; 3],
}

impl PixelTensor {
    /// Whether the value carries these pixels of an image of this size.
    pub open spec fn carries(self, pixels: Seq<u8>, width: u32, height: u32) -> bool {
        &&& tensor_model(self.data).element == ElementType::Unsigned8
        &&& tensor_model(self.data).shape == seq![pixels.len() as usize]
        &&& tensor_model(self.data).storage == Storage::Native
        &&& tensor_model(self.data).bytes == pixels
        &&& self.dims@ == seq![height as usize, width as usize, 4usize]
    }
}

/// Packs the pixels of an image of the given size.
pub(crate) fn pixel_tensor(pixels: &[u8], width: u32, height: u32) -> (tensor: PixelTensor)
    ensures
        tensor.carries(pixels@, width, height),
{
    let tensor = PixelTensor {
        data: bytes_to_tensor(pixels),
        dims: [height as usize, width as usize, 4],
    };
    assert(tensor.dims@ =~= seq![height as usize, width as usize, 4usize]);
    tensor
}

// ---------- from image to tensor ----------

/// The pixels that can be read for a key: those of a stored image that has four bytes for each of
/// its pixels.
pub open spec fn readable_pixels(images: Map<ImageKey, ImageModel>, key: ImageKey) -> Option<
    Seq<u8>,
> {
    if images.contains_key(key) {
        match images[key].data {
            Some(data) => if data.len() == images[key].width * images[key].height * 4 {
                Some(data)
            } else {
                None
            },
            None => None,
        }
    } else {
        None
    }
}

/// Reads the pixels for a handle that asks for them. The tensor made of them is handed to
/// [`BevyBurnHandle::receive`]; where there are none, the handle goes on asking.
pub fn bevy_to_burn_update<T>(handle: &BevyBurnHandle<T>, images: &ImageAssets) -> (pixels: Option<
    PixelTensor,
>)
    ensures
        pixels is Some <==> handle.due(BindingDirection::BevyToBurn, TransferKind::Cpu)
            && readable_pixels(images@, handle_key(handle.bevy_image)) is Some,
        pixels matches Some(pixels) ==> pixels.carries(
            readable_pixels(images@, handle_key(handle.bevy_image))->0,
            images@[handle_key(handle.bevy_image)].width,
            images@[handle_key(handle.bevy_image)].height,
        ),
        ({
            let key = handle_key(handle.bevy_image);
            let image = images@[key];
            &&& pixels is Some <==> {
                &&& handle.upload
                &&& handle.direction == BindingDirection::BevyToBurn
                &&& handle.xfer == TransferKind::Cpu
                &&& images@.contains_key(key)
                &&& image.data is Some
                &&& image.data->0.len() == image.width * image.height * 4
            }
            &&& pixels matches Some(pixels) ==> {
                &&& pixels.dims[0] == image.height
                &&& pixels.dims[1] == image.width
                &&& pixels.dims[2] == 4
                &&& tensor_model(pixels.data).bytes == image.data->0
                &&& pixels.dims[0] * pixels.dims[1] * pixels.dims[2] == tensor_model(
                    pixels.data,
                ).bytes.len()
            }
        }),
{
    if !handle.is_due(BindingDirection::BevyToBurn, TransferKind::Cpu) {
        return None;
    }
    let image = match images.get(&handle.bevy_image) {
        Some(image) => image,
        None => return None,
    };
    let width: u32 = image.width();
    let height: u32 = image.height();
    let raw = match image_data(image) {
        Some(raw) => raw,
        None => return None,
    };
    assert(width * height <= 0xFFFF_FFFF * 0xFFFF_FFFF) by (nonlinear_arith)
        requires
            width <= 0xFFFF_FFFF,
            height <= 0xFFFF_FFFF,
    ;
    if raw.len() as u128 != width as u128 * height as u128 * 4 {
        return None;
    }
    let pixels = pixel_tensor(raw.as_slice(), width, height);
    proof {
        law_extents_hold_what_is_read(pixels, raw@, width, height);
    }
    Some(pixels)
}

// ---------- from tensor to image ----------

/// The low 32 bits of an extent.
pub open spec fn low_word(extent: usize) -> u32 {
    (extent as int % 0x1_0000_0000) as u32
}

/// Takes the low 32 bits of an extent.
pub(crate) fn take_low_word(extent: usize) -> (word: u32)
    ensures
        word == low_word(extent),
        extent <= u32::MAX ==> word == extent,
{
    (extent as u64 % 0x1_0000_0000) as u32
}

/// Whether an image of this size with this many bytes can be written for a key.
pub open spec fn writable(
    images: Map<ImageKey, ImageModel>,
    key: ImageKey,
    width: u32,
    height: u32,
    len: int,
) -> bool {
    if images.contains_key(key) {
        images[key].width != width || images[key].height != height ==> can_resize(
            images[key],
            width,
            height,
        )
    } else {
        can_fill(width, height, len)
    }
}

/// A stored image after its pixels were written: its format and its settings stay.
pub open spec fn overwritten(
    image: ImageModel,
    width: u32,
    height: u32,
    bytes: Seq<u8>,
) -> ImageModel {
    ImageModel {
        width,
        height,
        layers: if image.width != width || image.height != height {
            1
        } else {
            image.layers
        },
        data: Some(bytes),
        ..image
    }
}

/// How a write changes a handle and the stored images: the image of the handle is overwritten, or,
/// where it is not stored, a new image is added that the handle then refers to.
pub open spec fn writes<T>(
    before: BevyBurnHandle<T>,
    after: BevyBurnHandle<T>,
    images_before: Map<ImageKey, ImageModel>,
    images_after: Map<ImageKey, ImageModel>,
    width: u32,
    height: u32,
    bytes: Seq<u8>,
) -> bool {
    let key = handle_key(before.bevy_image);
    let new_key = handle_key(after.bevy_image);
    if images_before.contains_key(key) {
        &&& after == before
        &&& images_after == images_before.insert(
            key,
            overwritten(images_before[key], width, height, bytes),
        )
    } else {
        &&& after == (BevyBurnHandle { bevy_image: after.bevy_image, ..before })
        &&& new_key is Index
        &&& !images_before.contains_key(new_key)
        &&& images_after == images_before.insert(new_key, filled(width, height, bytes))
    }
}

/// Whether the image of a handle can take this size, or a new one be filled with this many bytes.
fn can_write<T>(
    handle: &BevyBurnHandle<T>,
    images: &ImageAssets,
    width: u32,
    height: u32,
    len: usize,
) -> (can: bool)
    ensures
        can == writable(images@, handle_key(handle.bevy_image), width, height, len as int),
{
    let pixels: u64 = {
        assert(width * height <= 0xFFFF_FFFF * 0xFFFF_FFFF) by (nonlinear_arith)
            requires
                width <= 0xFFFF_FFFF,
                height <= 0xFFFF_FFFF,
        ;
        width as u64 * height as u64
    };
    let most: u64 = isize::MAX as u64;
    match images.get(&handle.bevy_image) {
        Some(image) => {
            if image.width() == width && image.height() == height {
                return true;
            }
            if image_data(image).is_none() {
                return true;
            }
            match image_layout(image) {
                PixelLayout::Uncompressed(bytes) => {
                    assert(pixels <= 0xFFFF_FFFF ==> pixels * bytes <= 0xFFFF_FFFF * 16)
                        by (nonlinear_arith)
                        requires
                            bytes <= 16,
                    ;
                    pixels <= 0xFFFF_FFFF && pixels * bytes as u64 <= most
                },
                PixelLayout::Compressed => true,
                PixelLayout::Unsized => false,
            }
        },
        None => pixels <= 0xFFFF_FFFF && pixels * 4 <= most && len % 4 == 0 && len as u64 <= pixels
            * 4,
    }
}

/// Writes the bytes of a tensor of the given extents (height, width, channels) into the image of
/// the handle. A stored image takes the size of the tensor; where none is stored, a new image is
/// filled and added.
pub fn write_tensor_bytes_to_image<T>(
    handle: &mut BevyBurnHandle<T>,
    images: &mut ImageAssets,
    dims: [usize; 3],
    bytes: Vec<u8>,
)
    requires
        writable(
            old(images)@,
            handle_key(old(handle).bevy_image),
            low_word(dims[1]),
            low_word(dims[0]),
            bytes@.len() as int,
        ),
    ensures
        writes(
            *old(handle),
            *final(handle),
            old(images)@,
            final(images)@,
            low_word(dims[1]),
            low_word(dims[0]),
            bytes@,
        ),
        ({
            let image = final(images)@[handle_key(final(handle).bevy_image)];
            &&& final(images)@.contains_key(handle_key(final(handle).bevy_image))
            &&& dims[1] <= u32::MAX ==> image.width == dims[1]
            &&& dims[0] <= u32::MAX ==> image.height == dims[0]
            &&& old(images)@.contains_key(handle_key(old(handle).bevy_image))
                || dims[0] * dims[1] * 4 == bytes@.len() && dims[0] <= u32::MAX && dims[1]
                <= u32::MAX ==> image.data == Some(bytes@)
        }),
        final(handle).tensor == old(handle).tensor,
        final(handle).upload == old(handle).upload,
        final(handle).direction == old(handle).direction,
        final(handle).xfer == old(handle).xfer,
{
    let ghost handle_before = *handle;
    let ghost images_before = images@;
    let height: u32 = take_low_word(dims[0]);
    let width: u32 = take_low_word(dims[1]);
    match images.get_mut(&handle.bevy_image) {
        Some(image) => {
            if image.height() != height || image.width() != width {
                resize_image(image, width, height);
            }
            let data = image_data_mut(image);
            *data = Some(bytes);
            return;
        },
        None => {},
    }
    let image = fill_image(width, height, bytes.as_slice());
    handle.bevy_image = images.add(image);
    proof {
        if dims[0] * dims[1] * 4 == bytes@.len() && dims[0] <= u32::MAX && dims[1] <= u32::MAX {
            assert(width * height * 4 == bytes@.len()) by (nonlinear_arith)
                requires
                    dims[0] * dims[1] * 4 == bytes@.len(),
                    width == dims[1],
                    height == dims[0],
            ;
            law_read_gives_back_write(
                handle_before,
                *handle,
                images_before,
                images@,
                width,
                height,
                bytes@,
            );
        }
    }
}

/// What came of a transfer from a tensor to an image.
#[derive(Clone, Copy, Debug, PartialEq, Eq, Structural)]
pub enum Download {
    /// The handle does not ask for it.
    NotDue,
    /// The tensor does not hold single precision numbers.
    NoPixels,
    /// No image of that size can be made.
    Unwritable,
    /// The image holds the tensor.
    Written,
}

/// What comes of writing the contents of a tensor for a key, into an image of this size.
pub open spec fn write_outcome(
    images: Map<ImageKey, ImageModel>,
    key: ImageKey,
    width: u32,
    height: u32,
    model: TensorModel,
) -> Download {
    match tensor_rgba_bytes(model) {
        None => Download::NoPixels,
        Some(bytes) => if writable(images, key, width, height, bytes.len() as int) {
            Download::Written
        } else {
            Download::Unwritable
        },
    }
}

/// Whether the contents of a tensor are whole single precision numbers.
pub open spec fn holds_floats(model: TensorModel) -> bool {
    model.element == ElementType::Float32 && model.bytes.len() % 4 == 0
}

/// Writes the contents of a tensor in memory into the image of the handle, if they are pixels that an image
/// can take. The image takes the given extents (height, width, channels). The request of the handle
/// keeps as it is.
fn write_tensor<T>(
    handle: &mut BevyBurnHandle<T>,
    images: &mut ImageAssets,
    dims: [usize; 3],
    data: &TensorData,
) -> (outcome: Download)
    requires
        tensor_model(*data).storage != Storage::File,
    ensures
        outcome == write_outcome(
            old(images)@,
            handle_key(old(handle).bevy_image),
            low_word(dims[1]),
            low_word(dims[0]),
            tensor_model(*data),
        ),
        outcome == Download::NoPixels <==> !holds_floats(tensor_model(*data)),
        outcome == Download::Written ==> writes(
            *old(handle),
            *final(handle),
            old(images)@,
            final(images)@,
            low_word(dims[1]),
            low_word(dims[0]),
            tensor_rgba_bytes(tensor_model(*data))->0,
        ),
        outcome != Download::Written ==> *final(handle) == *old(handle) && final(images)@ == old(
            images,
        )@,
{
    let bytes = match tensor_data_to_rgba_bytes(data) {
        Some(bytes) => bytes,
        None => return Download::NoPixels,
    };
    let height: u32 = take_low_word(dims[0]);
    let width: u32 = take_low_word(dims[1]);
    if !can_write(handle, images, width, height, bytes.len()) {
        return Download::Unwritable;
    }
    write_tensor_bytes_to_image(handle, images, dims, bytes);
    Download::Written
}

/// What comes of a transfer for a handle that asks for it, given the contents of its tensor. The
/// image takes the extents of the tensor, of which there have to be three.
pub open spec fn update_outcome(
    images: Map<ImageKey, ImageModel>,
    key: ImageKey,
    model: TensorModel,
) -> Download {
    if model.shape.len() != 3 {
        Download::Unwritable
    } else {
        write_outcome(images, key, low_word(model.shape[1]), low_word(model.shape[0]), model)
    }
}

/// Writes the contents of its tensor, which are in memory, into the image of a handle that asks for
/// it. The request is done once the image is written; otherwise nothing changes.
pub fn burn_to_bevy_update<T>(
    handle: &mut BevyBurnHandle<T>,
    images: &mut ImageAssets,
    data: &TensorData,
) -> (outcome: Download)
    requires
        tensor_model(*data).storage != Storage::File,
    ensures
        outcome == if old(handle).due(BindingDirection::BurnToBevy, TransferKind::Cpu) {
            update_outcome(old(images)@, handle_key(old(handle).bevy_image), tensor_model(*data))
        } else {
            Download::NotDue
        },
        outcome == Download::NoPixels <==> {
            &&& old(handle).due(BindingDirection::BurnToBevy, TransferKind::Cpu)
            &&& tensor_model(*data).shape.len() == 3
            &&& !holds_floats(tensor_model(*data))
        },
        outcome == Download::Written ==> {
            &&& writes(
                *old(handle),
                BevyBurnHandle { upload: old(handle).upload, ..*final(handle) },
                old(images)@,
                final(images)@,
                low_word(tensor_model(*data).shape[1]),
                low_word(tensor_model(*data).shape[0]),
                tensor_rgba_bytes(tensor_model(*data))->0,
            )
            &&& !final(handle).upload
        },
        outcome != Download::Written ==> *final(handle) == *old(handle) && final(images)@ == old(
            images,
        )@,
{
    if !handle.is_due(BindingDirection::BurnToBevy, TransferKind::Cpu) {
        return Download::NotDue;
    }
    let shape = tensor_shape(data);
    if shape.len() != 3 {
        return Download::Unwritable;
    }
    let dims: [usize; 3] = [shape[0], shape[1], shape[2]];
    let outcome = write_tensor(handle, images, dims, data);
    if outcome == Download::Written {
        handle.upload = false;
    }
    outcome
}

/// Does [`burn_to_bevy_update`] where the contents of the tensor are in memory. Where they are in a
/// file, gives nothing and changes nothing: they are to be loaded first.
pub fn burn_to_bevy_update_if_loaded<T>(
    handle: &mut BevyBurnHandle<T>,
    images: &mut ImageAssets,
    data: &TensorData,
) -> (outcome: Option<Download>)
    ensures
        outcome is None <==> tensor_model(*data).storage == Storage::File,
        outcome is None ==> *final(handle) == *old(handle) && final(images)@ == old(images)@,
        outcome matches Some(outcome) ==> {
            &&& outcome == if old(handle).due(BindingDirection::BurnToBevy, TransferKind::Cpu) {
                update_outcome(
                    old(images)@,
                    handle_key(old(handle).bevy_image),
                    tensor_model(*data),
                )
            } else {
                Download::NotDue
            }
            &&& outcome == Download::NoPixels <==> {
                &&& old(handle).due(BindingDirection::BurnToBevy, TransferKind::Cpu)
                &&& tensor_model(*data).shape.len() == 3
                &&& !holds_floats(tensor_model(*data))
            }
            &&& outcome == Download::Written ==> {
                &&& writes(
                    *old(handle),
                    BevyBurnHandle { upload: old(handle).upload, ..*final(handle) },
                    old(images)@,
                    final(images)@,
                    low_word(tensor_model(*data).shape[1]),
                    low_word(tensor_model(*data).shape[0]),
                    tensor_rgba_bytes(tensor_model(*data))->0,
                )
                &&& !final(handle).upload
            }
            &&& outcome != Download::Written ==> *final(handle) == *old(handle) && final(images)@
                == old(images)@
        },
{
    if !is_loaded(data) {
        return None;
    }
    Some(burn_to_bevy_update(handle, images, data))
}

// ---------- from tensor to image, without blocking ----------

/// What to do next for a handle whose tensor is fetched in the background.
#[derive(Clone, Copy, Debug, PartialEq, Eq, Structural)]
pub enum DownloadStep {
    /// Nothing.
    Leave,
    /// Give up the fetch that is under way.
    Abandon,
    /// See whether the fetch that is under way has ended.
    Poll,
    /// Start a fetch.
    Start,
}

/// Decides what to do next for a handle, given whether a fetch is under way for it.
pub fn download_step<T>(handle: &BevyBurnHandle<T>, pending: bool) -> (step: DownloadStep)
    ensures
        step == match (handle.due(BindingDirection::BurnToBevy, TransferKind::Cpu), pending) {
            (false, false) => DownloadStep::Leave,
            (false, true) => DownloadStep::Abandon,
            (true, true) => DownloadStep::Poll,
            (true, false) => DownloadStep::Start,
        },
{
    let is_cpu_download: bool = handle.direction == BindingDirection::BurnToBevy && handle.xfer
        == TransferKind::Cpu;
    if !is_cpu_download || !handle.upload {
        if pending {
            return DownloadStep::Abandon;
        }
        return DownloadStep::Leave;
    }
    if pending {
        DownloadStep::Poll
    } else {
        DownloadStep::Start
    }
}

/// Writes what a fetch brought into memory, which is nothing where it failed, into the image of the
/// handle. The image takes the extents (height, width, channels) that the tensor of the handle has by now, which
/// need not be those of the tensor that was fetched. The request is done also where there was nothing
/// to write.
pub fn finish_download<T>(
    handle: &mut BevyBurnHandle<T>,
    images: &mut ImageAssets,
    dims: [usize; 3],
    data: Option<&TensorData>,
) -> (outcome: Download)
    requires
        data matches Some(data) ==> tensor_model(*data).storage != Storage::File,
    ensures
        outcome == match data {
            Some(data) => write_outcome(
                old(images)@,
                handle_key(old(handle).bevy_image),
                low_word(dims[1]),
                low_word(dims[0]),
                tensor_model(*data),
            ),
            None => Download::NoPixels,
        },
        outcome == Download::NoPixels <==> data is None || !holds_floats(tensor_model(*data->0)),
        outcome == Download::Written ==> {
            &&& writes(
                *old(handle),
                BevyBurnHandle { upload: old(handle).upload, ..*final(handle) },
                old(images)@,
                final(images)@,
                low_word(dims[1]),
                low_word(dims[0]),
                tensor_rgba_bytes(tensor_model(*data->0))->0,
            )
            &&& !final(handle).upload
        },
        outcome == Download::NoPixels ==> *final(handle) == (BevyBurnHandle {
            upload: false,
            ..*old(handle)
        }) && final(images)@ == old(images)@,
        outcome == Download::Unwritable ==> *final(handle) == *old(handle) && final(images)@ == old(
            images,
        )@,
{
    let outcome = match data {
        Some(data) => write_tensor(handle, images, dims, data),
        None => Download::NoPixels,
    };
    if outcome != Download::Unwritable {
        handle.upload = false;
    }
    outcome
}

/// Does [`finish_download`] where the fetch brought nothing or brought it into memory. Where the
/// contents are in a file, gives nothing and changes nothing: they are to be loaded first.
pub fn finish_download_if_loaded<T>(
    handle: &mut BevyBurnHandle<T>,
    images: &mut ImageAssets,
    dims: [usize; 3],
    data: Option<&TensorData>,
) -> (outcome: Option<Download>)
    ensures
        outcome is None <==> data is Some && tensor_model(*data->0).storage == Storage::File,
        outcome is None ==> *final(handle) == *old(handle) && final(images)@ == old(images)@,
        outcome matches Some(outcome) ==> {
            &&& outcome == match data {
                Some(data) => write_outcome(
                    old(images)@,
                    handle_key(old(handle).bevy_image),
                    low_word(dims[1]),
                    low_word(dims[0]),
                    tensor_model(*data),
                ),
                None => Download::NoPixels,
            }
            &&& outcome == Download::NoPixels <==> data is None || !holds_floats(
                tensor_model(*data->0),
            )
            &&& outcome == Download::Written ==> {
                &&& writes(
                    *old(handle),
                    BevyBurnHandle { upload: old(handle).upload, ..*final(handle) },
                    old(images)@,
                    final(images)@,
                    low_word(dims[1]),
                    low_word(dims[0]),
                    tensor_rgba_bytes(tensor_model(*data->0))->0,
                )
                &&& !final(handle).upload
            }
            &&& outcome == Download::NoPixels ==> *final(handle) == (BevyBurnHandle {
                upload: false,
                ..*old(handle)
            }) && final(images)@ == old(images)@
            &&& outcome == Download::Unwritable ==> *final(handle) == *old(handle)
                && final(images)@ == old(images)@
        },
{
    match data {
        Some(data) => {
            if !is_loaded(data) {
                return None;
            }
            Some(finish_download(handle, images, dims, Some(data)))
        },
        None => Some(finish_download(handle, images, dims, None)),
    }
}

// ---------- laws ----------

/// The low 32 bits of an extent are the extent itself where it fits, and differ from it by a multiple
/// of two to the 32 otherwise.
pub proof fn law_low_word_keeps_what_fits(extent: usize)
    ensures
        extent <= u32::MAX ==> low_word(extent) == extent,
        (extent - low_word(extent)) % 0x1_0000_0000 == 0,
{
}

/// What can be read for a key is what is stored there, byte for byte, if it has four bytes for each
/// pixel.
pub proof fn law_stored_pixels_are_readable(
    images: Map<ImageKey, ImageModel>,
    key: ImageKey,
    pixels: Seq<u8>,
)
    ensures
        readable_pixels(images, key) == Some(pixels) <==> {
            &&& images.contains_key(key)
            &&& images[key].data == Some(pixels)
            &&& pixels.len() == images[key].width * images[key].height * 4
        },
{
}

/// The extents of what is read are those of the image, and hold exactly the bytes that were read.
pub proof fn law_extents_hold_what_is_read(
    tensor: PixelTensor,
    pixels: Seq<u8>,
    width: u32,
    height: u32,
)
    requires
        tensor.carries(pixels, width, height),
        pixels.len() == width * height * 4,
    ensures
        tensor.dims[0] == height,
        tensor.dims[1] == width,
        tensor.dims[2] == 4,
        tensor_model(tensor.data).bytes == pixels,
        tensor_model(tensor.data).element == ElementType::Unsigned8,
        tensor_model(tensor.data).shape.len() == 1,
        tensor.dims[0] * tensor.dims[1] * tensor.dims[2] == tensor_model(tensor.data).bytes.len(),
{
    assert(tensor.dims@[0] == height);
    assert(tensor.dims@[1] == width);
    assert(tensor.dims@[2] == 4);
    assert(height * width * 4 == width * height * 4) by (nonlinear_arith);
}

/// Which writes to a stored image are possible does not depend on the size that it had: one that has
/// that size already, that has no pixels yet, or that is compressed can always be written; one of
/// uncompressed pixels exactly where the pixels of the new size can be counted and addressed.
pub proof fn law_stored_images_can_be_written(
    images: Map<ImageKey, ImageModel>,
    key: ImageKey,
    width: u32,
    height: u32,
    len: int,
)
    requires
        images.contains_key(key),
    ensures
        images[key].width == width && images[key].height == height ==> writable(
            images,
            key,
            width,
            height,
            len,
        ),
        images[key].data is None || images[key].format.block() != (1u32, 1u32) ==> writable(
            images,
            key,
            width,
            height,
            len,
        ),
        images[key].format.block() == (1u32, 1u32) && images[key].format.block_bytes() is Some
            && width * height <= u32::MAX && width * height * images[key].format.block_bytes()->0
            <= isize::MAX ==> writable(images, key, width, height, len),
        writable(images, key, width, height, len) ==> images[key].width == width
            && images[key].height == height || images[key].data is None
            || images[key].format.block() != (1u32, 1u32) || {
            &&& images[key].format.block_bytes() is Some
            &&& width * height <= u32::MAX
            &&& width * height * images[key].format.block_bytes()->0 <= isize::MAX
        },
{
}

/// A new image can be written exactly where the bytes are whole pixels, no more than it has, and its
/// pixels can be counted and addressed.
pub proof fn law_new_images_can_be_written(
    images: Map<ImageKey, ImageModel>,
    key: ImageKey,
    width: u32,
    height: u32,
    len: int,
)
    requires
        !images.contains_key(key),
    ensures
        writable(images, key, width, height, len) <==> {
            &&& width * height <= u32::MAX
            &&& width * height * 4 <= isize::MAX
            &&& len % 4 == 0
            &&& len <= width * height * 4
        },
{
}

/// A write leaves the given bytes and the given size: in the image that was stored, or, where none
/// was, in a new one that repeats the bytes. Of the handle, at most the image changes.
pub proof fn law_write_leaves_bytes_and_size<T>(
    before: BevyBurnHandle<T>,
    after: BevyBurnHandle<T>,
    images_before: Map<ImageKey, ImageModel>,
    images_after: Map<ImageKey, ImageModel>,
    width: u32,
    height: u32,
    bytes: Seq<u8>,
)
    requires
        writes(before, after, images_before, images_after, width, height, bytes),
    ensures
        after.tensor == before.tensor,
        after.upload == before.upload,
        after.direction == before.direction,
        after.xfer == before.xfer,
        images_after.contains_key(handle_key(after.bevy_image)),
        ({
            let key = handle_key(before.bevy_image);
            let new = images_after[handle_key(after.bevy_image)];
            &&& new.width == width && new.height == height
            &&& images_before.contains_key(key) ==> {
                &&& handle_key(after.bevy_image) == key
                &&& new.data == Some(bytes)
                &&& images_before[key].width != width || images_before[key].height != height
                    ==> new.layers == 1
            }
            &&& !images_before.contains_key(key) ==> {
                &&& !images_before.contains_key(handle_key(after.bevy_image))
                &&& new.layers == 1
                &&& new.data is Some
                &&& bytes.len() == 0 ==> new.data->0.len() == 0
                &&& bytes.len() > 0 ==> new.data->0.len() == width * height * 4 && forall|i: int|
                    0 <= i < width * height * 4 ==> #[trigger] new.data->0[i] == bytes[i
                        % bytes.len() as int]
            }
        }),
{
    if bytes.len() > 0 {
        law_new_sizes_hold(images_after[handle_key(after.bevy_image)], width, height, bytes);
    }
}

/// A write that is due succeeds, whatever size the stored image had: if the tensor has three extents
/// and holds single precision numbers, and the image stores pixels of a fixed number of bytes whose
/// new number can be counted and addressed, the image takes the tensor's size and holds its numbers
/// as bytes.
pub proof fn law_due_write_succeeds<T>(
    before: BevyBurnHandle<T>,
    after: BevyBurnHandle<T>,
    images_before: Map<ImageKey, ImageModel>,
    images_after: Map<ImageKey, ImageModel>,
    model: TensorModel,
)
    requires
        model.shape.len() == 3,
        model.shape[0] <= u32::MAX,
        model.shape[1] <= u32::MAX,
        model.element == ElementType::Float32,
        model.words is Some,
        images_before.contains_key(handle_key(before.bevy_image)),
        images_before[handle_key(before.bevy_image)].format.block() == (1u32, 1u32),
        images_before[handle_key(before.bevy_image)].format.block_bytes() is Some,
        images_before[handle_key(before.bevy_image)].format.block_bytes()->0 <= 16,
        model.shape[1] * model.shape[0] <= u32::MAX,
        model.shape[1] * model.shape[0] * 16 <= isize::MAX,
    ensures
        update_outcome(images_before, handle_key(before.bevy_image), model) == Download::Written,
        write_outcome(
            images_before,
            handle_key(before.bevy_image),
            model.shape[1] as u32,
            model.shape[0] as u32,
            model,
        ) == Download::Written,
        writes(
            before,
            after,
            images_before,
            images_after,
            low_word(model.shape[1]),
            low_word(model.shape[0]),
            tensor_rgba_bytes(model)->0,
        ) ==> {
            let new = images_after[handle_key(before.bevy_image)];
            &&& new.width == model.shape[1]
            &&& new.height == model.shape[0]
            &&& new.data is Some
            &&& new.data->0.len() == model.words->0.len()
            &&& forall|i: int|
                0 <= i < model.words->0.len() ==> #[trigger] new.data->0[i] == quantized(
                    model.words->0[i],
                )
        },
{
    let key = handle_key(before.bevy_image);
    let width = model.shape[1] as u32;
    let height = model.shape[0] as u32;
    let bytes = images_before[key].format.block_bytes()->0;
    assert(width * height * bytes <= width * height * 16) by (nonlinear_arith)
        requires
            width >= 0,
            height >= 0,
            0 <= bytes <= 16,
    ;
    law_float_tensors_have_bytes(model);
    law_stored_images_can_be_written(
        images_before,
        key,
        width,
        height,
        tensor_rgba_bytes(model)->0.len() as int,
    );
}

/// A write that is due succeeds also where no image is stored, if the tensor has four numbers for each
/// pixel: the new image has the tensor's size and holds its numbers as bytes.
pub proof fn law_due_write_makes_image<T>(
    before: BevyBurnHandle<T>,
    after: BevyBurnHandle<T>,
    images_before: Map<ImageKey, ImageModel>,
    images_after: Map<ImageKey, ImageModel>,
    model: TensorModel,
)
    requires
        model.shape.len() == 3,
        model.shape[0] <= u32::MAX,
        model.shape[1] <= u32::MAX,
        model.element == ElementType::Float32,
        model.words is Some,
        model.words->0.len() == model.shape[1] * model.shape[0] * 4,
        !images_before.contains_key(handle_key(before.bevy_image)),
        model.shape[1] * model.shape[0] <= u32::MAX,
        model.shape[1] * model.shape[0] * 4 <= isize::MAX,
    ensures
        update_outcome(images_before, handle_key(before.bevy_image), model) == Download::Written,
        write_outcome(
            images_before,
            handle_key(before.bevy_image),
            model.shape[1] as u32,
            model.shape[0] as u32,
            model,
        ) == Download::Written,
        writes(
            before,
            after,
            images_before,
            images_after,
            low_word(model.shape[1]),
            low_word(model.shape[0]),
            tensor_rgba_bytes(model)->0,
        ) ==> {
            let new = images_after[handle_key(after.bevy_image)];
            &&& new.width == model.shape[1]
            &&& new.height == model.shape[0]
            &&& new.data is Some
            &&& new.data->0.len() == model.words->0.len()
            &&& forall|i: int|
                0 <= i < model.words->0.len() ==> #[trigger] new.data->0[i] == quantized(
                    model.words->0[i],
                )
        },
{
    law_float_tensors_have_bytes(model);
    let width = model.shape[1] as u32;
    let height = model.shape[0] as u32;
    let bytes = tensor_rgba_bytes(model)->0;
    if writes(before, after, images_before, images_after, width, height, bytes) {
        law_read_gives_back_write(
            before,
            after,
            images_before,
            images_after,
            width,
            height,
            bytes,
        );
        law_stored_pixels_are_readable(images_after, handle_key(after.bevy_image), bytes);
    }
}

/// Each outcome has its own reason: no pixels where the tensor holds no single precision numbers,
/// written where an image can take them, and unwritable where none can.
pub proof fn law_outcomes_have_reasons(
    images: Map<ImageKey, ImageModel>,
    key: ImageKey,
    width: u32,
    height: u32,
    model: TensorModel,
)
    ensures
        ({
            let outcome = write_outcome(images, key, width, height, model);
            let floats = model.element == ElementType::Float32 && model.words is Some;
            let fits = writable(images, key, width, height, model.words->0.len() as int);
            &&& outcome == Download::NoPixels <==> !floats
            &&& outcome == Download::Written <==> floats && fits
            &&& outcome == Download::Unwritable <==> floats && !fits
        }),
        model.shape.len() == 3 ==> update_outcome(images, key, model) == write_outcome(
            images,
            key,
            (model.shape[1] as int % 0x1_0000_0000) as u32,
            (model.shape[0] as int % 0x1_0000_0000) as u32,
            model,
        ),
        model.shape.len() != 3 ==> update_outcome(images, key, model) == Download::Unwritable,
        holds_floats(model) <==> model.element == ElementType::Float32 && model.bytes.len() % 4
            == 0,
{
    law_float_tensors_have_bytes(model);
}

/// What was written for a handle is what is read for it: if the bytes are four for each pixel, the
/// image that the handle refers to after a write can be read, and holds those bytes and that size.
pub proof fn law_read_gives_back_write<T>(
    before: BevyBurnHandle<T>,
    after: BevyBurnHandle<T>,
    images_before: Map<ImageKey, ImageModel>,
    images_after: Map<ImageKey, ImageModel>,
    width: u32,
    height: u32,
    bytes: Seq<u8>,
)
    requires
        writes(before, after, images_before, images_after, width, height, bytes),
        bytes.len() == width * height * 4,
    ensures
        readable_pixels(images_after, handle_key(after.bevy_image)) == Some(bytes),
        images_after[handle_key(after.bevy_image)].width == width,
        images_after[handle_key(after.bevy_image)].height == height,
{
    assert(repeated(bytes, width * height * 4) =~= bytes) by {
        assert forall|i: int| 0 <= i < bytes.len() implies #[trigger] (i % bytes.len() as int)
            == i by {
            vstd::arithmetic::div_mod::lemma_small_mod(i as nat, bytes.len());
        }
    }
}

/// Writing the same bytes again changes nothing, if they are four for each pixel.
pub proof fn law_second_write_changes_nothing<T>(
    first: BevyBurnHandle<T>,
    second: BevyBurnHandle<T>,
    third: BevyBurnHandle<T>,
    images_first: Map<ImageKey, ImageModel>,
    images_second: Map<ImageKey, ImageModel>,
    images_third: Map<ImageKey, ImageModel>,
    width: u32,
    height: u32,
    bytes: Seq<u8>,
)
    requires
        writes(first, second, images_first, images_second, width, height, bytes),
        writes(second, third, images_second, images_third, width, height, bytes),
        bytes.len() == width * height * 4,
    ensures
        third == second,
        images_third == images_second,
{
    law_read_gives_back_write(
        first,
        second,
        images_first,
        images_second,
        width,
        height,
        bytes,
    );
    assert(images_third =~= images_second);
}

/// A write concerns one image: every other stored image is stored as before, and no image is lost.
pub proof fn law_write_changes_one_image<T>(
    before: BevyBurnHandle<T>,
    after: BevyBurnHandle<T>,
    images_before: Map<ImageKey, ImageModel>,
    images_after: Map<ImageKey, ImageModel>,
    width: u32,
    height: u32,
    bytes: Seq<u8>,
    other: ImageKey,
)
    requires
        writes(before, after, images_before, images_after, width, height, bytes),
        other != handle_key(after.bevy_image),
    ensures
        images_after.contains_key(other) <==> images_before.contains_key(other),
        images_before.contains_key(other) ==> images_after[other] == images_before[other],
        images_after.contains_key(handle_key(after.bevy_image)),
{
}

/// A write changes the pixels and the size of a stored image and nothing else: format, dimension and
/// settings stay, and so do the layers where the size was right already; the same images are stored.
/// Where none was stored, one is added, a flat one of four bytes per pixel with plain settings. The
/// number of images grows by one in that case and stays otherwise.
pub proof fn law_write_keeps_settings<T>(
    before: BevyBurnHandle<T>,
    after: BevyBurnHandle<T>,
    images_before: Map<ImageKey, ImageModel>,
    images_after: Map<ImageKey, ImageModel>,
    width: u32,
    height: u32,
    bytes: Seq<u8>,
)
    requires
        writes(before, after, images_before, images_after, width, height, bytes),
    ensures
        ({
            let key = handle_key(before.bevy_image);
            let new = images_after[handle_key(after.bevy_image)];
            if images_before.contains_key(key) {
                let old_image = images_before[key];
                &&& after == before
                &&& new.format == old_image.format
                &&& new.dimension == old_image.dimension
                &&& new.settings == old_image.settings
                &&& old_image.width == width && old_image.height == height ==> new.layers
                    == old_image.layers
                &&& images_after.dom() == images_before.dom()
                &&& images_before.dom().finite() ==> images_after.dom().len()
                    == images_before.dom().len()
            } else {
                &&& new.format == ImageFormat::Rgba8UnormSrgb
                &&& new.dimension == ImageDimension::D2
                &&& new.settings == ImageSettings::Plain
                &&& images_after.dom() == images_before.dom().insert(
                    handle_key(after.bevy_image),
                )
                &&& images_before.dom().finite() ==> images_after.dom().len()
                    == images_before.dom().len() + 1
            }
        }),
{
    let key = handle_key(after.bevy_image);
    assert(images_after.dom() =~= images_before.dom().insert(key));
    if images_before.contains_key(handle_key(before.bevy_image)) {
        assert(images_after.dom() =~= images_before.dom());
    }
}

/// Turning an image into a tensor and back gives the image bytes again, whatever the backend's
/// error in dividing by 255 as long as it stays within a quarter of a step.
pub proof fn law_bytes_survive_normalizing(pixels: Seq<u8>, words: Seq<u32>)
    requires
        words.len() == pixels.len(),
        forall|i: int| 0 <= i < pixels.len() ==> normalizes(#[trigger] words[i], pixels[i]),
    ensures
        rgba_bytes(words) == pixels,
{
    assert forall|i: int| 0 <= i < pixels.len() implies rgba_bytes(words)[i] == pixels[i] by {
        law_quantize_undoes_normalize(words[i], pixels[i]);
    }
    assert(rgba_bytes(words) =~= pixels);
}

/// Reading an image into a tensor and writing that tensor back leaves every stored image as it was.
pub proof fn law_round_trip_keeps_images<T>(
    before: BevyBurnHandle<T>,
    after: BevyBurnHandle<T>,
    images_before: Map<ImageKey, ImageModel>,
    images_after: Map<ImageKey, ImageModel>,
    words: Seq<u32>,
)
    requires
        readable_pixels(images_before, handle_key(before.bevy_image)) matches Some(pixels)
            && words.len() == pixels.len() && forall|i: int|
            0 <= i < pixels.len() ==> normalizes(#[trigger] words[i], pixels[i]),
        writes(
            before,
            after,
            images_before,
            images_after,
            images_before[handle_key(before.bevy_image)].width,
            images_before[handle_key(before.bevy_image)].height,
            rgba_bytes(words),
        ),
    ensures
        after == before,
        images_after == images_before,
{
    let key = handle_key(before.bevy_image);
    let pixels = readable_pixels(images_before, key)->0;
    law_bytes_survive_normalizing(pixels, words);
    assert(images_after =~= images_before);
}

/// Once a transfer is done, the handle asks for none until it is told to again.
pub proof fn law_done_is_not_due<T>(
    handle: BevyBurnHandle<T>,
    direction: BindingDirection,
    xfer: TransferKind,
)
    requires
        !handle.upload,
    ensures
        !handle.due(direction, xfer),
        (BevyBurnHandle { upload: true, ..handle }).due(handle.direction, handle.xfer),
{
}

} // verus!
