//! Transfers in device memory.

use bevy::asset::UntypedHandle;
use vstd::prelude::*;
use vstd::slice::slice_subrange;

use crate::cpu::{low_word, pixel_tensor, take_low_word, PixelTensor};
use crate::handle::{BevyBurnHandle, BindingDirection, TransferKind};
use crate::images::handle_key;
use crate::tensor::tensor_model;

verus! {

/// `wgpu::BindGroup`. The bridge only carries it.
#[verifier::external_type_specification]
#[verifier::external_body]
pub struct ExBindGroup(wgpu::BindGroup);

/// A compute dispatch that copies a tensor into a texture.
pub struct CopyBindGroup {
    /// The tensor's buffer and the texture.
    pub bg: wgpu::BindGroup,
    /// The number of workgroups along each axis.
    pub workgroups: [u32; 3],
}

/// The size of a texture of one layer.
#[derive(Clone, Copy, Debug, PartialEq, Eq, Structural)]
pub struct Extent {
    /// The number of pixels in a row.
    pub width: u32,
    /// The number of rows.
    pub height: u32,
}

/// What the render world keeps of a handle.
#[derive(Debug)]
pub struct ExtractedGpuHandle<T> {
    /// The image.
    pub image: UntypedHandle,
    /// The tensor.
    pub tensor: T,
    /// The way the contents go.
    pub direction: BindingDirection,
    /// Whether a transfer is asked for.
    pub upload: bool,
}

impl<T> ExtractedGpuHandle<T> {
    /// Whether the handle asks for a transfer in this direction.
    pub open spec fn due(self, direction: BindingDirection) -> bool {
        self.upload && self.direction == direction
    }

    /// Whether the handle asks for a transfer in this direction.
    pub fn is_due(&self, direction: BindingDirection) -> (due: bool)
        ensures
            due == self.due(direction),
            due <==> self.upload && self.direction == direction,
    {
        self.direction == direction && self.upload
    }

    /// Takes the tensor that was read from the texture; the transfer is done.
    pub fn receive(&mut self, tensor: T)
        ensures
            *final(self) == (ExtractedGpuHandle { tensor, upload: false, ..*old(self) }),
    {
        self.tensor = tensor;
        self.upload = false;
    }
}

impl<T: Clone> Clone for ExtractedGpuHandle<T> {
    /// A handle on the same image, with a clone of the tensor.
    fn clone(&self) -> (handle: Self)
        ensures
            handle_key(handle.image) == handle_key(self.image),
            cloned(self.tensor, handle.tensor),
            handle.direction == self.direction,
            handle.upload == self.upload,
    {
        ExtractedGpuHandle {
            image: self.image.clone(),
            tensor: self.tensor.clone(),
            direction: self.direction,
            upload: self.upload,
        }
    }
}

/// Copies a handle for the render world, if its contents are carried over in device memory.
pub fn extract_gpu_handle<T: Clone>(handle: &BevyBurnHandle<T>) -> (extracted: Option<
    ExtractedGpuHandle<T>,
>)
    ensures
        extracted is Some <==> handle.xfer == TransferKind::Gpu,
        extracted matches Some(extracted) ==> {
            &&& handle_key(extracted.image) == handle_key(handle.bevy_image)
            &&& cloned(handle.tensor, extracted.tensor)
            &&& extracted.direction == handle.direction
            &&& extracted.upload == handle.upload
        },
{
    if handle.xfer != TransferKind::Gpu {
        return None;
    }
    Some(
        ExtractedGpuHandle {
            image: handle.bevy_image.clone(),
            tensor: handle.tensor.clone(),
            direction: handle.direction,
            upload: handle.upload,
        },
    )
}

// ---------- from texture to tensor ----------

/// The alignment of rows in a buffer that a texture is copied to.
pub const ROW_ALIGNMENT: u32 = 256;

/// The bytes per pixel of the textures that are read.
pub const BYTES_PER_PIXEL: u32 = 4;

/// The smallest multiple of the alignment that holds a row of this many bytes.
pub open spec fn padded_row(row_bytes: int) -> int {
    (row_bytes + 255) / 256 * 256
}

/// The number of bytes that a row of pixels takes in a buffer that a texture is copied to.
pub fn padded_bytes_per_row(width: u32, bytes_per_pixel: u32) -> (padded: u32)
    requires
        padded_row(width * bytes_per_pixel) <= u32::MAX,
    ensures
        padded == padded_row(width * bytes_per_pixel),
        padded % 256 == 0,
        width * bytes_per_pixel <= padded < width * bytes_per_pixel + 256,
{
    assert(width * bytes_per_pixel >= 0) by (nonlinear_arith);
    let row: u32 = width * bytes_per_pixel;
    let mut blocks: u32 = row / ROW_ALIGNMENT;
    if row % ROW_ALIGNMENT != 0 {
        blocks = blocks + 1;
    }
    blocks * ROW_ALIGNMENT
}

/// How a texture is laid out in the staging buffer that it is read through.
#[derive(Clone, Copy, Debug, PartialEq, Eq, Structural)]
pub struct Readback {
    /// The size of the texture.
    pub extent: Extent,
    /// The bytes of a row of pixels.
    pub row_bytes: u32,
    /// The bytes from the start of a row to the start of the next.
    pub padded_row: u32,
    /// The bytes of the buffer.
    pub total: u64,
}

impl Readback {
    /// The layout for a texture of this size.
    pub open spec fn lays_out(self, extent: Extent) -> bool {
        &&& self.extent == extent
        &&& self.row_bytes == extent.width * 4
        &&& self.padded_row == padded_row(extent.width * 4)
        &&& self.total == self.padded_row * extent.height
    }

    /// The number of bytes from the start of the buffer to the end of the last row of pixels.
    pub open spec fn used(self) -> int {
        if self.extent.height == 0 {
            0
        } else {
            (self.extent.height - 1) * self.padded_row + self.row_bytes
        }
    }
}

/// Lays out the staging buffer for a handle that asks to read a texture, given the size of the
/// texture if it is on the device.
pub fn plan_readback<T>(handle: &ExtractedGpuHandle<T>, texture: Option<Extent>) -> (plan: Option<
    Readback,
>)
    requires
        handle.due(BindingDirection::BevyToBurn) && texture is Some ==> padded_row(
            texture->0.width * 4,
        ) <= u32::MAX,
    ensures
        plan is Some <==> handle.due(BindingDirection::BevyToBurn) && texture is Some,
        plan matches Some(plan) ==> plan.lays_out(texture->0),
        plan is Some <==> handle.upload && handle.direction == BindingDirection::BevyToBurn
            && texture is Some,
        plan matches Some(plan) ==> {
            &&& plan.extent == texture->0
            &&& plan.row_bytes == 4 * plan.extent.width
            &&& plan.padded_row % 256 == 0
            &&& plan.row_bytes <= plan.padded_row < plan.row_bytes + 256
            &&& plan.total == plan.padded_row * plan.extent.height
        },
{
    if !handle.is_due(BindingDirection::BevyToBurn) {
        return None;
    }
    let extent = match texture {
        Some(extent) => extent,
        None => return None,
    };
    let row_bytes: u32 = extent.width * BYTES_PER_PIXEL;
    let padded_row: u32 = padded_bytes_per_row(extent.width, BYTES_PER_PIXEL);
    assert(0 <= padded_row * extent.height <= 0xFFFF_FFFF * 0xFFFF_FFFF) by (nonlinear_arith)
        requires
            padded_row <= 0xFFFF_FFFF,
            extent.height <= 0xFFFF_FFFF,
    ;
    let total: u64 = padded_row as u64 * extent.height as u64;
    Some(Readback { extent, row_bytes, padded_row, total })
}

/// The rows without what follows them up to the next row.
pub open spec fn stripped(buffer: Seq<u8>, row_bytes: int, padded_row: int, rows: int) -> Seq<u8> {
    Seq::new(
        (rows * row_bytes) as nat,
        |i: int| buffer[i / row_bytes * padded_row + i % row_bytes],
    )
}

/// One more row is one more piece of the buffer.
proof fn lemma_stripped_next(buffer: Seq<u8>, row_bytes: int, padded_row: int, row: int)
    requires
        0 <= row,
        0 <= row_bytes <= padded_row,
        row * padded_row + row_bytes <= buffer.len(),
    ensures
        stripped(buffer, row_bytes, padded_row, row + 1) == stripped(
            buffer,
            row_bytes,
            padded_row,
            row,
        ) + buffer.subrange(row * padded_row, row * padded_row + row_bytes),
{
    assert((row + 1) * row_bytes == row * row_bytes + row_bytes) by (nonlinear_arith);
    assert(0 <= row * row_bytes && 0 <= row * padded_row) by (nonlinear_arith)
        requires
            0 <= row,
            0 <= row_bytes <= padded_row,
    ;
    let next = stripped(buffer, row_bytes, padded_row, row + 1);
    let parts = stripped(buffer, row_bytes, padded_row, row) + buffer.subrange(
        row * padded_row,
        row * padded_row + row_bytes,
    );
    assert forall|i: int| row * row_bytes <= i < next.len() implies next[i] == parts[i] by {
        vstd::arithmetic::div_mod::lemma_fundamental_div_mod_converse(
            i,
            row_bytes,
            row,
            i - row * row_bytes,
        );
    }
    assert(next =~= parts);
}

/// Takes the rows of a buffer without what follows them up to the next row.
pub fn strip_row_padding(buffer: &[u8], row_bytes: u32, padded_row: u32, rows: u32) -> (compact: Vec<
    u8,
>)
    requires
        row_bytes <= padded_row,
        rows > 0 ==> (rows - 1) * padded_row + row_bytes <= buffer@.len(),
    ensures
        compact@ == stripped(buffer@, row_bytes as int, padded_row as int, rows as int),
        compact@.len() == rows * row_bytes,
        forall|row: int, column: int|
            0 <= row < rows && 0 <= column < row_bytes ==> #[trigger] byte_at(
                compact@,
                row_bytes as int,
                row,
                column,
            ) == buffer@[row * padded_row + column],
{
    let len: usize = buffer.len();
    let mut compact: Vec<u8> = Vec::new();
    assert(compact@ =~= stripped(buffer@, row_bytes as int, padded_row as int, 0));
    for row in 0..rows
        invariant
            row_bytes <= padded_row,
            rows > 0 ==> (rows - 1) * padded_row + row_bytes <= buffer@.len(),
            buffer@.len() == len,
            compact@ == stripped(buffer@, row_bytes as int, padded_row as int, row as int),
    {
        assert(0 <= row * padded_row <= (rows - 1) * padded_row) by (nonlinear_arith)
            requires
                0 <= row <= rows - 1,
                0 <= padded_row,
        ;
        let start: usize = row as usize * padded_row as usize;
        let end: usize = start + row_bytes as usize;
        compact.extend_from_slice(slice_subrange(buffer, start, end));
        proof {
            lemma_stripped_next(buffer@, row_bytes as int, padded_row as int, row as int);
        }
    }
    proof {
        law_stripping_keeps_rows(buffer@, row_bytes as int, padded_row as int, rows as int);
    }
    compact
}

/// Takes the pixels out of the staging buffer that a texture was read through.
pub fn finish_readback(plan: &Readback, buffer: &[u8]) -> (pixels: PixelTensor)
    requires
        plan.lays_out(plan.extent),
        plan.used() <= buffer@.len(),
    ensures
        pixels.carries(
            stripped(
                buffer@,
                plan.row_bytes as int,
                plan.padded_row as int,
                plan.extent.height as int,
            ),
            plan.extent.width,
            plan.extent.height,
        ),
        pixels.dims@ == seq![plan.extent.height as usize, plan.extent.width as usize, 4usize],
        tensor_model(pixels.data).bytes.len() == plan.extent.height * (plan.extent.width * 4),
        forall|row: int, column: int|
            0 <= row < plan.extent.height && 0 <= column < plan.row_bytes ==> #[trigger] byte_at(
                tensor_model(pixels.data).bytes,
                plan.row_bytes as int,
                row,
                column,
            ) == buffer@[row * plan.padded_row + column],
{
    let compact = strip_row_padding(buffer, plan.row_bytes, plan.padded_row, plan.extent.height);
    pixel_tensor(compact.as_slice(), plan.extent.width, plan.extent.height)
}

// ---------- from tensor to texture ----------

/// The size of the texture to write for a handle that asks for it, given the size of the texture if
/// it is on the device.
pub fn queue_copy<T>(handle: &ExtractedGpuHandle<T>, texture: Option<Extent>) -> (extent: Option<
    Extent,
>)
    ensures
        extent == if handle.due(BindingDirection::BurnToBevy) {
            texture
        } else {
            None
        },
        extent is Some <==> handle.upload && handle.direction == BindingDirection::BurnToBevy
            && texture is Some,
        extent is Some ==> extent == texture,
{
    if !handle.is_due(BindingDirection::BurnToBevy) {
        return None;
    }
    texture
}

/// The number of pixels along each side of the square that a workgroup writes.
pub const WORKGROUP_SIDE: u32 = 16;

/// The alignment of a storage buffer within the memory that it is bound from.
pub const STORAGE_ALIGNMENT: u64 = 256;

/// The number of workgroups along an axis on which the tensor and the texture have these extents.
pub open spec fn workgroups_along(tensor: usize, texture: u32) -> int {
    (copied_along(tensor, texture) + 15) / 16
}

/// The number of pixels that are copied along an axis on which the tensor and the texture have
/// these extents.
pub open spec fn copied_along(tensor: usize, texture: u32) -> int {
    if low_word(tensor) <= texture {
        low_word(tensor) as int
    } else {
        texture as int
    }
}

/// Whether a tensor of these extents can be copied into a texture: it has four channels.
pub fn copy_supported(dims: [usize; 3]) -> (supported: bool)
    ensures
        supported == (dims[2] == 4),
{
    dims[2] == 4
}

/// Whether this many workgroups are what it takes along an axis: every pixel that lies both in the
/// tensor and in the texture lies in one of them, and each of them has such a pixel.
pub open spec fn covers(workgroups: u32, tensor: usize, texture: u32) -> bool {
    &&& forall|pixel: int|
        0 <= pixel < tensor && pixel < texture ==> #[trigger] (pixel / 16) < workgroups
    &&& forall|group: int|
        0 <= group < workgroups ==> #[trigger] (group * 16) < tensor && group * 16 < texture
}

/// Counts the workgroups along an axis.
fn count_workgroups(tensor: usize, texture: u32) -> (count: u32)
    requires
        copied_along(tensor, texture) + 15 <= u32::MAX,
    ensures
        count == workgroups_along(tensor, texture),
{
    let extent: u32 = take_low_word(tensor);
    let copied: u32 = if extent <= texture {
        extent
    } else {
        texture
    };
    (copied + (WORKGROUP_SIDE - 1)) / WORKGROUP_SIDE
}

/// The workgroups that copy a tensor of these extents (height, width, channels), which starts at
/// this byte of its memory, into a texture; nothing where the tensor does not have four channels or
/// where a storage buffer cannot start at that byte.
pub fn prepare_copy(dims: [usize; 3], offset: u64, texture: Extent) -> (workgroups: Option<
    [u32; 3],
>)
    requires
        dims[2] == 4 && offset % 256 == 0 ==> {
            &&& copied_along(dims[1], texture.width) + 15 <= u32::MAX
            &&& copied_along(dims[0], texture.height) + 15 <= u32::MAX
        },
    ensures
        workgroups is Some <==> dims[2] == 4 && offset % 256 == 0,
        workgroups matches Some(workgroups) ==> {
            &&& workgroups[0] == workgroups_along(dims[1], texture.width)
            &&& workgroups[1] == workgroups_along(dims[0], texture.height)
            &&& workgroups[2] == 1
            &&& dims[1] <= u32::MAX ==> covers(workgroups[0], dims[1], texture.width)
            &&& dims[0] <= u32::MAX ==> covers(workgroups[1], dims[0], texture.height)
        },
{
    if !copy_supported(dims) {
        return None;
    }
    if offset % STORAGE_ALIGNMENT != 0 {
        return None;
    }
    let across: u32 = count_workgroups(dims[1], texture.width);
    let down: u32 = count_workgroups(dims[0], texture.height);
    proof {
        if dims[1] <= u32::MAX {
            law_workgroups_reach_every_pixel(dims[1], texture.width);
        }
        if dims[0] <= u32::MAX {
            law_workgroups_reach_every_pixel(dims[0], texture.height);
        }
    }
    Some([across, down, 1])
}

// ---------- laws ----------

/// A padded row is aligned, holds the row, and is the shortest that does.
pub proof fn law_padded_row_is_tight(row_bytes: int, other: int)
    requires
        0 <= row_bytes,
    ensures
        padded_row(row_bytes) % ROW_ALIGNMENT as int == 0,
        row_bytes <= padded_row(row_bytes) < row_bytes + ROW_ALIGNMENT,
        other % ROW_ALIGNMENT as int == 0 && row_bytes <= other ==> padded_row(row_bytes) <= other,
        padded_row(padded_row(row_bytes)) == padded_row(row_bytes),
{
}

/// Padding a row: the rows of a copy start 256 bytes apart or a multiple of that, hold a row of
/// pixels, and waste less than 256 bytes.
pub proof fn law_rows_are_aligned(row_bytes: int)
    requires
        0 <= row_bytes,
    ensures
        padded_row(row_bytes) % 256 == 0,
        row_bytes <= padded_row(row_bytes) < row_bytes + 256,
{
}

/// Every plan has rows that a texture can be copied to: four bytes for each pixel, starts that are
/// aligned to 256 bytes, no more than that wasted, and room for all of them.
pub proof fn law_plan_is_copyable(plan: Readback, extent: Extent)
    requires
        plan.lays_out(extent),
    ensures
        plan.extent == extent,
        plan.row_bytes == 4 * extent.width,
        plan.padded_row % 256 == 0,
        plan.row_bytes <= plan.padded_row < plan.row_bytes + 256,
        plan.total == plan.padded_row * extent.height,
        extent.height > 0 ==> plan.used() == plan.padded_row * (extent.height - 1)
            + plan.row_bytes,
        extent.height == 0 ==> plan.used() == 0,
{
    assert(extent.height > 0 ==> plan.padded_row * (extent.height - 1) == (extent.height - 1)
        * plan.padded_row) by (nonlinear_arith);
}

/// Stripping keeps every row: what lies in a column of a row lies there afterwards, with nothing
/// between the rows.
pub proof fn law_stripping_keeps_rows(buffer: Seq<u8>, row_bytes: int, padded_row: int, rows: int)
    requires
        0 <= row_bytes <= padded_row,
        0 <= rows,
    ensures
        stripped(buffer, row_bytes, padded_row, rows).len() == rows * row_bytes,
        forall|row: int, column: int|
            0 <= row < rows && 0 <= column < row_bytes ==> #[trigger] byte_at(
                stripped(buffer, row_bytes, padded_row, rows),
                row_bytes,
                row,
                column,
            ) == buffer[row * padded_row + column],
{
    assert(0 <= rows * row_bytes) by (nonlinear_arith)
        requires
            0 <= rows,
            0 <= row_bytes,
    ;
    assert forall|row: int, column: int|
        0 <= row < rows && 0 <= column < row_bytes implies #[trigger] byte_at(
        stripped(buffer, row_bytes, padded_row, rows),
        row_bytes,
        row,
        column,
    ) == buffer[row * padded_row + column] by {
        let i = row * row_bytes + column;
        assert(0 <= i < rows * row_bytes) by (nonlinear_arith)
            requires
                0 <= row <= rows - 1,
                0 <= column < row_bytes,
                i == row * row_bytes + column,
        ;
        vstd::arithmetic::div_mod::lemma_fundamental_div_mod_converse(i, row_bytes, row, column);
    }
}

/// The workgroups reach every pixel that the tensor and the texture have in common, and no workgroup
/// is without one.
pub proof fn law_workgroups_reach_every_pixel(tensor: usize, texture: u32)
    requires
        tensor <= u32::MAX,
    ensures
        forall|pixel: int|
            0 <= pixel < tensor && pixel < texture ==> 0 <= #[trigger] (pixel / 16)
                < workgroups_along(tensor, texture),
        forall|group: int|
            0 <= group < workgroups_along(tensor, texture) ==> #[trigger] (group * 16) < tensor
                && group * 16 < texture,
{
}

/// Of an extent of the tensor, the low 32 bits count.
pub proof fn law_workgroups_go_by_low_bits(tensor: usize, texture: u32)
    ensures
        workgroups_along(tensor, texture) == workgroups_along(
            (tensor as int % 0x1_0000_0000) as usize,
            texture,
        ),
{
}

/// The byte in a column of a row, where rows start at multiples of the stride.
pub open spec fn byte_at(bytes: Seq<u8>, stride: int, row: int, column: int) -> u8 {
    bytes[row * stride + column]
}

/// Stripping undoes padding: from a buffer that holds the rows at the start of each padded row,
/// whatever lies between them, stripping gives the rows back to back.
pub proof fn law_stripping_undoes_padding(
    buffer: Seq<u8>,
    pixels: Seq<u8>,
    row_bytes: int,
    padded_row: int,
    rows: int,
)
    requires
        0 <= row_bytes <= padded_row,
        0 <= rows,
        pixels.len() == rows * row_bytes,
        forall|row: int, column: int|
            0 <= row < rows && 0 <= column < row_bytes ==> #[trigger] byte_at(
                buffer,
                padded_row,
                row,
                column,
            ) == byte_at(pixels, row_bytes, row, column),
    ensures
        stripped(buffer, row_bytes, padded_row, rows) == pixels,
{
    let strip = stripped(buffer, row_bytes, padded_row, rows);
    assert forall|i: int| 0 <= i < pixels.len() implies strip[i] == pixels[i] by {
        assert(row_bytes > 0) by (nonlinear_arith)
            requires
                0 <= i < rows * row_bytes,
                0 <= rows,
                0 <= row_bytes,
        ;
        let row = i / row_bytes;
        let column = i % row_bytes;
        vstd::arithmetic::div_mod::lemma_fundamental_div_mod(i, row_bytes);
        vstd::arithmetic::div_mod::lemma_div_pos_is_pos(i, row_bytes);
        assert(row_bytes * rows == rows * row_bytes) by (nonlinear_arith);
        vstd::arithmetic::div_mod::lemma_multiply_divide_lt(i, row_bytes, rows);
        assert(row_bytes * row == row * row_bytes) by (nonlinear_arith);
        assert(byte_at(buffer, padded_row, row, column) == byte_at(pixels, row_bytes, row, column));
    }
    assert(strip =~= pixels);
}

/// The buffer that is planned for a texture holds all of its rows, and the pixels taken out of it
/// fill the extents that their tensor takes: four bytes for each pixel.
pub proof fn law_readback_fits(plan: Readback, buffer: Seq<u8>)
    requires
        plan.lays_out(plan.extent),
    ensures
        plan.used() <= plan.total,
        stripped(
            buffer,
            plan.row_bytes as int,
            plan.padded_row as int,
            plan.extent.height as int,
        ).len() == plan.extent.width * plan.extent.height * 4,
{
    let width = plan.extent.width as int;
    let height = plan.extent.height as int;
    let padded = plan.padded_row as int;
    assert(height > 0 ==> (height - 1) * padded + padded == padded * height) by (nonlinear_arith);
    assert(height * (width * 4) == width * height * 4) by (nonlinear_arith);
    assert(0 <= width * height) by (nonlinear_arith)
        requires
            0 <= width,
            0 <= height,
    ;
    assert(0 <= padded * height) by (nonlinear_arith)
        requires
            0 <= padded,
            0 <= height,
    ;
}

/// The workgroups cover what is copied: every pixel lies in exactly one of them, and none of them is
/// without a pixel.
pub proof fn law_workgroups_cover_copy(tensor: usize, texture: u32)
    ensures
        forall|pixel: int|
            0 <= pixel < copied_along(tensor, texture) ==> 0 <= #[trigger] (pixel
                / WORKGROUP_SIDE as int) < workgroups_along(tensor, texture),
        forall|group: int|
            0 <= group < workgroups_along(tensor, texture) ==> #[trigger] (group
                * WORKGROUP_SIDE) < copied_along(tensor, texture),
        copied_along(tensor, texture) <= texture,
{
}

/// A handle is carried over in host memory or in device memory, never in both: what is extracted for
/// the render world asks for no transfer in host memory, and asks there for what the handle asked.
pub proof fn law_extracted_is_not_due_on_cpu<T>(
    handle: BevyBurnHandle<T>,
    extracted: ExtractedGpuHandle<T>,
    direction: BindingDirection,
)
    requires
        handle.xfer == TransferKind::Gpu,
        extracted.direction == handle.direction,
        extracted.upload == handle.upload,
    ensures
        !handle.due(direction, TransferKind::Cpu),
        extracted.due(direction) <==> handle.due(direction, TransferKind::Gpu),
{
}

} // verus!
