//! Handles that tie an image to a tensor.

use bevy::asset::UntypedHandle;
use burn_tensor::TensorData;
use vstd::prelude::*;

use crate::images::{default_image_handle, handle_key, ImageKey, DEFAULT_UUID};
use crate::tensor::{float_tensor, tensor_model, ElementType, Storage};

verus! {

/// The way the contents go.
#[derive(Clone, Copy, Debug, PartialEq, Eq, Structural)]
pub enum BindingDirection {
    /// The tensor is written into the image.
    BurnToBevy,
    /// The image is read into the tensor.
    BevyToBurn,
}

/// Where the contents are carried over.
#[derive(Clone, Copy, Debug, PartialEq, Eq, Structural)]
pub enum TransferKind {
    /// In host memory.
    Cpu,
    /// In device memory.
    Gpu,
}

/// An image and a tensor whose contents are to agree. The tensor is of whatever type the
/// application computes with.
pub struct BevyBurnHandle<T> {
    /// The image.
    pub bevy_image: UntypedHandle,
    /// The tensor, of extents height, width and channels.
    pub tensor: T,
    /// Whether a transfer is asked for.
    pub upload: bool,
    /// The way the contents go.
    pub direction: BindingDirection,
    /// Where the contents are carried over.
    pub xfer: TransferKind,
}

impl<T> BevyBurnHandle<T> {
    /// Whether the handle asks for a transfer of this kind.
    pub open spec fn due(self, direction: BindingDirection, xfer: TransferKind) -> bool {
        self.upload && self.takes_part(direction, xfer)
    }

    /// Whether transfers of this kind concern the handle, asked for or not.
    pub open spec fn takes_part(self, direction: BindingDirection, xfer: TransferKind) -> bool {
        self.direction == direction && self.xfer == xfer
    }

    /// Whether the handle asks for a transfer of this kind.
    pub fn is_due(&self, direction: BindingDirection, xfer: TransferKind) -> (due: bool)
        ensures
            due == self.due(direction, xfer),
            due <==> self.upload && self.direction == direction && self.xfer == xfer,
    {
        self.direction == direction && self.xfer == xfer && self.upload
    }

    /// A handle around the tensor that asks for its contents to be written, in host memory, into an
    /// image that is yet to be made.
    pub fn around(tensor: T) -> (handle: Self)
        ensures
            handle_key(handle.bevy_image) == ImageKey::Uuid(DEFAULT_UUID),
            handle.tensor == tensor,
            handle.upload,
            handle.direction == BindingDirection::BurnToBevy,
            handle.xfer == TransferKind::Cpu,
    {
        BevyBurnHandle {
            bevy_image: default_image_handle(),
            tensor,
            upload: true,
            direction: BindingDirection::BurnToBevy,
            xfer: TransferKind::Cpu,
        }
    }

    /// Takes the tensor that was read from the image; the transfer is done.
    pub fn receive(&mut self, tensor: T)
        ensures
            *final(self) == (BevyBurnHandle { tensor, upload: false, ..*old(self) }),
    {
        self.tensor = tensor;
        self.upload = false;
    }
}

impl<T: Clone> Clone for BevyBurnHandle<T> {
    /// A handle on the same image, with a clone of the tensor.
    fn clone(&self) -> (handle: Self)
        ensures
            handle_key(handle.bevy_image) == handle_key(self.bevy_image),
            cloned(self.tensor, handle.tensor),
            handle.upload == self.upload,
            handle.direction == self.direction,
            handle.xfer == self.xfer,
    {
        BevyBurnHandle {
            bevy_image: self.bevy_image.clone(),
            tensor: self.tensor.clone(),
            upload: self.upload,
            direction: self.direction,
            xfer: self.xfer,
        }
    }
}

impl Default for BevyBurnHandle<TensorData> {
    /// A handle around a tensor of extents zero.
    fn default() -> (handle: Self)
        ensures
            handle_key(handle.bevy_image) == ImageKey::Uuid(DEFAULT_UUID),
            tensor_model(handle.tensor).element == ElementType::Float32,
            tensor_model(handle.tensor).shape == seq![0usize, 0usize, 0usize],
            tensor_model(handle.tensor).storage == Storage::Native,
            tensor_model(handle.tensor).bytes == Seq::<u8>::empty(),
            tensor_model(handle.tensor).words == Some(Seq::<u32>::empty()),
            handle.upload,
            handle.direction == BindingDirection::BurnToBevy,
            handle.xfer == TransferKind::Cpu,
    {
        let handle = BevyBurnHandle::around(float_tensor(Vec::new(), [0, 0, 0]));
        assert(tensor_model(handle.tensor).words->0 =~= Seq::<u32>::empty());
        assert(tensor_model(handle.tensor).shape =~= seq![0usize, 0usize, 0usize]);
        handle
    }
}

/// A transfer is due exactly where it is asked for and goes the handle's way, in the handle's memory.
pub proof fn law_due_is_what_is_asked_for<T>(
    handle: BevyBurnHandle<T>,
    direction: BindingDirection,
    xfer: TransferKind,
)
    ensures
        handle.due(direction, xfer) ==> handle.upload && handle.direction == direction
            && handle.xfer == xfer,
        handle.upload ==> handle.due(handle.direction, handle.xfer),
        handle.takes_part(direction, xfer) <==> (BevyBurnHandle { upload: true, ..handle }).due(
            direction,
            xfer,
        ),
{
}

/// A handle that asks for a transfer asks for exactly one of the four kinds.
pub proof fn law_one_transfer_is_due<T>(handle: BevyBurnHandle<T>)
    ensures
        handle.upload ==> exists|direction: BindingDirection, xfer: TransferKind|
            handle.due(direction, xfer),
        forall|d1: BindingDirection, x1: TransferKind, d2: BindingDirection, x2: TransferKind|
            handle.due(d1, x1) && handle.due(d2, x2) ==> d1 == d2 && x1 == x2,
        !handle.upload ==> forall|direction: BindingDirection, xfer: TransferKind|
            !handle.due(direction, xfer),
{
    if handle.upload {
        assert(handle.due(handle.direction, handle.xfer));
    }
}

} // verus!
