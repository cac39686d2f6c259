//! The Burn device that the bridge computes on.

use cubecl_wgpu::WgpuDevice;
use vstd::prelude::*;

verus! {

/// `cubecl_wgpu::WgpuDevice`, which Burn's wgpu backend re-exports. The bridge only carries it.
#[verifier::external_type_specification]
#[verifier::external_body]
pub struct ExWgpuDevice(WgpuDevice);

/// `<WgpuDevice as Clone>::clone`, which the enum derives: the clone is the same device.
pub assume_specification[ <WgpuDevice as Clone>::clone ](device: &WgpuDevice) -> (clone: WgpuDevice)
    ensures
        clone == *device,
;

/// The device on which tensors live, once the renderer has set it up.
#[derive(Debug)]
pub struct BurnDevice {
    inner: Option<WgpuDevice>,
}

impl View for BurnDevice {
    type V = Option<WgpuDevice>;

    /// The device, if it is ready.
    closed spec fn view(&self) -> Option<WgpuDevice> {
        self.inner
    }
}

impl BurnDevice {
    /// A device that is not set up yet.
    pub fn pending() -> (device: Self)
        ensures
            device@ == None::<WgpuDevice>,
    {
        Self { inner: None }
    }

    /// A device that is set up.
    pub fn ready(device: WgpuDevice) -> (burn_device: Self)
        ensures
            burn_device@ == Some(device),
    {
        Self { inner: Some(device) }
    }

    /// The device, or nothing while it is pending.
    pub fn device(&self) -> (device: Option<&WgpuDevice>)
        ensures
            match device {
                Some(device) => self@ == Some(*device),
                None => self@ == None::<WgpuDevice>,
            },
    {
        self.inner.as_ref()
    }

    /// The device to be changed in place, or nothing while it is pending.
    pub fn device_mut(&mut self) -> (device: Option<&mut WgpuDevice>)
        ensures
            match device {
                Some(device) => old(self)@ == Some(*device) && final(self)@ == Some(*final(device)),
                None => old(self)@ == None::<WgpuDevice> && final(self)@ == None::<WgpuDevice>,
            },
    {
        match &mut self.inner {
            Some(device) => Some(device),
            None => None,
        }
    }

    /// Whether the device is set up.
    pub fn is_ready(&self) -> (is_ready: bool)
        ensures
            is_ready == (self@ is Some),
    {
        self.inner.is_some()
    }
}

impl Clone for BurnDevice {
    fn clone(&self) -> (device: Self)
        ensures
            device@ == self@,
    {
        match &self.inner {
            Some(device) => Self::ready(device.clone()),
            None => Self::pending(),
        }
    }
}

impl Default for BurnDevice {
    /// The pending device.
    fn default() -> (device: Self)
        ensures
            device@ == None::<WgpuDevice>,
    {
        Self::pending()
    }
}

impl From<WgpuDevice> for BurnDevice {
    /// The ready device.
    fn from(value: WgpuDevice) -> (device: Self)
        ensures
            device@ == Some(value),
    {
        Self::ready(value)
    }
}

impl vstd::std_specs::convert::FromSpecImpl<WgpuDevice> for BurnDevice {
    open spec fn obeys_from_spec() -> bool {
        true
    }

    closed spec fn from_spec(value: WgpuDevice) -> Self {
        BurnDevice { inner: Some(value) }
    }
}

} // verus!
