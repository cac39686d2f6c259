use bevy::asset::Handle;
use bevy::image::Image;
use bevy_burn::device::BurnDevice;
use bevy_burn::gpu::{
    copy_supported, extract_gpu_handle, finish_readback, padded_bytes_per_row, plan_readback,
    prepare_copy, queue_copy, strip_row_padding, Extent, ExtractedGpuHandle,
};
use bevy_burn::handle::{BevyBurnHandle, BindingDirection, TransferKind};
use cubecl_wgpu::WgpuDevice;

fn extracted(direction: BindingDirection, upload: bool) -> ExtractedGpuHandle<u32> {
    ExtractedGpuHandle {
        image: Handle::<Image>::default().untyped(),
        tensor: 7,
        direction,
        upload,
    }
}

#[test]
fn padded_rows() {
    assert_eq!(padded_bytes_per_row(0, 4), 0);
    assert_eq!(padded_bytes_per_row(1, 4), 256);
    assert_eq!(padded_bytes_per_row(1, 16), 256);
    assert_eq!(padded_bytes_per_row(64, 4), 256);
    assert_eq!(padded_bytes_per_row(65, 4), 512);
    assert_eq!(padded_bytes_per_row(19, 16), 512);
    assert_eq!(padded_bytes_per_row(1024, 4), 4096);
    assert_eq!(padded_bytes_per_row(0x3FFF_FFC0, 4), 0xFFFF_FF00);
}

#[test]
fn padded_rows_are_tight() {
    for width in 0..2000u32 {
        let padded = padded_bytes_per_row(width, 4);
        assert_eq!(padded % 256, 0);
        assert!(width * 4 <= padded && padded < width * 4 + 256);
        assert_eq!(padded_bytes_per_row(padded, 1), padded);
    }
}

#[test]
fn readback_is_planned_for_due_textures() {
    let extent = Extent { width: 65, height: 3 };
    let plan = plan_readback(&extracted(BindingDirection::BevyToBurn, true), Some(extent)).unwrap();
    assert_eq!(plan.extent, extent);
    assert_eq!(plan.row_bytes, 260);
    assert_eq!(plan.padded_row, 512);
    assert_eq!(plan.total, 1536);
    assert!(plan_readback(&extracted(BindingDirection::BevyToBurn, true), None).is_none());
    assert!(plan_readback(&extracted(BindingDirection::BevyToBurn, false), Some(extent)).is_none());
    assert!(plan_readback(&extracted(BindingDirection::BurnToBevy, true), Some(extent)).is_none());
}

#[test]
fn textures_that_are_not_due_can_be_of_any_size() {
    let vast = Extent { width: u32::MAX, height: u32::MAX };
    assert!(plan_readback(&extracted(BindingDirection::BevyToBurn, false), Some(vast)).is_none());
    assert!(plan_readback(&extracted(BindingDirection::BurnToBevy, true), Some(vast)).is_none());
}

#[test]
fn total_of_a_large_texture_needs_64_bits() {
    let extent = Extent { width: 0x1_0000, height: 0x1_0000 };
    let plan = plan_readback(&extracted(BindingDirection::BevyToBurn, true), Some(extent)).unwrap();
    assert_eq!(plan.total, 0x4_0000_0000);
}

#[test]
fn stripping_undoes_padding() {
    let row: usize = 12;
    let padded: usize = 256;
    let rows: usize = 5;
    let pixels: Vec<u8> = (0..row * rows).map(|i| i as u8).collect();
    let mut buffer = vec![0xEE; padded * rows];
    for y in 0..rows {
        buffer[y * padded..y * padded + row].copy_from_slice(&pixels[y * row..(y + 1) * row]);
    }
    assert_eq!(strip_row_padding(&buffer, 12, 256, 5), pixels);
    let used = (rows - 1) * padded + row;
    assert_eq!(strip_row_padding(&buffer[..used], 12, 256, 5), pixels);
    assert_eq!(strip_row_padding(&buffer, 12, 256, 0), Vec::<u8>::new());
    assert_eq!(strip_row_padding(&[], 0, 0, 9), Vec::<u8>::new());
}

#[test]
fn readback_of_one_pixel() {
    let mut handle = extracted(BindingDirection::BevyToBurn, true);
    let extent = Extent { width: 1, height: 1 };
    let plan = plan_readback(&handle, Some(extent)).unwrap();
    let mut buffer = vec![0u8; plan.total as usize];
    buffer[..4].copy_from_slice(&[255, 128, 0, 255]);
    let pixels = finish_readback(&plan, &buffer);
    assert_eq!(pixels.dims, [1, 1, 4]);
    assert_eq!(pixels.data.to_vec::<u8>().unwrap(), vec![255, 128, 0, 255]);
    handle.receive(8);
    assert_eq!(handle.tensor, 8);
    assert!(!handle.upload, "texture readback flag not cleared");
    assert!(plan_readback(&handle, Some(extent)).is_none());
}

#[test]
fn readback_fills_its_extents() {
    let handle = extracted(BindingDirection::BevyToBurn, true);
    let plan = plan_readback(&handle, Some(Extent { width: 19, height: 7 })).unwrap();
    let buffer = vec![1u8; plan.total as usize];
    let pixels = finish_readback(&plan, &buffer);
    assert_eq!(pixels.dims, [7, 19, 4]);
    assert_eq!(pixels.data.num_elements(), 7 * 19 * 4);
}

#[test]
fn copies_are_queued_for_due_textures() {
    let extent = Extent { width: 19, height: 7 };
    assert_eq!(
        queue_copy(&extracted(BindingDirection::BurnToBevy, true), Some(extent)),
        Some(extent)
    );
    assert_eq!(queue_copy(&extracted(BindingDirection::BurnToBevy, true), None), None);
    assert_eq!(queue_copy(&extracted(BindingDirection::BurnToBevy, false), Some(extent)), None);
    assert_eq!(queue_copy(&extracted(BindingDirection::BevyToBurn, true), Some(extent)), None);
}

#[test]
fn workgroups_cover_the_copy() {
    let extent = Extent { width: 1, height: 1 };
    assert_eq!(prepare_copy([1, 1, 4], 0, extent), Some([1, 1, 1]));
    let extent = Extent { width: 19, height: 7 };
    assert_eq!(prepare_copy([7, 19, 4], 0, extent), Some([2, 1, 1]));
    assert_eq!(prepare_copy([7, 19, 4], 512, extent), Some([2, 1, 1]));
    let extent = Extent { width: 1024, height: 768 };
    assert_eq!(prepare_copy([4000, 33, 4], 0, extent), Some([3, 48, 1]));
    assert_eq!(prepare_copy([0, 16, 4], 0, extent), Some([1, 0, 1]));
}

#[test]
fn copies_are_refused() {
    let extent = Extent { width: 16, height: 16 };
    assert!(copy_supported([16, 16, 4]));
    assert!(!copy_supported([16, 16, 3]));
    assert_eq!(prepare_copy([16, 16, 3], 0, extent), None);
    assert_eq!(prepare_copy([16, 16, 4], 128, extent), None);
    assert_eq!(prepare_copy([16, 16, 4], 255, extent), None);

    let vast = Extent { width: u32::MAX, height: u32::MAX };
    let side = u32::MAX as usize;
    assert_eq!(prepare_copy([side, side, 3], 0, vast), None);
    assert_eq!(prepare_copy([side, side, 4], 1, vast), None);
}

#[test]
fn extraction_copies_device_handles() {
    let mut handle = BevyBurnHandle::around(vec![1u8, 2, 3]);
    assert!(extract_gpu_handle(&handle).is_none());
    handle.xfer = TransferKind::Gpu;
    let copy = extract_gpu_handle(&handle).unwrap();
    assert_eq!(copy.image.id(), handle.bevy_image.id());
    assert_eq!(copy.tensor, vec![1, 2, 3]);
    assert_eq!(copy.direction, BindingDirection::BurnToBevy);
    assert!(copy.upload);
    assert!(copy.is_due(BindingDirection::BurnToBevy));
    let again = copy.clone();
    assert_eq!(again.image.id(), copy.image.id());
    assert_eq!(again.tensor, copy.tensor);
    assert_eq!(again.direction, copy.direction);
    assert_eq!(again.upload, copy.upload);
    assert!(!handle.is_due(BindingDirection::BurnToBevy, TransferKind::Cpu));
    assert!(handle.is_due(BindingDirection::BurnToBevy, TransferKind::Gpu));
}

#[test]
fn devices() {
    let pending = BurnDevice::pending();
    assert!(!pending.is_ready());
    assert!(pending.device().is_none());
    assert!(!BurnDevice::default().is_ready());

    let mut ready = BurnDevice::ready(WgpuDevice::Existing(3));
    assert!(ready.is_ready());
    assert_eq!(ready.device(), Some(&WgpuDevice::Existing(3)));
    *ready.device_mut().unwrap() = WgpuDevice::Cpu;
    assert_eq!(ready.clone().device(), Some(&WgpuDevice::Cpu));
    assert!(pending.clone().device().is_none());
    assert!(BurnDevice::pending().device_mut().is_none());

    let from = BurnDevice::from(WgpuDevice::DiscreteGpu(1));
    assert_eq!(from.device(), Some(&WgpuDevice::DiscreteGpu(1)));
}
