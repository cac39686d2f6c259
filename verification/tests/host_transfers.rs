use bevy::asset::{Assets, Handle, RenderAssetUsages, UntypedHandle};
use bevy::image::Image;
use bevy::render::render_resource::{Extent3d, TextureDimension, TextureFormat};
use bevy::shader::Shader;
use bevy_burn::cpu::{
    bevy_to_burn_update, burn_to_bevy_update, burn_to_bevy_update_if_loaded, download_step,
    finish_download, finish_download_if_loaded, write_tensor_bytes_to_image, Download,
    DownloadStep,
};
use bevy_burn::handle::{BevyBurnHandle, BindingDirection, TransferKind};
use bevy_burn::images::{image_layout, ImageAssets, PixelLayout};
use bevy_burn::tensor::is_loaded;
use burn_tensor::{Bytes, DType, TensorData};

fn store() -> ImageAssets {
    ImageAssets { images: Assets::<Image>::default() }
}

fn image_of(width: u32, height: u32, pixel: &[u8], format: TextureFormat) -> Image {
    Image::new_fill(
        Extent3d { width, height, depth_or_array_layers: 1 },
        TextureDimension::D2,
        pixel,
        format,
        RenderAssetUsages::default(),
    )
}

fn rgba(width: u32, height: u32, pixel: &[u8]) -> Image {
    image_of(width, height, pixel, TextureFormat::Rgba8UnormSrgb)
}

fn handle_for<T>(
    image: UntypedHandle,
    tensor: T,
    direction: BindingDirection,
    xfer: TransferKind,
) -> BevyBurnHandle<T> {
    BevyBurnHandle { bevy_image: image, tensor, upload: true, direction, xfer }
}

fn bytes_of(store: &ImageAssets, handle: &UntypedHandle) -> Vec<u8> {
    stored(store, handle).data.clone().unwrap()
}

fn stored<'a>(store: &'a ImageAssets, handle: &UntypedHandle) -> &'a Image {
    store.images.get(handle.id().typed::<Image>()).unwrap()
}

#[test]
fn bevy_to_burn_cpu_1x1() {
    let mut store = store();
    let pixel = [255, 128, 0, 255];
    let image = store.images.add(rgba(1, 1, &pixel)).untyped();
    let tensor = TensorData::zeros::<f32, _>([1, 1, 4]);
    let mut handle =
        handle_for(image, tensor, BindingDirection::BevyToBurn, TransferKind::Cpu);

    let pixels = bevy_to_burn_update(&handle, &store).unwrap();
    assert_eq!(pixels.dims, [1, 1, 4]);
    let values: Vec<f32> =
        pixels.data.to_vec::<u8>().unwrap().into_iter().map(|x| x as f32 / 255.0).collect();
    handle.receive(TensorData::new(values, pixels.dims));

    let floats: Vec<f32> = handle.tensor.to_vec::<f32>().unwrap();
    let max_err = pixel
        .iter()
        .enumerate()
        .map(|(i, &x)| (x as f32 / 255.0 - floats[i]).abs())
        .fold(0.0, f32::max);
    assert!(max_err < 0.0001, "max error: {}", max_err);
    assert!(!handle.upload);
    assert!(bevy_to_burn_update(&handle, &store).is_none());
}

#[test]
fn burn_to_bevy_cpu_1x1() {
    let mut store = store();
    let image = store.images.add(rgba(1, 1, &[0, 0, 0, 0])).untyped();
    let tensor = TensorData::from([[[0.0f32, 0.5, 1.0, 1.0]]]);
    let mut handle =
        handle_for(image.clone(), (), BindingDirection::BurnToBevy, TransferKind::Cpu);

    assert_eq!(burn_to_bevy_update(&mut handle, &mut store, &tensor), Download::Written);
    assert_eq!(stored(&store, &image).data.as_deref().unwrap(), &[0, 128, 255, 255]);
    assert!(!handle.upload);
    assert_eq!(burn_to_bevy_update(&mut handle, &mut store, &tensor), Download::NotDue);
}

#[test]
fn other_kinds_are_left_alone() {
    let mut store = store();
    let image = store.images.add(rgba(1, 1, &[1, 2, 3, 4])).untyped();
    let tensor = TensorData::from([[[1.0f32, 1.0, 1.0, 1.0]]]);
    for (direction, xfer) in [
        (BindingDirection::BevyToBurn, TransferKind::Cpu),
        (BindingDirection::BevyToBurn, TransferKind::Gpu),
        (BindingDirection::BurnToBevy, TransferKind::Gpu),
    ] {
        let mut handle = handle_for(image.clone(), (), direction, xfer);
        assert_eq!(burn_to_bevy_update(&mut handle, &mut store, &tensor), Download::NotDue);
        assert!(handle.upload);
    }
    for (direction, xfer) in [
        (BindingDirection::BurnToBevy, TransferKind::Cpu),
        (BindingDirection::BevyToBurn, TransferKind::Gpu),
        (BindingDirection::BurnToBevy, TransferKind::Gpu),
    ] {
        let handle = handle_for(image.clone(), (), direction, xfer);
        assert!(bevy_to_burn_update(&handle, &store).is_none());
    }
    assert_eq!(bytes_of(&store, &image), vec![1, 2, 3, 4]);
}

#[test]
fn each_request_is_due_once() {
    let image = Handle::<Image>::default().untyped();
    for direction in [BindingDirection::BurnToBevy, BindingDirection::BevyToBurn] {
        for xfer in [TransferKind::Cpu, TransferKind::Gpu] {
            let mut handle = handle_for(image.clone(), (), direction, xfer);
            let mut due = 0;
            for d in [BindingDirection::BurnToBevy, BindingDirection::BevyToBurn] {
                for x in [TransferKind::Cpu, TransferKind::Gpu] {
                    if handle.is_due(d, x) {
                        due += 1;
                    }
                }
            }
            assert_eq!(due, 1);
            handle.upload = false;
            assert!(!handle.is_due(direction, xfer));
        }
    }
}

#[test]
fn image_takes_the_size_of_the_tensor() {
    let mut store = store();
    let image = store.images.add(rgba(3, 3, &[7, 7, 7, 7])).untyped();
    let tensor = TensorData::from([[[0.0f32, 1.0, 0.0, 1.0], [1.0, 0.0, 1.0, 0.5]]]);
    let mut handle =
        handle_for(image.clone(), (), BindingDirection::BurnToBevy, TransferKind::Cpu);
    assert_eq!(burn_to_bevy_update(&mut handle, &mut store, &tensor), Download::Written);
    let written = stored(&store, &image);
    assert_eq!((written.width(), written.height()), (2, 1));
    assert_eq!(written.data.as_deref().unwrap(), &[0, 255, 0, 255, 255, 0, 255, 128]);
}

#[test]
fn missing_image_is_added() {
    let mut store = store();
    let other = store.images.add(rgba(1, 1, &[9, 9, 9, 9])).untyped();
    let tensor = TensorData::from([[[0.0f32, 0.5, 1.0, 1.0]]]);
    let mut handle = BevyBurnHandle::around(());
    let default = Handle::<Image>::default().untyped();
    assert_eq!(handle.bevy_image.id(), default.id());
    assert_eq!(burn_to_bevy_update(&mut handle, &mut store, &tensor), Download::Written);
    assert_ne!(handle.bevy_image.id(), default.id());
    assert_ne!(handle.bevy_image.id(), other.id());
    let added = stored(&store, &handle.bevy_image);
    assert_eq!((added.width(), added.height()), (1, 1));
    assert_eq!(added.texture_descriptor.format, TextureFormat::Rgba8UnormSrgb);
    assert_eq!(added.data.as_deref().unwrap(), &[0, 128, 255, 255]);
    assert_eq!(bytes_of(&store, &other), vec![9, 9, 9, 9]);
    assert_eq!(store.images.len(), 2);
}

#[test]
fn short_bytes_fill_a_new_image() {
    let mut store = store();
    let mut handle = BevyBurnHandle::around(());
    write_tensor_bytes_to_image(&mut handle, &mut store, [1, 3, 4], vec![1, 2, 3, 4]);
    assert_eq!(
        bytes_of(&store, &handle.bevy_image),
        vec![1, 2, 3, 4, 1, 2, 3, 4, 1, 2, 3, 4]
    );
    assert!(handle.upload);
}

#[test]
fn image_without_data_gets_some() {
    let mut store = store();
    let mut image = rgba(2, 2, &[0, 0, 0, 0]);
    image.data = None;
    let image = store.images.add(image).untyped();
    let mut handle = BevyBurnHandle { bevy_image: image.clone(), ..BevyBurnHandle::around(()) };
    write_tensor_bytes_to_image(&mut handle, &mut store, [1, 1, 4], vec![5, 6, 7, 8]);
    let written = stored(&store, &image);
    assert_eq!((written.width(), written.height()), (1, 1));
    assert_eq!(written.data.as_deref().unwrap(), &[5, 6, 7, 8]);
}

#[test]
fn default_handle_makes_an_empty_image() {
    let mut store = store();
    let mut handle = BevyBurnHandle::<TensorData>::default();
    assert!(handle.upload);
    assert_eq!(handle.direction, BindingDirection::BurnToBevy);
    assert_eq!(handle.xfer, TransferKind::Cpu);
    let tensor = handle.tensor.clone();
    assert_eq!(tensor.shape.to_vec(), vec![0, 0, 0]);
    assert_eq!(burn_to_bevy_update(&mut handle, &mut store, &tensor), Download::Written);
    let added = stored(&store, &handle.bevy_image);
    assert_eq!((added.width(), added.height()), (0, 0));
    assert_eq!(added.data.as_deref().unwrap(), &[] as &[u8]);
}

#[test]
fn tensor_of_integers_keeps_asking() {
    let mut store = store();
    let image = store.images.add(rgba(1, 1, &[1, 2, 3, 4])).untyped();
    let mut handle = BevyBurnHandle { bevy_image: image.clone(), ..BevyBurnHandle::around(()) };
    let tensor = TensorData::from([[[1i32, 2, 3, 4]]]);
    assert_eq!(burn_to_bevy_update(&mut handle, &mut store, &tensor), Download::NoPixels);
    assert!(handle.upload);
    assert_eq!(bytes_of(&store, &image), vec![1, 2, 3, 4]);
}

#[test]
fn unwritable_tensors_change_nothing() {
    let mut store = store();
    let mut handle = BevyBurnHandle::around(());
    let flat = TensorData::from([0.0f32, 0.5, 1.0, 1.0]);
    assert_eq!(burn_to_bevy_update(&mut handle, &mut store, &flat), Download::Unwritable);
    let five = TensorData::from([[[0.0f32, 0.5, 1.0, 1.0, 1.0]]]);
    assert_eq!(burn_to_bevy_update(&mut handle, &mut store, &five), Download::Unwritable);
    let eight = TensorData::from([[[0.0f32; 8]]]);
    assert_eq!(burn_to_bevy_update(&mut handle, &mut store, &eight), Download::Unwritable);
    assert_eq!(store.images.len(), 0);
    assert!(handle.upload);

    let mut depth = rgba(2, 2, &[0, 0, 0, 0]);
    depth.texture_descriptor.format = TextureFormat::Depth24PlusStencil8;
    let depth = store.images.add(depth).untyped();
    let mut handle = BevyBurnHandle { bevy_image: depth, ..BevyBurnHandle::around(()) };
    let one = TensorData::from([[[0.0f32, 0.5, 1.0, 1.0]]]);
    assert_eq!(burn_to_bevy_update(&mut handle, &mut store, &one), Download::Unwritable);
    assert!(handle.upload);
}

#[test]
fn other_formats_are_resized() {
    let mut store = store();
    let wide = store.images.add(image_of(2, 2, &[1; 16], TextureFormat::Rgba32Float)).untyped();
    let mut block = rgba(4, 4, &[3, 3, 3, 3]);
    block.texture_descriptor.format = TextureFormat::Bc1RgbaUnorm;
    let block = store.images.add(block).untyped();
    let tensor = TensorData::from([[[0.0f32, 0.5, 1.0, 1.0]]]);
    for image in [wide, block] {
        let mut handle =
            BevyBurnHandle { bevy_image: image.clone(), ..BevyBurnHandle::around(()) };
        assert_eq!(burn_to_bevy_update(&mut handle, &mut store, &tensor), Download::Written);
        let written = stored(&store, &image);
        assert_eq!((written.width(), written.height()), (1, 1));
        assert_eq!(written.data.as_deref().unwrap(), &[0, 128, 255, 255]);
    }
}

#[test]
fn unreadable_images_keep_asking() {
    let mut store = store();
    let wide = store.images.add(image_of(1, 1, &[0; 16], TextureFormat::Rgba32Float)).untyped();
    let mut empty = rgba(1, 1, &[0, 0, 0, 0]);
    empty.data = None;
    let empty = store.images.add(empty).untyped();
    for image in [wide, empty, Handle::<Image>::default().untyped()] {
        let handle = handle_for(image, (), BindingDirection::BevyToBurn, TransferKind::Cpu);
        assert!(bevy_to_burn_update(&handle, &store).is_none());
        assert!(handle.upload);
    }
}

#[test]
fn read_gives_back_write_and_round_trip_keeps_image() {
    let mut store = store();
    let original: Vec<u8> = (0..24u8).map(|i| i * 10).collect();
    let mut handle = BevyBurnHandle::around(());
    write_tensor_bytes_to_image(&mut handle, &mut store, [2, 3, 4], original.clone());

    handle.direction = BindingDirection::BevyToBurn;
    let pixels = bevy_to_burn_update(&handle, &store).unwrap();
    assert_eq!(pixels.dims, [2, 3, 4]);
    assert_eq!(pixels.data.shape.to_vec(), vec![24]);
    assert_eq!(pixels.data.to_vec::<u8>().unwrap(), original);

    let values: Vec<f32> = original.iter().map(|&x| x as f32 / 255.0 + 0.0001).collect();
    let tensor = TensorData::new(values, pixels.dims);
    handle.direction = BindingDirection::BurnToBevy;
    assert_eq!(burn_to_bevy_update(&mut handle, &mut store, &tensor), Download::Written);
    assert_eq!(bytes_of(&store, &handle.bevy_image), original);
    handle.upload = true;
    assert_eq!(burn_to_bevy_update(&mut handle, &mut store, &tensor), Download::Written);
    assert_eq!(bytes_of(&store, &handle.bevy_image), original);
    assert_eq!(store.images.len(), 1);
}

#[test]
fn background_download_steps() {
    let image = Handle::<Image>::default().untyped();
    let mut handle =
        handle_for(image.clone(), (), BindingDirection::BurnToBevy, TransferKind::Cpu);
    assert_eq!(download_step(&handle, false), DownloadStep::Start);
    assert_eq!(download_step(&handle, true), DownloadStep::Poll);
    handle.upload = false;
    assert_eq!(download_step(&handle, false), DownloadStep::Leave);
    assert_eq!(download_step(&handle, true), DownloadStep::Abandon);
    let handle = handle_for(image, (), BindingDirection::BurnToBevy, TransferKind::Gpu);
    assert_eq!(download_step(&handle, false), DownloadStep::Leave);
    assert_eq!(download_step(&handle, true), DownloadStep::Abandon);
}

#[test]
fn background_download_ends_the_request() {
    let mut store = store();
    let image = store.images.add(rgba(1, 1, &[1, 2, 3, 4])).untyped();
    let fresh = || BevyBurnHandle { bevy_image: image.clone(), ..BevyBurnHandle::around(()) };

    let mut handle = fresh();
    assert_eq!(finish_download(&mut handle, &mut store, [1, 1, 4], None), Download::NoPixels);
    assert!(!handle.upload);
    assert_eq!(bytes_of(&store, &image), vec![1, 2, 3, 4]);

    let mut handle = fresh();
    let integers = TensorData::from([[[1i32, 2, 3, 4]]]);
    assert_eq!(
        finish_download(&mut handle, &mut store, [1, 1, 4], Some(&integers)),
        Download::NoPixels
    );
    assert!(!handle.upload);

    let mut handle = fresh();
    let tensor = TensorData::from([[[0.0f32, 0.5, 1.0, 1.0]]]);
    assert_eq!(
        finish_download(&mut handle, &mut store, [1, 1, 4], Some(&tensor)),
        Download::Written
    );
    assert!(!handle.upload);
    assert_eq!(bytes_of(&store, &image), vec![0, 128, 255, 255]);

    let mut handle = BevyBurnHandle::around(());
    let five = TensorData::from([[[0.0f32, 0.5, 1.0, 1.0, 1.0]]]);
    assert_eq!(
        finish_download(&mut handle, &mut store, [1, 1, 5], Some(&five)),
        Download::Unwritable
    );
    assert!(handle.upload);
    assert_eq!(store.images.len(), 1);
}

#[test]
fn background_download_takes_the_extents_of_the_present_tensor() {
    let mut store = store();
    let image = store.images.add(rgba(1, 1, &[1, 2, 3, 4])).untyped();
    let mut handle = BevyBurnHandle { bevy_image: image.clone(), ..BevyBurnHandle::around(()) };
    let fetched = TensorData::from([[[0.0f32, 0.5, 1.0, 1.0]]]);
    assert_eq!(
        finish_download(&mut handle, &mut store, [2, 1, 4], Some(&fetched)),
        Download::Written
    );
    let written = stored(&store, &image);
    assert_eq!((written.width(), written.height()), (1, 2));
    assert_eq!(written.data.as_deref().unwrap(), &[0, 128, 255, 255]);
    assert!(!handle.upload);
}

#[test]
fn contents_in_a_file_are_left_alone() {
    let mut store = store();
    let in_file = TensorData::from_bytes(
        Bytes::from_file("no/such/file", 4, 0),
        [1, 1, 1],
        DType::F32,
    );
    assert!(!is_loaded(&in_file));
    assert!(is_loaded(&TensorData::from([[[0.0f32, 0.5, 1.0, 1.0]]])));
    let mut handle = BevyBurnHandle::around(());
    assert_eq!(burn_to_bevy_update_if_loaded(&mut handle, &mut store, &in_file), None);
    assert_eq!(
        finish_download_if_loaded(&mut handle, &mut store, [1, 1, 1], Some(&in_file)),
        None
    );
    assert!(handle.upload);
    assert_eq!(store.images.len(), 0);
}

#[test]
fn contents_in_memory_are_written() {
    let mut store = store();
    let tensor = TensorData::from([[[0.0f32, 0.5, 1.0, 1.0]]]);
    let mut handle = BevyBurnHandle::around(());
    assert_eq!(
        burn_to_bevy_update_if_loaded(&mut handle, &mut store, &tensor),
        Some(Download::Written)
    );
    assert_eq!(bytes_of(&store, &handle.bevy_image), vec![0, 128, 255, 255]);
    handle.upload = true;
    assert_eq!(
        finish_download_if_loaded(&mut handle, &mut store, [1, 1, 4], None),
        Some(Download::NoPixels)
    );
    assert!(!handle.upload);
    let mut handle = BevyBurnHandle::around(());
    assert_eq!(
        finish_download_if_loaded(&mut handle, &mut store, [1, 1, 4], Some(&tensor)),
        Some(Download::Written)
    );
    assert_eq!(store.images.len(), 2);
}

#[test]
fn settings_of_a_stored_image_stay() {
    let mut store = store();
    let mut image = image_of(2, 2, &[1, 2, 3, 4], TextureFormat::Bgra8Unorm);
    image.texture_descriptor.label = Some("kept");
    image.copy_on_resize = true;
    image.asset_usage = RenderAssetUsages::MAIN_WORLD;
    let before = image.clone();
    let image = store.images.add(image).untyped();
    let mut handle = BevyBurnHandle { bevy_image: image.clone(), ..BevyBurnHandle::around(()) };
    write_tensor_bytes_to_image(&mut handle, &mut store, [1, 1, 4], vec![5, 6, 7, 8]);
    let written = stored(&store, &image);
    assert_eq!((written.width(), written.height()), (1, 1));
    let mut back = written.clone();
    back.texture_descriptor.size = before.texture_descriptor.size;
    back.data = before.data.clone();
    assert_eq!(back, before);
}

#[test]
fn new_images_are_flat_and_plain() {
    let mut store = store();
    let mut handle = BevyBurnHandle::around(());
    let bytes: Vec<u8> = (0..16).collect();
    write_tensor_bytes_to_image(&mut handle, &mut store, [1, 4, 4], bytes.clone());
    assert_eq!(*stored(&store, &handle.bevy_image), rgba(4, 1, &bytes));
    let added = stored(&store, &handle.bevy_image);
    assert_eq!(added.texture_descriptor.dimension, TextureDimension::D2);
    assert_eq!(added.texture_descriptor.mip_level_count, 1);
}

#[test]
fn pixel_layouts() {
    let mut image = rgba(4, 4, &[0, 0, 0, 0]);
    for (format, layout) in [
        (TextureFormat::Rgba8UnormSrgb, PixelLayout::Uncompressed(4)),
        (TextureFormat::R8Unorm, PixelLayout::Uncompressed(1)),
        (TextureFormat::Rgba32Float, PixelLayout::Uncompressed(16)),
        (TextureFormat::Bc1RgbaUnorm, PixelLayout::Compressed),
        (TextureFormat::Depth24PlusStencil8, PixelLayout::Unsized),
        (TextureFormat::NV12, PixelLayout::Unsized),
    ] {
        image.texture_descriptor.format = format;
        assert_eq!(image_layout(&image), layout);
    }
}

#[test]
fn handles_of_other_assets_refer_to_no_image() {
    let mut store = store();
    let image = store.images.add(rgba(1, 1, &[1, 2, 3, 4])).untyped();
    let mut shaders = Assets::<Shader>::default();
    let shader = shaders.add(Shader::from_wgsl("", "empty.wgsl")).untyped();
    let handle = handle_for(shader.clone(), (), BindingDirection::BevyToBurn, TransferKind::Cpu);
    assert!(bevy_to_burn_update(&handle, &store).is_none());

    let mut handle = BevyBurnHandle { bevy_image: shader, ..BevyBurnHandle::around(()) };
    write_tensor_bytes_to_image(&mut handle, &mut store, [1, 1, 4], vec![5, 6, 7, 8]);
    assert_eq!(store.images.len(), 2);
    assert_eq!(bytes_of(&store, &image), vec![1, 2, 3, 4]);
    assert_eq!(bytes_of(&store, &handle.bevy_image), vec![5, 6, 7, 8]);
}

#[test]
fn clones_refer_to_the_same_image() {
    let mut store = store();
    let image = store.images.add(rgba(1, 1, &[1, 2, 3, 4])).untyped();
    let handle = handle_for(image, 7u32, BindingDirection::BevyToBurn, TransferKind::Gpu);
    let clone = handle.clone();
    assert_eq!(clone.bevy_image, handle.bevy_image);
    assert_eq!(clone.tensor, 7);
    assert!(clone.upload);
    assert_eq!(clone.direction, BindingDirection::BevyToBurn);
    assert_eq!(clone.xfer, TransferKind::Gpu);
}
