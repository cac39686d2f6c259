use bevy_burn::plugin::{BevyBurnBridgePlugin, BridgePart};
use bevy_burn::simulation::{colour_mask, pressure_iterations, Substeps};

#[test]
fn host_memory_bridge_needs_no_renderer() {
    let plugin = BevyBurnBridgePlugin { cpu_only: true };
    assert_eq!(plugin.build(), vec![BridgePart::BevyToBurnUpdate, BridgePart::BurnToBevyUpdate]);
    assert_eq!(plugin.finish(), vec![]);
}

#[test]
fn default_bridge_uses_the_renderer() {
    let plugin = BevyBurnBridgePlugin::default();
    assert!(!plugin.cpu_only);
    assert_eq!(
        plugin.build(),
        vec![
            BridgePart::BevyToBurnUpdate,
            BridgePart::BurnToBevyUpdate,
            BridgePart::SyncToRenderWorld
        ]
    );
    assert_eq!(
        plugin.finish(),
        vec![
            BridgePart::ShareDevice,
            BridgePart::ExtractGpuHandles,
            BridgePart::GpuBevyToBurn,
            BridgePart::PublishDevice,
            BridgePart::GpuBurnToBevy
        ]
    );
}

#[test]
fn checkerboard() {
    assert_eq!(colour_mask(2, 3, true), vec![true, false, true, false, true, false]);
    assert_eq!(colour_mask(2, 3, false), vec![false, true, false, true, false, true]);
    assert_eq!(colour_mask(0, 5, true), Vec::<bool>::new());
    assert_eq!(colour_mask(5, 0, true), Vec::<bool>::new());
}

#[test]
fn checkerboard_matches_floating_point_parity() {
    let (rows, columns) = (7, 10);
    for red in [true, false] {
        let mask = colour_mask(rows, columns, red);
        for y in 0..rows {
            for x in 0..columns {
                let parity = (x as f32 + y as f32) % 2.0;
                let wanted = if red { 0.0 } else { 1.0 };
                assert_eq!(mask[y * columns + x], parity == wanted);
            }
        }
    }
}

#[test]
fn neighbours_have_the_other_colour() {
    let (rows, columns) = (4, 6);
    let mask = colour_mask(rows, columns, true);
    for y in 0..rows {
        for x in 0..columns {
            let cell = mask[y * columns + x];
            assert_ne!(cell, mask[(y + 1) % rows * columns + x]);
            assert_ne!(cell, mask[(y + rows - 1) % rows * columns + x]);
            assert_ne!(cell, mask[y * columns + (x + 1) % columns]);
            assert_ne!(cell, mask[y * columns + (x + columns - 1) % columns]);
        }
    }
}

#[test]
fn pressure_passes() {
    assert_eq!(pressure_iterations(0), 2);
    assert_eq!(pressure_iterations(2), 2);
    assert_eq!(pressure_iterations(5), 5);
    assert_eq!(pressure_iterations(8), 8);
    assert_eq!(pressure_iterations(100), 8);
}

#[test]
fn substeps_of_a_frame() {
    let mut steps = Substeps::new();
    assert!(!steps.goes_on(false));
    let mut recomputed = Vec::new();
    let mut taken = 0;
    while steps.goes_on(true) {
        taken += 1;
        if steps.advance() {
            recomputed.push(taken);
        }
    }
    assert_eq!(taken, 8);
    assert_eq!(recomputed, vec![4, 8]);
}
