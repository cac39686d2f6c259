//! What the bridge adds to an application.

use vstd::prelude::*;

verus! {

/// A part of the bridge that an application runs.
#[derive(Clone, Copy, Debug, PartialEq, Eq, Structural)]
pub enum BridgePart {
    /// Images are read into tensors in host memory, every frame.
    BevyToBurnUpdate,
    /// Tensors are written into images in host memory, every frame.
    BurnToBevyUpdate,
    /// Entities with a handle are mirrored into the render world, before every frame.
    SyncToRenderWorld,
    /// The renderer's device is handed to Burn.
    ShareDevice,
    /// Handles are copied for the render world, every frame.
    ExtractGpuHandles,
    /// Textures are read into tensors, every frame.
    GpuBevyToBurn,
    /// Both worlds are told of the shared device.
    PublishDevice,
    /// Tensors are written into textures, every frame.
    GpuBurnToBevy,
}

/// The bridge as an application adds it.
pub struct BevyBurnBridgePlugin {
    /// Whether contents are carried over in host memory only.
    pub cpu_only: bool,
}

impl BevyBurnBridgePlugin {
    /// What is added first, in order.
    pub open spec fn built(self) -> Seq<BridgePart> {
        if self.cpu_only {
            seq![BridgePart::BevyToBurnUpdate, BridgePart::BurnToBevyUpdate]
        } else {
            seq![
                BridgePart::BevyToBurnUpdate,
                BridgePart::BurnToBevyUpdate,
                BridgePart::SyncToRenderWorld,
            ]
        }
    }

    /// What is added once the renderer is there, in order.
    pub open spec fn finished(self) -> Seq<BridgePart> {
        if self.cpu_only {
            seq![]
        } else {
            seq![
                BridgePart::ShareDevice,
                BridgePart::ExtractGpuHandles,
                BridgePart::GpuBevyToBurn,
                BridgePart::PublishDevice,
                BridgePart::GpuBurnToBevy,
            ]
        }
    }

    /// Lists what is added first, in order.
    pub fn build(&self) -> (parts: Vec<BridgePart>)
        ensures
            parts@ == self.built(),
    {
        let mut parts: Vec<BridgePart> = Vec::new();
        parts.push(BridgePart::BevyToBurnUpdate);
        parts.push(BridgePart::BurnToBevyUpdate);
        if self.cpu_only {
            return parts;
        }
        parts.push(BridgePart::SyncToRenderWorld);
        parts
    }

    /// Lists what is added once the renderer is there, in order.
    pub fn finish(&self) -> (parts: Vec<BridgePart>)
        ensures
            parts@ == self.finished(),
    {
        let mut parts: Vec<BridgePart> = Vec::new();
        if self.cpu_only {
            return parts;
        }
        parts.push(BridgePart::ShareDevice);
        parts.push(BridgePart::ExtractGpuHandles);
        parts.push(BridgePart::GpuBevyToBurn);
        parts.push(BridgePart::PublishDevice);
        parts.push(BridgePart::GpuBurnToBevy);
        parts
    }
}

impl Default for BevyBurnBridgePlugin {
    /// The bridge with both ways of carrying contents over.
    fn default() -> (plugin: Self)
        ensures
            !plugin.cpu_only,
    {
        BevyBurnBridgePlugin { cpu_only: false }
    }
}

/// The whole bridge runs every part, and each of them once. Before the renderer is there, it runs the
/// transfers in host memory and the mirroring of entities; everything else waits for the renderer.
pub proof fn law_whole_bridge_runs_every_part_once(plugin: BevyBurnBridgePlugin, part: BridgePart)
    requires
        !plugin.cpu_only,
    ensures
        plugin.built().contains(part) <==> part == BridgePart::BevyToBurnUpdate || part
            == BridgePart::BurnToBevyUpdate || part == BridgePart::SyncToRenderWorld,
        plugin.finished().contains(part) <==> !plugin.built().contains(part),
        plugin.built().no_duplicates(),
        plugin.finished().no_duplicates(),
        plugin.built().len() + plugin.finished().len() == 8,
{
    let built = plugin.built();
    let finished = plugin.finished();
    assert(built[0] == BridgePart::BevyToBurnUpdate);
    assert(built[1] == BridgePart::BurnToBevyUpdate);
    assert(built[2] == BridgePart::SyncToRenderWorld);
    assert(finished[0] == BridgePart::ShareDevice);
    assert(finished[1] == BridgePart::ExtractGpuHandles);
    assert(finished[2] == BridgePart::GpuBevyToBurn);
    assert(finished[3] == BridgePart::PublishDevice);
    assert(finished[4] == BridgePart::GpuBurnToBevy);
}

/// The order in which parts come once the renderer is there: the device is shared before anything
/// else, handles are extracted before textures are read, and the device is published before tensors
/// are written, which comes last.
pub proof fn law_parts_come_in_order(plugin: BevyBurnBridgePlugin, i: int)
    requires
        0 <= i < plugin.finished().len(),
    ensures
        plugin.finished()[i] == BridgePart::ShareDevice <==> i == 0,
        plugin.finished()[i] == BridgePart::ExtractGpuHandles ==> plugin.finished()[i + 1]
            == BridgePart::GpuBevyToBurn,
        plugin.finished()[i] == BridgePart::PublishDevice ==> plugin.finished()[i + 1]
            == BridgePart::GpuBurnToBevy,
        plugin.finished()[i] == BridgePart::GpuBurnToBevy <==> i == plugin.finished().len() - 1,
        plugin.finished()[i] == BridgePart::GpuBevyToBurn ==> plugin.finished()[i + 1]
            == BridgePart::PublishDevice,
        plugin.built()[0] == BridgePart::BevyToBurnUpdate,
        plugin.built()[1] == BridgePart::BurnToBevyUpdate,
{
}

/// A bridge in host memory needs no renderer: it runs the two transfers in host memory and nothing
/// else. Those two run in every bridge.
pub proof fn law_cpu_only_needs_no_renderer(plugin: BevyBurnBridgePlugin)
    ensures
        plugin.cpu_only ==> plugin.built() + plugin.finished() == seq![
            BridgePart::BevyToBurnUpdate,
            BridgePart::BurnToBevyUpdate,
        ],
        plugin.built().contains(BridgePart::BevyToBurnUpdate),
        plugin.built().contains(BridgePart::BurnToBevyUpdate),
{
    assert(plugin.built()[0] == BridgePart::BevyToBurnUpdate);
    assert(plugin.built()[1] == BridgePart::BurnToBevyUpdate);
    assert(plugin.cpu_only ==> plugin.built() + plugin.finished() =~= seq![
        BridgePart::BevyToBurnUpdate,
        BridgePart::BurnToBevyUpdate,
    ]);
}

} // verus!
