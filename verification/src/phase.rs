//! Keys of the binned render phase that draws mesh mists.

use bevy::render::render_phase::DrawFunctionId;
use bevy::render::render_resource::CachedRenderPipelineId;
use bevy::render::render_resource::PrimitiveTopology;
use bevy::sprite_render::Mesh2dPipelineKey;
use vstd::prelude::*;

verus! {

/// Batch set key of a mesh mist phase item.
///
/// Mist items are only split into batch sets by whether their mesh is indexed.
#[derive(Clone, Copy, PartialEq, Eq, Structural, PartialOrd, Ord, Hash, Default, Debug)]
pub struct MeshMistBatchSetKey {
    pub indexed: bool,
}

impl MeshMistBatchSetKey {
    /// Key for a mesh that is (or is not) drawn with an index buffer.
    pub fn new(indexed: bool) -> (key: Self)
        ensures
            key.indexed == indexed,
    {
        MeshMistBatchSetKey { indexed }
    }

    /// Whether the batch set draws indexed meshes.
    pub fn indexed(&self) -> (indexed: bool)
        ensures
            indexed == self.indexed,
    {
        self.indexed
    }
}

/// Bevy's index of a pipeline in its pipeline cache; carried through opaquely.
#[verifier::external_type_specification]
#[verifier::external_body]
pub struct ExCachedRenderPipelineId(CachedRenderPipelineId);

/// Bevy's identifier of a registered draw function; carried through opaquely.
#[verifier::external_type_specification]
#[verifier::external_body]
pub struct ExDrawFunctionId(DrawFunctionId);

/// Bin key of a mesh mist phase item: items that share the specialized
/// pipeline and the draw function land in the same bin.
#[derive(Clone, Copy, PartialEq, Eq, PartialOrd, Ord, Hash, Debug)]
pub struct MeshMistBinKey {
    pub pipeline: CachedRenderPipelineId,
    pub draw_function: DrawFunctionId,
}

impl MeshMistBinKey {
    /// Bin key of an item drawn with `draw_function` through `pipeline`.
    pub fn new(pipeline: CachedRenderPipelineId, draw_function: DrawFunctionId) -> (key: Self)
        ensures
            key.pipeline == pipeline,
            key.draw_function == draw_function,
    {
        MeshMistBinKey { pipeline, draw_function }
    }

    /// The specialized pipeline the bin is drawn with.
    pub fn pipeline(&self) -> (pipeline: CachedRenderPipelineId)
        ensures
            pipeline == self.pipeline,
    {
        self.pipeline
    }

    /// The draw function the bin is drawn with.
    pub fn draw_function(&self) -> (draw_function: DrawFunctionId)
        ensures
            draw_function == self.draw_function,
    {
        self.draw_function
    }
}

/// Primitive topology of a mesh: how its vertices are assembled into primitives.
#[derive(Clone, Copy, PartialEq, Eq, Structural, Debug)]
pub enum MeshTopology {
    PointList,
    LineList,
    LineStrip,
    TriangleList,
    TriangleStrip,
}

/// Index of a topology in the GPU API's enumeration of topologies.
pub open spec fn topology_index(topology: MeshTopology) -> u32 {
    match topology {
        MeshTopology::PointList => 0,
        MeshTopology::LineList => 1,
        MeshTopology::LineStrip => 2,
        MeshTopology::TriangleList => 3,
        MeshTopology::TriangleStrip => 4,
    }
}

/// Bits of a 2D mesh pipeline key that hold the log2 of the MSAA sample count.
pub open spec fn msaa_bits(msaa_samples: u32) -> u32 {
    (msaa_samples.trailing_zeros() & 7u32) << 29u32
}

/// Bit of a 2D mesh pipeline key that marks an HDR view.
pub open spec fn hdr_bits(hdr: bool) -> u32 {
    if hdr {
        1u32
    } else {
        0u32
    }
}

/// Bits of a 2D mesh pipeline key that hold the primitive topology.
pub open spec fn topology_bits(topology: MeshTopology) -> u32 {
    (topology_index(topology) & 7u32) << 26u32
}

/// `Mesh2dPipelineKey::from_msaa_samples`, as its bits. The contract restates
/// the source: the trailing zeros of the sample count, masked to three bits,
/// shifted to the top three bits of the key.
#[verifier::external_body]
fn msaa_key_bits(msaa_samples: u32) -> (bits: u32)
    ensures
        bits == msaa_bits(msaa_samples),
{
    Mesh2dPipelineKey::from_msaa_samples(msaa_samples).bits()
}

/// `Mesh2dPipelineKey::from_hdr`, as its bits. The contract restates the
/// source: the `HDR` flag (bit 0) when `hdr` holds, no bit otherwise.
#[verifier::external_body]
fn hdr_key_bits(hdr: bool) -> (bits: u32)
    ensures
        bits == hdr_bits(hdr),
{
    Mesh2dPipelineKey::from_hdr(hdr).bits()
}

/// `Mesh2dPipelineKey::from_primitive_topology`, as its bits. The contract
/// restates the source: the topology's discriminant (`PointList` 0 through
/// `TriangleStrip` 4 in wgpu), masked to three bits, shifted left by 26.
#[verifier::external_body]
fn topology_key_bits(topology: MeshTopology) -> (bits: u32)
    ensures
        bits == topology_bits(topology),
{
    let topology = match topology {
        MeshTopology::PointList => PrimitiveTopology::PointList,
        MeshTopology::LineList => PrimitiveTopology::LineList,
        MeshTopology::LineStrip => PrimitiveTopology::LineStrip,
        MeshTopology::TriangleList => PrimitiveTopology::TriangleList,
        MeshTopology::TriangleStrip => PrimitiveTopology::TriangleStrip,
    };
    Mesh2dPipelineKey::from_primitive_topology(topology).bits()
}

/// Pipeline key bits shared by every mist drawn into a view: its MSAA sample
/// count and whether it is HDR.
pub fn view_pipeline_key(msaa_samples: u32, hdr: bool) -> (bits: u32)
    ensures
        bits == msaa_bits(msaa_samples) | hdr_bits(hdr),
        bits == ((msaa_samples.trailing_zeros() & 7u32) << 29u32) | (if hdr {
            1u32
        } else {
            0u32
        }),
        bits & !((7u32 << 29u32) | 1u32) == 0,
{
    proof {
        view_key_holds_only_msaa_and_hdr(msaa_samples, hdr);
    }
    msaa_key_bits(msaa_samples) | hdr_key_bits(hdr)
}

/// Pipeline key bits a mist mesh is specialized with: the bits of its view
/// plus the mesh's primitive topology.
pub fn mesh_pipeline_key(view_key: u32, topology: MeshTopology) -> (bits: u32)
    ensures
        bits == view_key | topology_bits(topology),
        bits == view_key | ((topology_index(topology) & 7u32) << 26u32),
        (bits ^ view_key) & !(7u32 << 26u32) == 0,
{
    proof {
        mesh_key_adds_only_topology(view_key, topology);
    }
    view_key | topology_key_bits(topology)
}

/// The view part of a pipeline key is the MSAA field (log2 of the sample
/// count, masked to three bits, in the top three bits) and the HDR bit, and
/// nothing else: no other flag is ever set by the view.
pub proof fn view_key_holds_only_msaa_and_hdr(msaa_samples: u32, hdr: bool)
    ensures
        msaa_bits(msaa_samples) | hdr_bits(hdr) == ((msaa_samples.trailing_zeros() & 7u32)
            << 29u32) | (if hdr {
            1u32
        } else {
            0u32
        }),
        (msaa_bits(msaa_samples) | hdr_bits(hdr)) & !((7u32 << 29u32) | 1u32) == 0,
        (msaa_bits(msaa_samples) | hdr_bits(hdr)) >> 29u32 == msaa_samples.trailing_zeros()
            & 7u32,
{
    let z = msaa_samples.trailing_zeros();
    let h: u32 = if hdr {
        1u32
    } else {
        0u32
    };
    assert(h == 0 || h == 1);
    assert(((((z & 7u32) << 29u32) | h) & !((7u32 << 29u32) | 1u32) == 0) && ((((z & 7u32)
        << 29u32) | h) >> 29u32 == z & 7u32)) by (bit_vector)
        requires
            h == 0 || h == 1,
    ;
}

/// The mesh part of a pipeline key adds the mesh's topology (its index,
/// masked to three bits, shifted left by 26) to the view key and changes no
/// other bit of it.
pub proof fn mesh_key_adds_only_topology(view_key: u32, topology: MeshTopology)
    ensures
        view_key | topology_bits(topology) == view_key | ((topology_index(topology) & 7u32)
            << 26u32),
        ((view_key | topology_bits(topology)) ^ view_key) & !(7u32 << 26u32) == 0,
        view_key & (7u32 << 26u32) == 0 ==> ((view_key | topology_bits(topology)) >> 26u32)
            & 7u32 == topology_index(topology),
{
    let t = topology_index(topology);
    assert(t < 8);
    assert((((view_key | ((t & 7u32) << 26u32)) ^ view_key) & !(7u32 << 26u32) == 0) && (
    view_key & (7u32 << 26u32) == 0 ==> ((view_key | ((t & 7u32) << 26u32)) >> 26u32) & 7u32
        == t)) by (bit_vector)
        requires
            t < 8,
    ;
}

/// A mist's pipeline key records its view and its mesh apart: the top three
/// bits hold the MSAA log2 sample count, the next three the topology, bit 0
/// whether the view is HDR; so mists that differ in any of these never share
/// a specialized pipeline.
pub proof fn pipeline_key_fields(msaa_samples: u32, hdr: bool, topology: MeshTopology)
    ensures
        ({
            let key = (msaa_bits(msaa_samples) | hdr_bits(hdr)) | topology_bits(topology);
            &&& key >> 29u32 == msaa_samples.trailing_zeros() & 7u32
            &&& (key >> 26u32) & 7u32 == topology_index(topology)
            &&& (key & 1u32 == 1u32) == hdr
        }),
{
    let z = msaa_samples.trailing_zeros();
    let t = topology_index(topology);
    let h = hdr_bits(hdr);
    assert(t < 8);
    assert(h == 0 || h == 1);
    assert(((((z & 7u32) << 29u32) | h) | ((t & 7u32) << 26u32)) >> 29u32 == z & 7u32
        && (((((z & 7u32) << 29u32) | h) | ((t & 7u32) << 26u32)) >> 26u32) & 7u32 == t
        && ((((((z & 7u32) << 29u32) | h) | ((t & 7u32) << 26u32)) & 1u32 == 1u32) == (h
        == 1u32))) by (bit_vector)
        requires
            t < 8,
            h == 0 || h == 1,
    ;
}

} // verus!
