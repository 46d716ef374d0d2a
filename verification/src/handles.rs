//! Plain-value handles standing for the resources that the graphics layer
//! supplies: the upload queue, a graphics pipeline, the dynamic render state
//! and the shader resource bindings handed to a draw call. The library never
//! looks inside the device objects these stand for; it only needs stable
//! identities and the pipeline's declared capabilities.

use vstd::prelude::*;

verus! {

/// Reference to the GPU queue that buffer uploads are enqueued on.
#[derive(Clone, Copy, PartialEq, Eq, Structural, Debug)]
pub struct QueueHandle {
    pub id: u64,
}

/// Reference to a graphics pipeline, together with the capabilities the
/// library validates against: which shader stages are bound, which vertex
/// layout the pipeline consumes and which resource-binding layout it expects.
#[derive(Clone, Copy, PartialEq, Eq, Structural, Debug)]
pub struct PipelineHandle {
    pub id: u64,
    pub vertex_layout: u64,
    pub binding_layout: u64,
    pub has_vertex_shader: bool,
    pub has_fragment_shader: bool,
}

/// Reference to the dynamic viewport/scissor state supplied at draw time.
/// The library records it unchanged; only the graphics layer interprets it.
#[derive(Clone, Copy, PartialEq, Eq, Structural, Debug)]
pub struct DynamicState {
    pub id: u64,
}

/// A collection of shader resource bindings (descriptor sets) supplied at
/// draw time, declared against a particular binding layout.
#[derive(Clone, PartialEq, Eq, Debug)]
pub struct DescriptorSets {
    pub layout: u64,
    pub sets: Vec<u64>,
}

/// Mathematical model of a `DescriptorSets` value.
#[verifier::ext_equal]
pub ghost struct DescriptorSetsView {
    pub layout: u64,
    pub sets: Seq<u64>,
}

impl View for DescriptorSets {
    type V = DescriptorSetsView;

    open spec fn view(&self) -> DescriptorSetsView {
        DescriptorSetsView { layout: self.layout, sets: self.sets@ }
    }
}

} // verus!
