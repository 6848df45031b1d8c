//! The binding that exposes the camera uniform to shaders: its fixed
//! layout, and the bind group that points at the uniform buffer.

use crate::uniform::CameraUniform;
use vstd::prelude::*;

verus! {

/// The shader stages that can see a binding.
#[derive(Clone, Copy, Debug, PartialEq, Eq, Structural)]
pub struct ShaderStages {
    pub vertex: bool,
    pub fragment: bool,
    pub compute: bool,
}

/// How a bound buffer is read.
#[derive(Clone, Copy, Debug, PartialEq, Eq, Structural)]
pub enum BufferBindingKind {
    Uniform,
    Storage { read_only: bool },
}

/// The bind group layout for the host to create: one buffer binding.
#[derive(Clone, Copy, Debug, PartialEq, Eq)]
pub struct LayoutPlan {
    pub label: &'static str,
    pub binding: u32,
    pub visibility: ShaderStages,
    pub kind: BufferBindingKind,
    pub has_dynamic_offset: bool,
    pub min_binding_size: Option<u64>,
    pub count: Option<u32>,
}

/// The bind group for the host to create against `layout`: one entry,
/// which binds `buffer` from `offset` on, for `size` bytes or, without a
/// size, to the end of the buffer.
#[derive(Debug)]
pub struct BindGroupPlan<'a, L, B> {
    pub label: &'static str,
    pub layout: &'a L,
    pub binding: u32,
    pub buffer: &'a B,
    pub offset: u64,
    pub size: Option<u64>,
}

/// `plan` is the layout of the camera binding: a single uniform buffer at
/// binding 0, visible to the vertex and the fragment stage, with no dynamic
/// offset, no minimum size and no array count.
pub open spec fn is_camera_layout(plan: LayoutPlan) -> bool {
    &&& plan.label@ == "CameraBinding::layout"@
    &&& plan.binding == 0
    &&& plan.visibility == ShaderStages { vertex: true, fragment: true, compute: false }
    &&& plan.kind == BufferBindingKind::Uniform
    &&& !plan.has_dynamic_offset
    &&& plan.min_binding_size is None
    &&& plan.count is None
}

/// The fixed layout of the camera binding.
pub fn layout_plan() -> (plan: LayoutPlan)
    ensures
        is_camera_layout(plan),
{
    LayoutPlan {
        label: "CameraBinding::layout",
        binding: 0,
        visibility: ShaderStages { vertex: true, fragment: true, compute: false },
        kind: BufferBindingKind::Uniform,
        has_dynamic_offset: false,
        min_binding_size: None,
        count: None,
    }
}

/// `plan` is the bind group of the camera binding against `layout` for
/// `buffer`: the whole of the buffer at binding 0.
pub open spec fn is_camera_bind_group<L, B>(plan: BindGroupPlan<L, B>, layout: L, buffer: B) -> bool {
    &&& plan.label@ == "CameraBinding::bind_group"@
    &&& *plan.layout == layout
    &&& plan.binding == 0
    &&& *plan.buffer == buffer
    &&& plan.offset == 0
    &&& plan.size is None
}

/// The bind group of the camera binding, against `layout`, for the buffer
/// that `camera_uniform` owns now: the whole buffer at binding 0.
pub fn bind_group_plan<'a, L, B>(layout: &'a L, camera_uniform: &'a CameraUniform<B>) -> (plan:
    BindGroupPlan<'a, L, B>)
    ensures
        is_camera_bind_group(plan, *layout, camera_uniform.spec_buffer()),
{
    BindGroupPlan {
        label: "CameraBinding::bind_group",
        layout,
        binding: 0,
        buffer: camera_uniform.buffer(),
        offset: 0,
        size: None,
    }
}

/// The camera binding: the layout `L` and the bind group `G` that the host
/// created from `layout_plan` and `bind_group_plan`.
pub struct UniformBinding<L, G> {
    pub layout: L,
    pub bind_group: G,
}

impl<L, G> UniformBinding<L, G> {
    /// Takes over the layout and the bind group.
    pub fn new(layout: L, bind_group: G) -> (binding: UniformBinding<L, G>)
        ensures
            binding.layout == layout,
            binding.bind_group == bind_group,
    {
        UniformBinding { layout, bind_group }
    }

    /// The bind group to create anew when the camera uniform has a new
    /// buffer: against the layout kept here, for the buffer that
    /// `camera_uniform` owns now.
    pub fn rebind_plan<'a, B>(&'a self, camera_uniform: &'a CameraUniform<B>) -> (plan:
        BindGroupPlan<'a, L, B>)
        ensures
            is_camera_bind_group(plan, self.layout, camera_uniform.spec_buffer()),
    {
        bind_group_plan(&self.layout, camera_uniform)
    }

    /// Replaces the bind group by the one that the host created from
    /// `rebind_plan`. The layout stays.
    pub fn rebind(&mut self, bind_group: G)
        ensures
            final(self).layout == old(self).layout,
            final(self).bind_group == bind_group,
    {
        self.bind_group = bind_group;
    }
}

} // verus!
