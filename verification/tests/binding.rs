use framework::binding::{bind_group_plan, layout_plan, BufferBindingKind, ShaderStages, UniformBinding};
use framework::uniform::CameraUniform;

#[test]
fn layout_is_one_uniform_buffer_for_vertex_and_fragment() {
    let plan = layout_plan();
    assert_eq!(plan.label, "CameraBinding::layout");
    assert_eq!(plan.binding, 0);
    assert_eq!(plan.visibility, ShaderStages { vertex: true, fragment: true, compute: false });
    assert_eq!(plan.kind, BufferBindingKind::Uniform);
    assert!(!plan.has_dynamic_offset);
    assert_eq!(plan.min_binding_size, None);
    assert_eq!(plan.count, None);
}

#[test]
fn layout_is_the_same_every_time() {
    assert_eq!(layout_plan(), layout_plan());
}

#[test]
fn bind_group_points_at_the_buffer_of_the_camera_uniform() {
    let uniform = CameraUniform::new(String::from("uniform buffer"));
    let layout = String::from("layout");
    let plan = bind_group_plan(&layout, &uniform);
    assert_eq!(plan.label, "CameraBinding::bind_group");
    assert_eq!(plan.binding, 0);
    assert!(std::ptr::eq(plan.buffer, uniform.buffer()));
    assert_eq!(plan.buffer, "uniform buffer");
    assert!(std::ptr::eq(plan.layout, &layout));
    assert_eq!(plan.offset, 0);
    assert_eq!(plan.size, None);
}

#[test]
fn bind_group_follows_a_new_buffer() {
    let first = CameraUniform::new(1u32);
    let second = CameraUniform::new(2u32);
    assert_eq!(*bind_group_plan(&"layout", &first).buffer, 1);
    assert_eq!(*bind_group_plan(&"layout", &second).buffer, 2);
}

#[test]
fn rebind_plan_reuses_the_layout_for_the_new_buffer() {
    let first = CameraUniform::new(1u32);
    let second = CameraUniform::new(2u32);
    let layout = String::from("layout");
    let group = bind_group_plan(&layout, &first).buffer.to_string();
    let mut binding = UniformBinding::new(layout, group);
    assert_eq!(binding.bind_group, "1");
    let plan = binding.rebind_plan(&second);
    assert!(std::ptr::eq(plan.layout, &binding.layout));
    assert!(std::ptr::eq(plan.buffer, second.buffer()));
    assert_eq!(plan.label, "CameraBinding::bind_group");
    assert_eq!((plan.binding, plan.offset, plan.size), (0, 0, None));
    let group = plan.buffer.to_string();
    binding.rebind(group);
    assert_eq!(binding.bind_group, "2");
    assert_eq!(binding.layout, "layout");
}

#[test]
fn new_binding_keeps_layout_and_bind_group() {
    let binding = UniformBinding::new("layout", 1u32);
    assert_eq!(binding.layout, "layout");
    assert_eq!(binding.bind_group, 1);
}

#[test]
fn rebind_replaces_the_bind_group_and_keeps_the_layout() {
    let mut binding = UniformBinding::new("layout", 1u32);
    binding.rebind(2);
    assert_eq!(binding.layout, "layout");
    assert_eq!(binding.bind_group, 2);
    binding.rebind(3);
    assert_eq!(binding.layout, "layout");
    assert_eq!(binding.bind_group, 3);
}
