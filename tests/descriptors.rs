use std::rc::Rc;

use d3d12::{
    AlphaMode, Binding, ByteRange, CmdListType, CommandQueueDesc, CommandSignatureDesc,
    CpuPageProperty, D3D12Lib, DescriptorHeapDesc, DescriptorHeapType, DescriptorRange,
    DescriptorRangeType, DiscardRegion, DxgiLib, HeapDesc, HeapProperties, HeapType,
    IndexBufferView, IndirectArgument, MemoryPool, PipelineStateSubobject, Priority, QueryHeapDesc,
    QueryHeapType, Rect, RenderTargetViewDesc, ResourceBarrier, RootParameter, RootParameterKind,
    SampleDesc, Scaling, ShaderVisibility, Subobject, SwapEffect, SwapchainDesc,
    RESOURCE_BARRIER_TYPE_TRANSITION, ROOT_PARAMETER_TYPE_32BIT_CONSTANTS, ROOT_PARAMETER_TYPE_CBV,
    ROOT_PARAMETER_TYPE_DESCRIPTOR_TABLE, ROOT_PARAMETER_TYPE_SRV, ROOT_PARAMETER_TYPE_UAV,
};

#[test]
fn heap_properties_carry_native_values() {
    let p = HeapProperties::new(HeapType::Custom, CpuPageProperty::WriteBack, MemoryPool::L1, 1, 3);
    assert_eq!(p.heap_type, 4);
    assert_eq!(p.cpu_page_property, 3);
    assert_eq!(p.memory_pool_preference, 2);
    assert_eq!(p.creation_node_mask, 1);
    assert_eq!(p.visible_node_mask, 3);
    let d = HeapDesc::new(65536, p, 4096, 0x4);
    assert_eq!(d.size_in_bytes, 65536);
    assert_eq!(d.properties, p);
    assert_eq!(d.alignment, 4096);
    assert_eq!(d.flags, 0x4);
}

#[test]
fn descriptor_range_fields() {
    let r = DescriptorRange::new(DescriptorRangeType::CBV, 8, Binding { space: 2, register: 5 }, 16);
    assert_eq!(r.range_type, 2);
    assert_eq!(r.num_descriptors, 8);
    assert_eq!(r.base_shader_register, 5);
    assert_eq!(r.register_space, 2);
    assert_eq!(r.offset_in_descriptors_from_table_start, 16);
}

#[test]
fn root_parameter_table_keeps_ranges_in_order() {
    let a = DescriptorRange::new(DescriptorRangeType::SRV, 4, Binding { space: 0, register: 0 }, 0);
    let b = DescriptorRange::new(DescriptorRangeType::UAV, 2, Binding { space: 0, register: 1 }, 4);
    let p = RootParameter::descriptor_table(ShaderVisibility::PS, &[a, b]);
    assert_eq!(p.shader_visibility, 5);
    assert_eq!(p.parameter_type(), ROOT_PARAMETER_TYPE_DESCRIPTOR_TABLE);
    assert_eq!(p.kind, RootParameterKind::Table(vec![a, b]));
    let empty = RootParameter::descriptor_table(ShaderVisibility::All, &[]);
    assert_eq!(empty.kind, RootParameterKind::Table(vec![]));
}

#[test]
fn root_parameter_constants() {
    let binding = Binding { space: 1, register: 3 };
    let p = RootParameter::constants(ShaderVisibility::VS, binding, 4);
    assert_eq!(p.shader_visibility, 1);
    assert_eq!(p.parameter_type(), ROOT_PARAMETER_TYPE_32BIT_CONSTANTS);
    assert_eq!(p.kind, RootParameterKind::Constants { binding, num: 4 });
}

#[test]
fn root_parameter_single_descriptors() {
    let binding = Binding { space: 0, register: 7 };
    let cbv = RootParameter::cbv_descriptor(ShaderVisibility::All, binding);
    let srv = RootParameter::srv_descriptor(ShaderVisibility::GS, binding);
    let uav = RootParameter::uav_descriptor(ShaderVisibility::HS, binding);
    assert_eq!(cbv.kind, RootParameterKind::SingleCbv(binding));
    assert_eq!(srv.kind, RootParameterKind::SingleSrv(binding));
    assert_eq!(uav.kind, RootParameterKind::SingleUav(binding));
    assert_eq!(cbv.parameter_type(), 2);
    assert_eq!(srv.parameter_type(), 3);
    assert_eq!(uav.parameter_type(), 4);
    assert_eq!(srv.shader_visibility, 4);
    assert_eq!(uav.shader_visibility, 2);
    assert_eq!(RootParameter::descriptor(ROOT_PARAMETER_TYPE_CBV, ShaderVisibility::All, binding), Some(cbv));
    assert_eq!(
        RootParameter::descriptor(ROOT_PARAMETER_TYPE_SRV, ShaderVisibility::GS, binding),
        Some(srv)
    );
    assert_eq!(
        RootParameter::descriptor(ROOT_PARAMETER_TYPE_UAV, ShaderVisibility::HS, binding),
        Some(uav)
    );
}

#[test]
fn root_parameter_descriptor_rejects_other_tags() {
    let binding = Binding { space: 0, register: 0 };
    assert_eq!(
        RootParameter::descriptor(ROOT_PARAMETER_TYPE_DESCRIPTOR_TABLE, ShaderVisibility::All, binding),
        None
    );
    assert_eq!(
        RootParameter::descriptor(ROOT_PARAMETER_TYPE_32BIT_CONSTANTS, ShaderVisibility::All, binding),
        None
    );
    assert_eq!(RootParameter::descriptor(5, ShaderVisibility::All, binding), None);
    assert_eq!(RootParameter::descriptor(-1, ShaderVisibility::All, binding), None);
}

#[test]
fn render_target_view_texture_2d() {
    let d = RenderTargetViewDesc::texture_2d(28, 1, 0);
    assert_eq!(d.format, 28);
    assert_eq!(d.view_dimension, 4);
    assert_eq!(d.mip_slice, 1);
    assert_eq!(d.plane_slice, 0);
}

#[test]
fn creation_descriptors() {
    let h = DescriptorHeapDesc::new(64, DescriptorHeapType::Rtv, 0, 1);
    assert_eq!((h.heap_type, h.num_descriptors, h.flags, h.node_mask), (2, 64, 0, 1));
    let q = QueryHeapDesc::new(QueryHeapType::Timestamp, 128, 0);
    assert_eq!((q.heap_type, q.count, q.node_mask), (1, 128, 0));
    let c = CommandQueueDesc::new(CmdListType::Compute, Priority::High, 1, 0);
    assert_eq!((c.list_type, c.priority, c.flags, c.node_mask), (2, 100, 1, 0));
}

#[test]
fn indirect_argument_tags() {
    assert_eq!(IndirectArgument::draw().argument_type(), 0);
    assert_eq!(IndirectArgument::draw_indexed().argument_type(), 1);
    assert_eq!(IndirectArgument::dispatch().argument_type(), 2);
    assert_eq!(IndirectArgument::vertex_buffer(3), IndirectArgument::VertexBuffer { slot: 3 });
    assert_eq!(IndirectArgument::vertex_buffer(3).argument_type(), 3);
    let c = IndirectArgument::constant(1, 2, 3);
    assert_eq!(c, IndirectArgument::Constant { root_index: 1, dest_offset_words: 2, count: 3 });
    assert_eq!(c.argument_type(), 5);
    assert_eq!(IndirectArgument::constant_buffer_view(4).argument_type(), 6);
    assert_eq!(IndirectArgument::shader_resource_view(4).argument_type(), 7);
    assert_eq!(IndirectArgument::unordered_access_view(4).argument_type(), 8);
    assert_eq!(
        IndirectArgument::unordered_access_view(9),
        IndirectArgument::UnorderedAccessView { root_index: 9 }
    );
}

#[test]
fn command_signature_desc_counts_arguments() {
    let args = [IndirectArgument::constant(0, 0, 1), IndirectArgument::draw()];
    let d = CommandSignatureDesc::new(&args, 20, 0);
    assert_eq!(d.byte_stride, 20);
    assert_eq!(d.num_argument_descs, 2);
    assert_eq!(d.arguments, args.to_vec());
    assert_eq!(d.node_mask, 0);
}

#[test]
fn index_buffer_view_fields() {
    let v = IndexBufferView::new(0x1000, 256, 42);
    assert_eq!((v.buffer_location, v.size_in_bytes, v.format), (0x1000, 256, 42));
}

#[test]
fn transition_barrier_references_the_same_resource() {
    let resource = Rc::new(17u32);
    let barrier = ResourceBarrier::transition(Rc::clone(&resource), 2, 0x1, 0x4, 0);
    assert_eq!(barrier.barrier_type, RESOURCE_BARRIER_TYPE_TRANSITION);
    assert_eq!(barrier.barrier_type, 0);
    assert!(Rc::ptr_eq(&barrier.transition.resource, &resource));
    assert_eq!(barrier.transition.subresource, 2);
    assert_eq!(barrier.transition.state_before, 0x1);
    assert_eq!(barrier.transition.state_after, 0x4);
    assert_eq!(barrier.flags, 0);
}

#[test]
fn discard_region_rejects_empty_range() {
    let rects = [Rect { left: 0, top: 0, right: 4, bottom: 4 }];
    assert!(DiscardRegion::new(&rects, 3..3).is_none());
    assert!(DiscardRegion::new(&rects, 5..2).is_none());
    assert!(DiscardRegion::new(&[], 0..0).is_none());
}

#[test]
fn discard_region_accepts_non_empty_range() {
    let rects = [
        Rect { left: 0, top: 0, right: 4, bottom: 4 },
        Rect { left: 8, top: 8, right: 16, bottom: 12 },
    ];
    let d = DiscardRegion::new(&rects, 2..5).unwrap();
    assert_eq!(d.rects(), &rects[..]);
    assert_eq!(d.start(), 2);
    assert_eq!(d.end(), 5);
    let n = d.to_native();
    assert_eq!((n.num_rects, n.first_subresource, n.num_subresources), (2, 2, 3));
}

#[test]
fn byte_range_from_range() {
    let r = ByteRange::from_range(16..48);
    assert_eq!((r.begin, r.end), (16, 48));
}

#[test]
fn pipeline_subobject_tag() {
    let s = PipelineStateSubobject::new(Subobject::NodeMask, 1u32);
    assert_eq!(s.subobject_type(), 18);
    assert_eq!(*s.subobject(), 1);
}

fn sample_swapchain() -> SwapchainDesc {
    SwapchainDesc {
        width: 800,
        height: 600,
        format: 87,
        stereo: true,
        sample: SampleDesc { count: 4, quality: 1 },
        buffer_usage: 0x20,
        buffer_count: 3,
        scaling: Scaling::Aspect,
        swap_effect: SwapEffect::FlipDiscard,
        alpha_mode: AlphaMode::Premultiplied,
        flags: 2,
    }
}

#[test]
fn swapchain_desc1_fields() {
    let d = sample_swapchain().to_desc1();
    assert_eq!((d.width, d.height, d.format, d.stereo), (800, 600, 87, 1));
    assert_eq!((d.sample_count, d.sample_quality), (4, 1));
    assert_eq!((d.buffer_usage, d.buffer_count), (0x20, 3));
    assert_eq!((d.scaling, d.swap_effect, d.alpha_mode, d.flags), (2, 4, 1, 2));
    let mono = SwapchainDesc { stereo: false, ..sample_swapchain() }.to_desc1();
    assert_eq!(mono.stereo, 0);
}

#[test]
fn swapchain_legacy_desc_fields() {
    let d = sample_swapchain().to_desc();
    assert_eq!((d.width, d.height), (800, 600));
    assert_eq!((d.refresh_numerator, d.refresh_denominator), (1, 60));
    assert_eq!((d.format, d.scanline_ordering, d.scaling), (87, 0, 0));
    assert_eq!((d.sample_count, d.sample_quality), (4, 1));
    assert_eq!((d.buffer_usage, d.buffer_count, d.windowed), (0x20, 3, 1));
    assert_eq!((d.swap_effect, d.flags), (4, 2));
}

#[test]
fn libraries_open() {
    assert!(D3D12Lib::new().is_ok());
    assert!(DxgiLib::new().is_ok());
}
