use d3d12::{
    AlphaMode, CmdListType, CpuPageProperty, DescriptorHeapType, DescriptorRangeType, FeatureLevel,
    HeapType, MemoryPool, Priority, QueryHeapType, RootSignatureVersion, Scaling, ShaderVisibility,
    StaticBorderColor, Subobject, SwapEffect, WaitResult,
};

fn all_distinct<T: PartialEq + std::fmt::Debug>(values: &[T]) {
    for i in 0..values.len() {
        for j in 0..values.len() {
            if i != j {
                assert_ne!(values[i], values[j], "values {} and {} coincide", i, j);
            }
        }
    }
}

#[test]
fn heap_type_native_values() {
    let v: Vec<i32> = [HeapType::Default, HeapType::Upload, HeapType::Readback, HeapType::Custom]
        .iter()
        .map(|t| t.to_native())
        .collect();
    assert_eq!(v, vec![1, 2, 3, 4]);
    all_distinct(&v);
}

#[test]
fn cpu_page_property_native_values() {
    let v: Vec<i32> = [
        CpuPageProperty::Unknown,
        CpuPageProperty::NotAvailable,
        CpuPageProperty::WriteCombine,
        CpuPageProperty::WriteBack,
    ]
    .iter()
    .map(|t| t.to_native())
    .collect();
    assert_eq!(v, vec![0, 1, 2, 3]);
    all_distinct(&v);
}

#[test]
fn memory_pool_native_values_and_default() {
    let v: Vec<i32> = [MemoryPool::Unknown, MemoryPool::L0, MemoryPool::L1]
        .iter()
        .map(|t| t.to_native())
        .collect();
    assert_eq!(v, vec![0, 1, 2]);
    all_distinct(&v);
    assert_eq!(MemoryPool::default(), MemoryPool::Unknown);
}

#[test]
fn descriptor_heap_type_native_values() {
    let v: Vec<i32> = [
        DescriptorHeapType::CbvSrvUav,
        DescriptorHeapType::Sampler,
        DescriptorHeapType::Rtv,
        DescriptorHeapType::Dsv,
    ]
    .iter()
    .map(|t| t.to_native())
    .collect();
    assert_eq!(v, vec![0, 1, 2, 3]);
    all_distinct(&v);
}

#[test]
fn descriptor_range_type_native_values() {
    let v: Vec<i32> = [
        DescriptorRangeType::SRV,
        DescriptorRangeType::UAV,
        DescriptorRangeType::CBV,
        DescriptorRangeType::Sampler,
    ]
    .iter()
    .map(|t| t.to_native())
    .collect();
    assert_eq!(v, vec![0, 1, 2, 3]);
    all_distinct(&v);
}

#[test]
fn shader_visibility_native_values() {
    let v: Vec<i32> = [
        ShaderVisibility::All,
        ShaderVisibility::VS,
        ShaderVisibility::DS,
        ShaderVisibility::HS,
        ShaderVisibility::GS,
        ShaderVisibility::PS,
    ]
    .iter()
    .map(|t| t.to_native())
    .collect();
    // vertex 1, domain 3, hull 2, geometry 4, pixel 5
    assert_eq!(v, vec![0, 1, 3, 2, 4, 5]);
    all_distinct(&v);
}

#[test]
fn static_border_color_native_values() {
    let v: Vec<i32> = [
        StaticBorderColor::TransparentBlack,
        StaticBorderColor::OpaqueBlack,
        StaticBorderColor::OpaqueWhite,
    ]
    .iter()
    .map(|t| t.to_native())
    .collect();
    assert_eq!(v, vec![0, 1, 2]);
    all_distinct(&v);
}

#[test]
fn root_signature_version_native_values() {
    assert_eq!(RootSignatureVersion::V1_0.to_native(), 1);
    assert_eq!(RootSignatureVersion::V1_1.to_native(), 2);
}

#[test]
fn cmd_list_type_native_values() {
    let v: Vec<i32> = [CmdListType::Direct, CmdListType::Bundle, CmdListType::Compute, CmdListType::Copy]
        .iter()
        .map(|t| t.to_native())
        .collect();
    assert_eq!(v, vec![0, 1, 2, 3]);
    all_distinct(&v);
}

#[test]
fn scaling_native_values() {
    let v: Vec<i32> = [Scaling::Stretch, Scaling::Identity, Scaling::Aspect]
        .iter()
        .map(|t| t.to_native())
        .collect();
    assert_eq!(v, vec![0, 1, 2]);
    all_distinct(&v);
}

#[test]
fn swap_effect_native_values() {
    let v: Vec<i32> = [
        SwapEffect::Discard,
        SwapEffect::Sequential,
        SwapEffect::FlipDiscard,
        SwapEffect::FlipSequential,
    ]
    .iter()
    .map(|t| t.to_native())
    .collect();
    assert_eq!(v, vec![0, 1, 4, 3]);
    all_distinct(&v);
}

#[test]
fn alpha_mode_native_values() {
    let v: Vec<u32> = [
        AlphaMode::Unspecified,
        AlphaMode::Premultiplied,
        AlphaMode::Straight,
        AlphaMode::Ignore,
        AlphaMode::ForceDword,
    ]
    .iter()
    .map(|t| t.to_native())
    .collect();
    assert_eq!(v, vec![0, 1, 2, 3, 0xffff_ffff]);
    all_distinct(&v);
}

#[test]
fn query_heap_type_native_values() {
    let v: Vec<i32> = [
        QueryHeapType::Occlusion,
        QueryHeapType::Timestamp,
        QueryHeapType::PipelineStatistics,
        QueryHeapType::SOStatistics,
    ]
    .iter()
    .map(|t| t.to_native())
    .collect();
    assert_eq!(v, vec![0, 1, 2, 3]);
    all_distinct(&v);
}

#[test]
fn priority_native_values() {
    let v: Vec<i32> = [Priority::Normal, Priority::High, Priority::GlobalRealtime]
        .iter()
        .map(|t| t.to_native())
        .collect();
    assert_eq!(v, vec![0, 100, 10000]);
    all_distinct(&v);
}

#[test]
fn subobject_native_values() {
    let all = [
        Subobject::RootSignature,
        Subobject::VS,
        Subobject::PS,
        Subobject::DS,
        Subobject::HS,
        Subobject::GS,
        Subobject::CS,
        Subobject::StreamOutput,
        Subobject::Blend,
        Subobject::SampleMask,
        Subobject::Rasterizer,
        Subobject::DepthStencil,
        Subobject::InputLayout,
        Subobject::IBStripCut,
        Subobject::PrimitiveTopology,
        Subobject::RTFormats,
        Subobject::DSFormat,
        Subobject::SampleDesc,
        Subobject::NodeMask,
        Subobject::CachedPSO,
        Subobject::Flags,
        Subobject::DepthStencil1,
    ];
    let v: Vec<i32> = all.iter().map(|t| t.to_native()).collect();
    let expected: Vec<i32> = (0..22).collect();
    assert_eq!(v, expected);
    all_distinct(&v);
}

fn all_feature_levels() -> Vec<FeatureLevel> {
    vec![
        FeatureLevel::L9_1,
        FeatureLevel::L9_2,
        FeatureLevel::L9_3,
        FeatureLevel::L10_0,
        FeatureLevel::L10_1,
        FeatureLevel::L11_0,
        FeatureLevel::L11_1,
        FeatureLevel::L12_0,
        FeatureLevel::L12_1,
    ]
}

#[test]
fn feature_level_native_values() {
    let v: Vec<i32> = all_feature_levels().iter().map(|l| l.to_native()).collect();
    assert_eq!(
        v,
        vec![0x9100, 0x9200, 0x9300, 0xa000, 0xa100, 0xb000, 0xb100, 0xc000, 0xc100]
    );
    all_distinct(&v);
}

#[test]
fn feature_level_round_trip() {
    for level in all_feature_levels() {
        assert_eq!(FeatureLevel::try_from_native(level.to_native()), Ok(level));
    }
}

#[test]
fn feature_level_rejects_unknown_values() {
    assert_eq!(FeatureLevel::try_from_native(0), Err(()));
    // 12_2 exists natively but has no variant here
    assert_eq!(FeatureLevel::try_from_native(0xc200), Err(()));
    assert_eq!(FeatureLevel::try_from_native(-1), Err(()));
}

#[test]
fn wait_result_from_code() {
    assert_eq!(WaitResult::from_code(0), WaitResult::Signaled);
    assert_eq!(WaitResult::from_code(0x102), WaitResult::Timeout);
    assert_eq!(WaitResult::from_code(0xffff_ffff), WaitResult::Failed);
    assert_eq!(WaitResult::from_code(0x80), WaitResult::Failed);
}
