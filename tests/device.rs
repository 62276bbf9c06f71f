use zluda::device::{
    get_attribute, get_luid, get_name, get_uuid, primary_ctx_get_state, primary_ctx_release_v2,
    total_mem_v2, ComputeProperties, ContextRef, DeviceAttribute, DeviceProperties,
    ImageProperties, Index, MemoryProperties, OnceCache,
};
use zluda::error::CuError;
use zluda::state::GlobalState;

fn two_devices() -> GlobalState {
    GlobalState::init(&vec![10, 20])
}

#[test]
fn device_count_matches_backend() {
    let s = two_devices();
    assert_eq!(s.get_count(), 2);
    assert_eq!(GlobalState::init(&vec![]).get_count(), 0);
}

#[test]
fn get_device_bounds() {
    let s = two_devices();
    assert_eq!(s.get(0), Ok(Index(0)));
    assert_eq!(s.get(1), Ok(Index(1)));
    assert_eq!(s.get(2), Err(CuError::InvalidValue));
    assert_eq!(s.get(-1), Err(CuError::InvalidValue));
    assert_eq!(s.get(i32::MAX), Err(CuError::InvalidValue));
    assert_eq!(s.get(i32::MIN), Err(CuError::InvalidValue));
}

#[test]
fn device_table_binds_primary_contexts() {
    let s = two_devices();
    let d = s.device(Index(1)).unwrap();
    assert_eq!(d.index, Index(1));
    assert_eq!(d.base, 20);
    assert_eq!(d.primary_context.device, 1);
    assert!(d.primary_context.is_primary);
    assert!(s.device(Index(2)).is_err());
    assert_eq!(s.device(Index(-1)).err(), Some(CuError::InvalidDevice));
}

#[test]
fn primary_ctx_default_inactive() {
    let s = two_devices();
    for i in 0..s.get_count() {
        assert_eq!(primary_ctx_get_state(Index(i)), Ok((0, 0)));
    }
}

#[test]
fn primary_ctx_retain_gives_device_context() {
    let s = two_devices();
    assert_eq!(s.primary_ctx_retain(Index(1)), Ok(ContextRef::Primary(1)));
    assert_eq!(s.primary_ctx_retain(Index(2)), Err(CuError::InvalidDevice));
    assert_eq!(primary_ctx_release_v2(Index(0)), Ok(()));
}

#[test]
fn static_attributes() {
    assert_eq!(get_attribute(DeviceAttribute::GpuOverlap, Index(0)), Ok(1));
    assert_eq!(get_attribute(DeviceAttribute::KernelExecTimeout, Index(0)), Ok(1));
    assert_eq!(get_attribute(DeviceAttribute::Integrated, Index(0)), Ok(1));
    assert_eq!(get_attribute(DeviceAttribute::CanMapHostMemory, Index(0)), Ok(1));
    assert_eq!(get_attribute(DeviceAttribute::ComputeCapabilityMajor, Index(0)), Ok(8));
    assert_eq!(get_attribute(DeviceAttribute::ComputeCapabilityMinor, Index(0)), Ok(0));
    assert_eq!(get_attribute(DeviceAttribute::Other(1), Index(0)), Err(CuError::NotSupported));
}

#[test]
fn attribute_codes() {
    assert_eq!(DeviceAttribute::from_raw(15), DeviceAttribute::GpuOverlap);
    assert_eq!(DeviceAttribute::from_raw(75), DeviceAttribute::ComputeCapabilityMajor);
    assert_eq!(DeviceAttribute::from_raw(76), DeviceAttribute::ComputeCapabilityMinor);
    assert_eq!(DeviceAttribute::from_raw(1), DeviceAttribute::Other(1));
}

#[test]
fn placeholder_queries() {
    assert_eq!(get_name(64, Index(0)), Err(CuError::InvalidValue));
    assert_eq!(total_mem_v2(Index(0)), Err(CuError::InvalidValue));
    assert_eq!(get_uuid(Index(0)), Ok(vec![0u8; 16]));
    assert_eq!(get_luid(Index(0)), Ok((vec![0u8; 8], 0)));
}

#[test]
fn once_cache_keeps_first_value() {
    let mut c: OnceCache<u32> = OnceCache::new();
    assert_eq!(c.get(), None);
    c.fill(3);
    c.fill(4);
    assert_eq!(c.get(), Some(&3));
}

fn compute(sizes: Vec<u32>) -> ComputeProperties {
    ComputeProperties {
        max_total_group_size: 1024,
        max_group_size_x: 1024,
        max_group_size_y: 1024,
        max_group_size_z: 64,
        max_group_count_x: 65535,
        max_group_count_y: 65535,
        max_group_count_z: 65535,
        max_shared_local_memory: 65536,
        sub_group_sizes: sizes,
    }
}

#[test]
fn max_simd_from_cached_compute_properties() {
    let mut s = GlobalState::init(&vec![7]);
    assert_eq!(s.device(Index(0)).unwrap().get_max_simd(), None);
    assert_eq!(s.cache_compute_properties(Index(0), compute(vec![8, 32, 16])), Ok(()));
    assert_eq!(s.device(Index(0)).unwrap().get_max_simd(), Some(32));
    assert_eq!(s.cache_compute_properties(Index(0), compute(vec![64])), Ok(()));
    assert_eq!(s.device(Index(0)).unwrap().get_max_simd(), Some(32));
}

fn general(clock: u32) -> DeviceProperties {
    DeviceProperties {
        vendor_id: 0x8086,
        device_id: 0x4905,
        core_clock_rate: clock,
        max_mem_alloc_size: 1 << 32,
        num_threads_per_eu: 7,
        physical_eu_simd_width: 8,
        num_eus_per_subslice: 16,
        num_subslices_per_slice: 6,
        num_slices: 1,
    }
}

fn image(dims: u32) -> ImageProperties {
    ImageProperties {
        max_image_dims_1d: dims,
        max_image_dims_2d: dims,
        max_image_dims_3d: 2048,
        max_image_buffer_size: 1 << 27,
        max_image_array_slices: 2048,
        max_samplers: 16,
    }
}

#[test]
fn device_getters_query_backend_once() {
    let mut s = GlobalState::init(&vec![3]);
    let i = Index(0);
    assert!(s.device(i).unwrap().properties().is_none());
    assert_eq!(s.cache_properties(i, general(1500)), Ok(()));
    assert_eq!(s.cache_properties(i, general(900)), Ok(()));
    assert_eq!(s.device(i).unwrap().properties().map(|p| p.core_clock_rate), Some(1500));
    assert_eq!(s.cache_image_properties(i, image(16384)), Ok(()));
    assert_eq!(s.cache_image_properties(i, image(1)), Ok(()));
    assert_eq!(s.device(i).unwrap().image_properties().map(|p| p.max_image_dims_1d), Some(16384));
    let mem = vec![MemoryProperties { max_clock_rate: 2000, max_bus_width: 64, total_size: 1 << 33 }];
    assert_eq!(s.cache_memory_properties(i, mem), Ok(()));
    assert_eq!(s.cache_memory_properties(i, vec![]), Ok(()));
    assert_eq!(s.device(i).unwrap().memory_properties().map(|m| m.len()), Some(1));
    assert_eq!(s.cache_compute_properties(i, compute(vec![8, 16])), Ok(()));
    assert_eq!(s.cache_compute_properties(i, compute(vec![32])), Ok(()));
    assert_eq!(
        s.device(i).unwrap().compute_properties().map(|c| c.sub_group_sizes.clone()),
        Some(vec![8, 16])
    );
    let d = s.device(i).unwrap();
    assert_eq!(d.default_queue, 0);
    assert_eq!(d.l0_context, 0);
}

#[test]
fn state_caches_per_device() {
    let mut s = two_devices();
    assert_eq!(s.get_max_simd(Index(1)), Ok(None));
    assert_eq!(s.cache_compute_properties(Index(1), compute(vec![16, 8])), Ok(()));
    assert_eq!(s.cache_compute_properties(Index(1), compute(vec![64])), Ok(()));
    assert_eq!(s.get_max_simd(Index(1)), Ok(Some(16)));
    assert_eq!(s.get_max_simd(Index(0)), Ok(None));
    assert_eq!(s.get_max_simd(Index(2)), Err(CuError::InvalidDevice));
    assert_eq!(s.cache_compute_properties(Index(2), compute(vec![8])), Err(CuError::InvalidDevice));
    assert_eq!(s.cache_properties(Index(0), general(1200)), Ok(()));
    assert_eq!(s.cache_properties(Index(0), general(100)), Ok(()));
    assert_eq!(s.device(Index(0)).unwrap().properties.get().map(|p| p.core_clock_rate), Some(1200));
    assert_eq!(s.cache_image_properties(Index(0), image(8)), Ok(()));
    assert_eq!(s.cache_memory_properties(Index(0), vec![]), Ok(()));
    assert!(s.device(Index(0)).unwrap().memory_properties.get().is_some());
    assert!(s.device(Index(1)).unwrap().image_properties.get().is_none());
}
