use crate::error::CuError;
use vstd::prelude::*;

verus! {

/// A device ordinal.
#[derive(Clone, Copy, Debug, PartialEq, Eq, Hash, Structural)]
pub struct Index(pub i32);

/// Where a context is bound: the primary context of a device, or a context
/// created explicitly.
#[derive(Clone, Copy, Debug, PartialEq, Eq, Structural)]
pub enum ContextRef {
    Primary(usize),
    Created(crate::handle::Handle),
}

/// Execution state bound to one device, by its position in the device table.
#[derive(Clone, Copy, Debug, PartialEq, Eq, Structural)]
pub struct ContextData {
    pub device: usize,
    pub flags: u32,
    pub is_primary: bool,
}

impl ContextData {
    pub fn new(device: usize, flags: u32, is_primary: bool) -> (r: Self)
        ensures
            r == (ContextData { device, flags, is_primary }),
    {
        ContextData { device, flags, is_primary }
    }

    /// Teardown hook run before a context handle is destroyed.
    pub fn try_drop(&mut self) -> (r: Result<(), CuError>)
        ensures
            r is Ok,
            *final(self) == *old(self),
    {
        Ok(())
    }
}

/// A slot that is filled at most once and keeps its first value.
pub struct OnceCache<T> {
    value: Option<T>,
}

impl<T> OnceCache<T> {
    pub closed spec fn view(&self) -> Option<T> {
        self.value
    }

    pub fn new() -> (r: Self)
        ensures
            r@ is None,
    {
        OnceCache { value: None }
    }

    /// The cached value, if the slot was filled.
    pub fn get(&self) -> (r: Option<&T>)
        ensures
            r is None <==> self@ is None,
            r matches Some(v) ==> self@ == Some(*v),
    {
        match &self.value {
            Some(v) => Some(v),
            None => None,
        }
    }

    /// The cached value, after filling an empty slot with `fetched`.
    pub fn get_or_insert(&mut self, fetched: T) -> (r: &T)
        ensures
            final(self)@ == Some(*r),
            *r == if old(self)@ is Some {
                old(self)@->Some_0
            } else {
                fetched
            },
    {
        if self.value.is_none() {
            self.value = Some(fetched);
        }
        self.value.as_ref().unwrap()
    }

    /// Fills an empty slot with `fetched`; a filled slot keeps its value.
    pub fn fill(&mut self, fetched: T)
        ensures
            final(self)@ == if old(self)@ is Some {
                old(self)@
            } else {
                Some(fetched)
            },
    {
        if self.value.is_none() {
            self.value = Some(fetched);
        }
    }
}

/// General properties of a device.
#[derive(Clone, Copy, Debug, PartialEq, Eq)]
pub struct DeviceProperties {
    pub vendor_id: u32,
    pub device_id: u32,
    pub core_clock_rate: u32,
    pub max_mem_alloc_size: u64,
    pub num_threads_per_eu: u32,
    pub physical_eu_simd_width: u32,
    pub num_eus_per_subslice: u32,
    pub num_subslices_per_slice: u32,
    pub num_slices: u32,
}

/// Image limits of a device.
#[derive(Clone, Copy, Debug, PartialEq, Eq)]
pub struct ImageProperties {
    pub max_image_dims_1d: u32,
    pub max_image_dims_2d: u32,
    pub max_image_dims_3d: u32,
    pub max_image_buffer_size: u64,
    pub max_image_array_slices: u32,
    pub max_samplers: u32,
}

/// One memory of a device.
#[derive(Clone, Copy, Debug, PartialEq, Eq)]
pub struct MemoryProperties {
    pub max_clock_rate: u32,
    pub max_bus_width: u32,
    pub total_size: u64,
}

/// Compute limits of a device.
#[derive(Debug, PartialEq, Eq)]
pub struct ComputeProperties {
    pub max_total_group_size: u32,
    pub max_group_size_x: u32,
    pub max_group_size_y: u32,
    pub max_group_size_z: u32,
    pub max_group_count_x: u32,
    pub max_group_count_y: u32,
    pub max_group_count_z: u32,
    pub max_shared_local_memory: u32,
    pub sub_group_sizes: Vec<u32>,
}

impl ComputeProperties {
    /// The largest supported sub-group size.
    pub fn max_sub_group_size(&self) -> (r: u32)
        requires
            self.sub_group_sizes@.len() > 0,
        ensures
            exists|i: int| 0 <= i < self.sub_group_sizes@.len() && self.sub_group_sizes@[i] == r,
            forall|i: int| 0 <= i < self.sub_group_sizes@.len() ==> self.sub_group_sizes@[i] <= r,
    {
        let s = &self.sub_group_sizes;
        let mut best: u32 = s[0];
        let mut i: usize = 1;
        while i < s.len()
            invariant
                1 <= i <= s@.len(),
                exists|k: int| 0 <= k < i && s@[k] == best,
                forall|k: int| 0 <= k < i ==> s@[k] <= best,
            decreases s@.len() - i,
        {
            if s[i] > best {
                best = s[i];
            }
            i = i + 1;
        }
        best
    }
}

/// One device of the backend, with its primary context and its capability
/// caches, each filled at most once. Devices are made and filled only by the
/// global state, which hands out shared references to them.
pub struct Device {
    pub index: Index,
    pub base: u32,
    pub default_queue: u32,
    pub l0_context: u32,
    pub primary_context: ContextData,
    pub properties: OnceCache<DeviceProperties>,
    pub image_properties: OnceCache<ImageProperties>,
    pub memory_properties: OnceCache<Vec<MemoryProperties>>,
    pub compute_properties: OnceCache<ComputeProperties>,
}

impl Device {
    /// A device at position `idx` of the table, whose primary context is
    /// bound to that same position.
    pub(crate) fn new(base: u32, idx: usize) -> (r: Self)
        requires
            idx <= i32::MAX,
        ensures
            r.index == Index(idx as i32),
            r.base == base,
            r.default_queue == 0,
            r.l0_context == 0,
            r.primary_context == (ContextData { device: idx, flags: 0, is_primary: true }),
            r.cached_properties() is None,
            r.cached_image_properties() is None,
            r.cached_memory_properties() is None,
            r.cached_compute_properties() is None,
    {
        Device {
            index: Index(idx as i32),
            base,
            default_queue: 0,
            l0_context: 0,
            primary_context: ContextData::new(idx, 0, true),
            properties: OnceCache::new(),
            image_properties: OnceCache::new(),
            memory_properties: OnceCache::new(),
            compute_properties: OnceCache::new(),
        }
    }

    /// The general properties cached so far, if any.
    pub open spec fn cached_properties(&self) -> Option<DeviceProperties> {
        self.properties@
    }

    /// The general properties cached so far, if any, without querying the backend.
    pub fn properties(&self) -> (r: Option<&DeviceProperties>)
        ensures
            r is None <==> self.cached_properties() is None,
            r matches Some(v) ==> self.cached_properties() == Some(*v),
    {
        self.properties.get()
    }

    /// The image properties cached so far, if any.
    pub open spec fn cached_image_properties(&self) -> Option<ImageProperties> {
        self.image_properties@
    }

    /// The image properties cached so far, if any, without querying the backend.
    pub fn image_properties(&self) -> (r: Option<&ImageProperties>)
        ensures
            r is None <==> self.cached_image_properties() is None,
            r matches Some(v) ==> self.cached_image_properties() == Some(*v),
    {
        self.image_properties.get()
    }

    /// The memory properties cached so far, if any.
    pub open spec fn cached_memory_properties(&self) -> Option<Vec<MemoryProperties>> {
        self.memory_properties@
    }

    /// The memory properties cached so far, if any, without querying the backend.
    pub fn memory_properties(&self) -> (r: Option<&Vec<MemoryProperties>>)
        ensures
            r is None <==> self.cached_memory_properties() is None,
            r matches Some(v) ==> self.cached_memory_properties() == Some(*v),
    {
        self.memory_properties.get()
    }

    /// The compute properties cached so far, if any.
    pub open spec fn cached_compute_properties(&self) -> Option<ComputeProperties> {
        self.compute_properties@
    }

    /// The compute properties cached so far, if any, without querying the backend.
    pub fn compute_properties(&self) -> (r: Option<&ComputeProperties>)
        ensures
            r is None <==> self.cached_compute_properties() is None,
            r matches Some(v) ==> self.cached_compute_properties() == Some(*v),
    {
        self.compute_properties.get()
    }

    /// The cached general properties, fetched from the backend on the first query only.
    pub(crate) fn get_properties(&mut self, fetched: DeviceProperties) -> (r: &DeviceProperties)
        ensures
            final(self).cached_properties() == Some(*r),
            *r == if old(self).cached_properties() is Some {
                old(self).cached_properties()->Some_0
            } else {
                fetched
            },
            final(self).index == old(self).index,
            final(self).base == old(self).base,
            final(self).default_queue == old(self).default_queue,
            final(self).l0_context == old(self).l0_context,
            final(self).primary_context == old(self).primary_context,
            final(self).cached_image_properties() == old(self).cached_image_properties(),
            final(self).cached_memory_properties() == old(self).cached_memory_properties(),
            final(self).cached_compute_properties() == old(self).cached_compute_properties(),
    {
        self.properties.get_or_insert(fetched)
    }

    /// The cached image properties, fetched from the backend on the first query only.
    pub(crate) fn get_image_properties(&mut self, fetched: ImageProperties) -> (r: &ImageProperties)
        ensures
            final(self).cached_image_properties() == Some(*r),
            *r == if old(self).cached_image_properties() is Some {
                old(self).cached_image_properties()->Some_0
            } else {
                fetched
            },
            final(self).index == old(self).index,
            final(self).base == old(self).base,
            final(self).default_queue == old(self).default_queue,
            final(self).l0_context == old(self).l0_context,
            final(self).primary_context == old(self).primary_context,
            final(self).cached_properties() == old(self).cached_properties(),
            final(self).cached_memory_properties() == old(self).cached_memory_properties(),
            final(self).cached_compute_properties() == old(self).cached_compute_properties(),
    {
        self.image_properties.get_or_insert(fetched)
    }

    /// The cached memory properties, fetched from the backend on the first query only.
    pub(crate) fn get_memory_properties(&mut self, fetched: Vec<MemoryProperties>) -> (r: &Vec<MemoryProperties>)
        ensures
            final(self).cached_memory_properties() == Some(*r),
            *r == if old(self).cached_memory_properties() is Some {
                old(self).cached_memory_properties()->Some_0
            } else {
                fetched
            },
            final(self).index == old(self).index,
            final(self).base == old(self).base,
            final(self).default_queue == old(self).default_queue,
            final(self).l0_context == old(self).l0_context,
            final(self).primary_context == old(self).primary_context,
            final(self).cached_properties() == old(self).cached_properties(),
            final(self).cached_image_properties() == old(self).cached_image_properties(),
            final(self).cached_compute_properties() == old(self).cached_compute_properties(),
    {
        self.memory_properties.get_or_insert(fetched)
    }

    /// The cached compute properties, fetched from the backend on the first query only.
    pub(crate) fn get_compute_properties(&mut self, fetched: ComputeProperties) -> (r: &ComputeProperties)
        ensures
            final(self).cached_compute_properties() == Some(*r),
            *r == if old(self).cached_compute_properties() is Some {
                old(self).cached_compute_properties()->Some_0
            } else {
                fetched
            },
            final(self).index == old(self).index,
            final(self).base == old(self).base,
            final(self).default_queue == old(self).default_queue,
            final(self).l0_context == old(self).l0_context,
            final(self).primary_context == old(self).primary_context,
            final(self).cached_properties() == old(self).cached_properties(),
            final(self).cached_image_properties() == old(self).cached_image_properties(),
            final(self).cached_memory_properties() == old(self).cached_memory_properties(),
    {
        self.compute_properties.get_or_insert(fetched)
    }

    /// The widest SIMD width of the device: its largest sub-group size, once
    /// the compute properties are cached.
    pub fn get_max_simd(&self) -> (r: Option<u32>)
        requires
            self.cached_compute_properties() matches Some(p) ==> p.sub_group_sizes@.len() > 0,
        ensures
            r is None <==> self.cached_compute_properties() is None,
            r matches Some(m) ==> {
                let s = self.cached_compute_properties()->Some_0.sub_group_sizes@;
                &&& exists|i: int| 0 <= i < s.len() && s[i] == m
                &&& forall|i: int| 0 <= i < s.len() ==> s[i] <= m
            },
    {
        match self.compute_properties.get() {
            Some(p) => Some(p.max_sub_group_size()),
            None => None,
        }
    }
}

/// The device attributes that have a fixed answer, and every other one.
#[derive(Clone, Copy, Debug, PartialEq, Eq, Structural)]
pub enum DeviceAttribute {
    GpuOverlap,
    KernelExecTimeout,
    Integrated,
    CanMapHostMemory,
    ComputeCapabilityMajor,
    ComputeCapabilityMinor,
    Other(u32),
}

pub const CU_DEVICE_ATTRIBUTE_GPU_OVERLAP: u32 = 15;
pub const CU_DEVICE_ATTRIBUTE_KERNEL_EXEC_TIMEOUT: u32 = 17;
pub const CU_DEVICE_ATTRIBUTE_INTEGRATED: u32 = 18;
pub const CU_DEVICE_ATTRIBUTE_CAN_MAP_HOST_MEMORY: u32 = 19;
pub const CU_DEVICE_ATTRIBUTE_COMPUTE_CAPABILITY_MAJOR: u32 = 75;
pub const CU_DEVICE_ATTRIBUTE_COMPUTE_CAPABILITY_MINOR: u32 = 76;

/// The fixed value of an attribute, if it has one.
pub open spec fn static_value(a: DeviceAttribute) -> Option<i32> {
    match a {
        DeviceAttribute::GpuOverlap => Some(1),
        DeviceAttribute::KernelExecTimeout => Some(1),
        DeviceAttribute::Integrated => Some(1),
        DeviceAttribute::CanMapHostMemory => Some(1),
        DeviceAttribute::ComputeCapabilityMajor => Some(8),
        DeviceAttribute::ComputeCapabilityMinor => Some(0),
        DeviceAttribute::Other(_) => None,
    }
}

impl DeviceAttribute {
    /// The attribute with the given driver code.
    pub fn from_raw(code: u32) -> (r: Self)
        ensures
            code == CU_DEVICE_ATTRIBUTE_GPU_OVERLAP ==> r == DeviceAttribute::GpuOverlap,
            code == CU_DEVICE_ATTRIBUTE_KERNEL_EXEC_TIMEOUT ==> r == DeviceAttribute::KernelExecTimeout,
            code == CU_DEVICE_ATTRIBUTE_INTEGRATED ==> r == DeviceAttribute::Integrated,
            code == CU_DEVICE_ATTRIBUTE_CAN_MAP_HOST_MEMORY ==> r == DeviceAttribute::CanMapHostMemory,
            code == CU_DEVICE_ATTRIBUTE_COMPUTE_CAPABILITY_MAJOR ==> r
                == DeviceAttribute::ComputeCapabilityMajor,
            code == CU_DEVICE_ATTRIBUTE_COMPUTE_CAPABILITY_MINOR ==> r
                == DeviceAttribute::ComputeCapabilityMinor,
            !(code == CU_DEVICE_ATTRIBUTE_GPU_OVERLAP || code == CU_DEVICE_ATTRIBUTE_KERNEL_EXEC_TIMEOUT
                || code == CU_DEVICE_ATTRIBUTE_INTEGRATED || code
                == CU_DEVICE_ATTRIBUTE_CAN_MAP_HOST_MEMORY || code
                == CU_DEVICE_ATTRIBUTE_COMPUTE_CAPABILITY_MAJOR || code
                == CU_DEVICE_ATTRIBUTE_COMPUTE_CAPABILITY_MINOR) ==> r == DeviceAttribute::Other(code),
    {
        if code == CU_DEVICE_ATTRIBUTE_GPU_OVERLAP {
            DeviceAttribute::GpuOverlap
        } else if code == CU_DEVICE_ATTRIBUTE_KERNEL_EXEC_TIMEOUT {
            DeviceAttribute::KernelExecTimeout
        } else if code == CU_DEVICE_ATTRIBUTE_INTEGRATED {
            DeviceAttribute::Integrated
        } else if code == CU_DEVICE_ATTRIBUTE_CAN_MAP_HOST_MEMORY {
            DeviceAttribute::CanMapHostMemory
        } else if code == CU_DEVICE_ATTRIBUTE_COMPUTE_CAPABILITY_MAJOR {
            DeviceAttribute::ComputeCapabilityMajor
        } else if code == CU_DEVICE_ATTRIBUTE_COMPUTE_CAPABILITY_MINOR {
            DeviceAttribute::ComputeCapabilityMinor
        } else {
            DeviceAttribute::Other(code)
        }
    }

    /// The fixed value of the attribute, if it has one.
    pub fn get_static_value(self) -> (r: Option<i32>)
        ensures
            r == static_value(self),
    {
        match self {
            DeviceAttribute::GpuOverlap => Some(1),
            DeviceAttribute::KernelExecTimeout => Some(1),
            DeviceAttribute::Integrated => Some(1),
            DeviceAttribute::CanMapHostMemory => Some(1),
            DeviceAttribute::ComputeCapabilityMajor => Some(8),
            DeviceAttribute::ComputeCapabilityMinor => Some(0),
            DeviceAttribute::Other(_) => None,
        }
    }
}

/// Device names are not mapped yet: always an invalid value.
pub fn get_name(len: i32, dev_idx: Index) -> (r: Result<Vec<u8>, CuError>)
    ensures
        r == Err::<Vec<u8>, CuError>(CuError::InvalidValue),
{
    Err(CuError::InvalidValue)
}

/// Total memory is not mapped yet: always an invalid value.
pub fn total_mem_v2(dev_idx: Index) -> (r: Result<usize, CuError>)
    ensures
        r == Err::<usize, CuError>(CuError::InvalidValue),
{
    Err(CuError::InvalidValue)
}

/// The fixed value of an attribute, or not supported for any other one.
pub fn get_attribute(attrib: DeviceAttribute, dev_idx: Index) -> (r: Result<i32, CuError>)
    ensures
        r == match static_value(attrib) {
            Some(v) => Ok(v),
            None => Err(CuError::NotSupported),
        },
{
    match attrib.get_static_value() {
        Some(v) => Ok(v),
        None => Err(CuError::NotSupported),
    }
}

fn zeroes(n: usize) -> (r: Vec<u8>)
    ensures
        r@ == Seq::new(n as nat, |i: int| 0u8),
{
    let mut v: Vec<u8> = Vec::new();
    let mut i: usize = 0;
    while i < n
        invariant
            i <= n,
            v@ == Seq::new(i as nat, |k: int| 0u8),
        decreases n - i,
    {
        v.push(0u8);
        i = i + 1;
        assert(v@ =~= Seq::new(i as nat, |k: int| 0u8));
    }
    v
}

/// A zeroed sixteen-byte identifier: device UUIDs are not mapped yet.
pub fn get_uuid(dev_idx: Index) -> (r: Result<Vec<u8>, CuError>)
    ensures
        r matches Ok(u) && u@ == Seq::new(16, |i: int| 0u8),
{
    Ok(zeroes(16))
}

/// A zeroed eight-byte LUID and a zero node mask: not mapped yet.
pub fn get_luid(dev_idx: Index) -> (r: Result<(Vec<u8>, u32), CuError>)
    ensures
        r matches Ok((l, mask)) && l@ == Seq::new(8, |i: int| 0u8) && mask == 0,
{
    Ok((zeroes(8), 0))
}

/// Primary-context activity is not tracked yet: no flags, inactive.
pub fn primary_ctx_get_state(dev_idx: Index) -> (r: Result<(u32, i32), CuError>)
    ensures
        r == Ok::<(u32, i32), CuError>((0, 0)),
{
    Ok((0, 0))
}

/// Primary-context reference counting is not tracked yet: releasing succeeds.
pub fn primary_ctx_release_v2(dev_idx: Index) -> (r: Result<(), CuError>)
    ensures
        r is Ok,
{
    Ok(())
}

} // verus!
