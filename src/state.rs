use crate::device::{
    ComputeProperties, ContextData, ContextRef, Device, DeviceProperties, ImageProperties, Index,
    MemoryProperties,
};
use crate::error::CuError;
use crate::function::{check_legacy_launch, legacy_launch_result, FunctionData, LaunchParam};
use crate::handle::{Handle, Registry};
use vstd::prelude::*;

verus! {

/// An ordered command queue, bound to the context that was current when it
/// was created.
#[derive(Clone, Copy, Debug, PartialEq, Eq, Structural)]
pub struct StreamData {
    pub context: ContextRef,
}

/// A device allocation, bound to the context that was current when it was
/// made.
#[derive(Clone, Copy, Debug, PartialEq, Eq, Structural)]
pub struct Allocation {
    pub context: ContextRef,
    pub size: usize,
}

/// The sole owner of the device table and of the context, stream, function
/// and allocation tables. Callers that share it serialise on one lock around
/// it; every operation validates its handles before it changes anything.
pub struct GlobalState {
    devices: Vec<Device>,
    contexts: Registry<ContextData>,
    streams: Registry<StreamData>,
    functions: Registry<FunctionData>,
    allocations: Registry<Allocation>,
    current: Option<ContextRef>,
}

impl GlobalState {
    /// Device ordinals fit a C `int`, and each device sits at its own index
    /// with a primary context bound to that index.
    pub closed spec fn wf(&self) -> bool {
        &&& self.devices@.len() <= i32::MAX
        &&& forall|i: int|
            0 <= i < self.devices@.len() ==> {
                &&& (#[trigger] self.devices@[i]).index == Index(i as i32)
                &&& self.devices@[i].primary_context == (ContextData {
                    device: i as usize,
                    flags: 0,
                    is_primary: true,
                })
            }
    }

    pub closed spec fn device_count(&self) -> nat {
        self.devices@.len()
    }

    pub closed spec fn device_at(&self, i: int) -> Device {
        self.devices@[i]
    }

    pub closed spec fn contexts(&self) -> Registry<ContextData> {
        self.contexts
    }

    pub closed spec fn streams(&self) -> Registry<StreamData> {
        self.streams
    }

    pub closed spec fn functions(&self) -> Registry<FunctionData> {
        self.functions
    }

    pub closed spec fn allocations(&self) -> Registry<Allocation> {
        self.allocations
    }

    pub closed spec fn current(&self) -> Option<ContextRef> {
        self.current
    }

    /// `self` holds the same devices as `other`, each unchanged.
    pub open spec fn same_devices(&self, other: &Self) -> bool {
        &&& self.device_count() == other.device_count()
        &&& forall|i: int|
            0 <= i < other.device_count() ==> #[trigger] self.device_at(i) == other.device_at(i)
    }

    /// The ordinal names a device of the table.
    pub open spec fn valid_index(&self, idx: Index) -> bool {
        0 <= idx.0 < self.device_count()
    }

    /// The context exists: a primary context of a device of the table, or a
    /// created context that was not destroyed.
    pub open spec fn context_live(&self, c: ContextRef) -> bool {
        match c {
            ContextRef::Primary(d) => d < self.device_count(),
            ContextRef::Created(h) => self.contexts().is_live(h),
        }
    }

    pub open spec fn has_active_context(&self) -> bool {
        self.current() matches Some(c) && self.context_live(c)
    }

    /// The allocation exists and its context still does.
    pub open spec fn allocation_usable(&self, p: Handle) -> bool {
        &&& self.allocations().is_live(p)
        &&& self.context_live(self.allocations().value_of(p).context)
    }

    /// What a launch gives: an invalid value for a missing function or for
    /// both or neither encoding, an invalid handle for a stale stream or
    /// function, success for the direct pointer array, and the legacy check
    /// against the function's argument sizes otherwise.
    pub open spec fn launch_result(
        &self,
        f: Option<Handle>,
        hstream: Option<Handle>,
        has_kernel_params: bool,
        extra: Option<Seq<LaunchParam>>,
    ) -> Result<(), CuError> {
        if f is None || has_kernel_params == extra is Some {
            Err(CuError::InvalidValue)
        } else if hstream matches Some(s) && !self.streams().is_live(s) {
            Err(CuError::InvalidHandle)
        } else if !self.functions().is_live(f->Some_0) {
            Err(CuError::InvalidHandle)
        } else {
            match extra {
                Some(e) => legacy_launch_result(
                    self.functions().value_of(f->Some_0).arg_size@,
                    e,
                ),
                None => Ok(()),
            }
        }
    }

    /// Builds the device table, one device per backend device, each with its
    /// primary context; no other entity exists yet.
    pub fn init(device_bases: &Vec<u32>) -> (r: Self)
        requires
            device_bases@.len() <= i32::MAX,
        ensures
            r.wf(),
            r.device_count() == device_bases@.len(),
            forall|i: int|
                0 <= i < device_bases@.len() ==> {
                    let d = #[trigger] r.device_at(i);
                    &&& d.base == device_bases@[i]
                    &&& d.index == Index(i as i32)
                    &&& d.primary_context == (ContextData {
                        device: i as usize,
                        flags: 0,
                        is_primary: true,
                    })
                    &&& d.cached_properties() is None
                    &&& d.cached_image_properties() is None
                    &&& d.cached_memory_properties() is None
                    &&& d.cached_compute_properties() is None
                },
            r.current() is None,
            forall|h: Handle|
                !r.contexts().is_live(h) && !r.streams().is_live(h) && !r.functions().is_live(h)
                    && !r.allocations().is_live(h),
    {
        let mut devices: Vec<Device> = Vec::new();
        let mut i: usize = 0;
        while i < device_bases.len()
            invariant
                i <= device_bases@.len() <= i32::MAX,
                devices@.len() == i,
                forall|k: int|
                    0 <= k < i ==> {
                        &&& (#[trigger] devices@[k]).index == Index(k as i32)
                        &&& devices@[k].primary_context == (ContextData {
                            device: k as usize,
                            flags: 0,
                            is_primary: true,
                        })
                        &&& devices@[k].base == device_bases@[k]
                        &&& devices@[k].cached_properties() is None
                        &&& devices@[k].cached_image_properties() is None
                        &&& devices@[k].cached_memory_properties() is None
                        &&& devices@[k].cached_compute_properties() is None
                    },
            decreases device_bases@.len() - i,
        {
            devices.push(Device::new(device_bases[i], i));
            i = i + 1;
        }
        GlobalState {
            devices,
            contexts: Registry::new(),
            streams: Registry::new(),
            functions: Registry::new(),
            allocations: Registry::new(),
            current: None,
        }
    }

    /// The number of devices.
    pub fn get_count(&self) -> (r: i32)
        requires
            self.wf(),
        ensures
            r == self.device_count(),
    {
        self.devices.len() as i32
    }

    /// The device with this ordinal; an invalid value when there is none.
    pub fn get(&self, ordinal: i32) -> (r: Result<Index, CuError>)
        ensures
            r is Ok <==> 0 <= ordinal < self.device_count(),
            r matches Ok(idx) ==> idx == Index(ordinal),
            r matches Err(e) ==> e == CuError::InvalidValue,
    {
        if ordinal < 0 {
            return Err(CuError::InvalidValue);
        }
        if (ordinal as usize) < self.devices.len() {
            Ok(Index(ordinal))
        } else {
            Err(CuError::InvalidValue)
        }
    }

    /// Bounds-checks the ordinal, then yields the device.
    pub fn device(&self, idx: Index) -> (r: Result<&Device, CuError>)
        ensures
            r is Ok <==> self.valid_index(idx),
            r matches Ok(d) ==> *d == self.device_at(idx.0 as int),
            r matches Err(e) ==> e == CuError::InvalidDevice,
    {
        if idx.0 >= 0 && (idx.0 as usize) < self.devices.len() {
            Ok(&self.devices[idx.0 as usize])
        } else {
            Err(CuError::InvalidDevice)
        }
    }

    /// Checks the stream handle, then yields the stream.
    pub fn stream(&self, h: Handle) -> (r: Result<&StreamData, CuError>)
        ensures
            r is Ok <==> self.streams().is_live(h),
            r matches Ok(d) ==> *d == self.streams().value_of(h),
            r matches Err(e) ==> e == CuError::InvalidHandle,
    {
        self.streams.get(h)
    }

    /// Checks the function handle, then yields the function.
    pub fn function(&self, h: Handle) -> (r: Result<&FunctionData, CuError>)
        ensures
            r is Ok <==> self.functions().is_live(h),
            r matches Ok(d) ==> *d == self.functions().value_of(h),
            r matches Err(e) ==> e == CuError::InvalidHandle,
    {
        self.functions.get(h)
    }

    /// Caches the device's general properties, unless they are cached already.
    pub fn cache_properties(&mut self, idx: Index, fetched: DeviceProperties) -> (r: Result<(), CuError>)
        requires
            old(self).wf(),
        ensures
            final(self).wf(),
            final(self).device_count() == old(self).device_count(),
            r is Ok <==> old(self).valid_index(idx),
            r matches Err(e) ==> e == CuError::InvalidDevice && *final(self) == *old(self),
            r is Ok ==> {
                let before = old(self).device_at(idx.0 as int);
                let after = final(self).device_at(idx.0 as int);
                &&& after.cached_properties() == if before.cached_properties() is Some {
                    before.cached_properties()
                } else {
                    Some(fetched)
                }
                &&& after.base == before.base
                &&& after.primary_context == before.primary_context
                &&& after.cached_image_properties() == before.cached_image_properties()
                &&& after.cached_memory_properties() == before.cached_memory_properties()
                &&& after.cached_compute_properties() == before.cached_compute_properties()
            },
            forall|i: int|
                0 <= i < old(self).device_count() && i != idx.0 ==> #[trigger] final(self).device_at(i)
                    == old(self).device_at(i),
            final(self).current() == old(self).current(),
            final(self).contexts() == old(self).contexts(),
            final(self).streams() == old(self).streams(),
            final(self).functions() == old(self).functions(),
            final(self).allocations() == old(self).allocations(),
    {
        if idx.0 < 0 || (idx.0 as usize) >= self.devices.len() {
            return Err(CuError::InvalidDevice);
        }
        let _ = self.devices[idx.0 as usize].get_properties(fetched);
        Ok(())
    }

    /// Caches the device's image properties, unless they are cached already.
    pub fn cache_image_properties(&mut self, idx: Index, fetched: ImageProperties) -> (r: Result<(), CuError>)
        requires
            old(self).wf(),
        ensures
            final(self).wf(),
            final(self).device_count() == old(self).device_count(),
            r is Ok <==> old(self).valid_index(idx),
            r matches Err(e) ==> e == CuError::InvalidDevice && *final(self) == *old(self),
            r is Ok ==> {
                let before = old(self).device_at(idx.0 as int);
                let after = final(self).device_at(idx.0 as int);
                &&& after.cached_image_properties() == if before.cached_image_properties() is Some {
                    before.cached_image_properties()
                } else {
                    Some(fetched)
                }
                &&& after.base == before.base
                &&& after.primary_context == before.primary_context
                &&& after.cached_properties() == before.cached_properties()
                &&& after.cached_memory_properties() == before.cached_memory_properties()
                &&& after.cached_compute_properties() == before.cached_compute_properties()
            },
            forall|i: int|
                0 <= i < old(self).device_count() && i != idx.0 ==> #[trigger] final(self).device_at(i)
                    == old(self).device_at(i),
            final(self).current() == old(self).current(),
            final(self).contexts() == old(self).contexts(),
            final(self).streams() == old(self).streams(),
            final(self).functions() == old(self).functions(),
            final(self).allocations() == old(self).allocations(),
    {
        if idx.0 < 0 || (idx.0 as usize) >= self.devices.len() {
            return Err(CuError::InvalidDevice);
        }
        let _ = self.devices[idx.0 as usize].get_image_properties(fetched);
        Ok(())
    }

    /// Caches the device's memory properties, unless they are cached already.
    pub fn cache_memory_properties(&mut self, idx: Index, fetched: Vec<MemoryProperties>) -> (r: Result<(), CuError>)
        requires
            old(self).wf(),
        ensures
            final(self).wf(),
            final(self).device_count() == old(self).device_count(),
            r is Ok <==> old(self).valid_index(idx),
            r matches Err(e) ==> e == CuError::InvalidDevice && *final(self) == *old(self),
            r is Ok ==> {
                let before = old(self).device_at(idx.0 as int);
                let after = final(self).device_at(idx.0 as int);
                &&& after.cached_memory_properties() == if before.cached_memory_properties() is Some {
                    before.cached_memory_properties()
                } else {
                    Some(fetched)
                }
                &&& after.base == before.base
                &&& after.primary_context == before.primary_context
                &&& after.cached_properties() == before.cached_properties()
                &&& after.cached_image_properties() == before.cached_image_properties()
                &&& after.cached_compute_properties() == before.cached_compute_properties()
            },
            forall|i: int|
                0 <= i < old(self).device_count() && i != idx.0 ==> #[trigger] final(self).device_at(i)
                    == old(self).device_at(i),
            final(self).current() == old(self).current(),
            final(self).contexts() == old(self).contexts(),
            final(self).streams() == old(self).streams(),
            final(self).functions() == old(self).functions(),
            final(self).allocations() == old(self).allocations(),
    {
        if idx.0 < 0 || (idx.0 as usize) >= self.devices.len() {
            return Err(CuError::InvalidDevice);
        }
        let _ = self.devices[idx.0 as usize].get_memory_properties(fetched);
        Ok(())
    }

    /// Caches the device's compute properties, unless they are cached already.
    pub fn cache_compute_properties(&mut self, idx: Index, fetched: ComputeProperties) -> (r: Result<(), CuError>)
        requires
            old(self).wf(),
        ensures
            final(self).wf(),
            final(self).device_count() == old(self).device_count(),
            r is Ok <==> old(self).valid_index(idx),
            r matches Err(e) ==> e == CuError::InvalidDevice && *final(self) == *old(self),
            r is Ok ==> {
                let before = old(self).device_at(idx.0 as int);
                let after = final(self).device_at(idx.0 as int);
                &&& after.cached_compute_properties() == if before.cached_compute_properties() is Some {
                    before.cached_compute_properties()
                } else {
                    Some(fetched)
                }
                &&& after.base == before.base
                &&& after.primary_context == before.primary_context
                &&& after.cached_properties() == before.cached_properties()
                &&& after.cached_image_properties() == before.cached_image_properties()
                &&& after.cached_memory_properties() == before.cached_memory_properties()
            },
            forall|i: int|
                0 <= i < old(self).device_count() && i != idx.0 ==> #[trigger] final(self).device_at(i)
                    == old(self).device_at(i),
            final(self).current() == old(self).current(),
            final(self).contexts() == old(self).contexts(),
            final(self).streams() == old(self).streams(),
            final(self).functions() == old(self).functions(),
            final(self).allocations() == old(self).allocations(),
    {
        if idx.0 < 0 || (idx.0 as usize) >= self.devices.len() {
            return Err(CuError::InvalidDevice);
        }
        let _ = self.devices[idx.0 as usize].get_compute_properties(fetched);
        Ok(())
    }

    /// The widest SIMD width of the device, once its compute properties are
    /// cached.
    pub fn get_max_simd(&self, idx: Index) -> (r: Result<Option<u32>, CuError>)
        requires
            self.valid_index(idx) ==> (self.device_at(idx.0 as int).cached_compute_properties() matches Some(p)
                ==> p.sub_group_sizes@.len() > 0),
        ensures
            r is Ok <==> self.valid_index(idx),
            r matches Err(e) ==> e == CuError::InvalidDevice,
            r matches Ok(m) ==> (m is None <==> self.device_at(idx.0 as int).cached_compute_properties() is None),
            r matches Ok(Some(m)) ==> {
                let s = self.device_at(idx.0 as int).cached_compute_properties()->Some_0.sub_group_sizes@;
                &&& exists|i: int| 0 <= i < s.len() && s[i] == m
                &&& forall|i: int| 0 <= i < s.len() ==> s[i] <= m
            },
    {
        let dev = self.device(idx)?;
        Ok(dev.get_max_simd())
    }

    /// The primary context of the device.
    pub fn primary_ctx_retain(&self, dev_idx: Index) -> (r: Result<ContextRef, CuError>)
        requires
            self.wf(),
        ensures
            r is Ok <==> self.valid_index(dev_idx),
            r matches Ok(c) ==> c == ContextRef::Primary(dev_idx.0 as usize)
                && self.device_at(dev_idx.0 as int).primary_context.device == dev_idx.0 as usize,
            r matches Err(e) ==> e == CuError::InvalidDevice,
    {
        let dev = self.device(dev_idx)?;
        Ok(ContextRef::Primary(dev.primary_context.device))
    }

    /// Creates a context on the device and makes it current.
    pub fn ctx_create(&mut self, flags: u32, dev_idx: Index) -> (r: Result<Handle, CuError>)
        requires
            old(self).wf(),
        ensures
            final(self).wf(),
            final(self).same_devices(old(self)),
            r is Ok <==> old(self).valid_index(dev_idx),
            r matches Ok(h) ==> {
                &&& !old(self).contexts().is_live(h)
                &&& !old(self).contexts().is_dead(h)
                &&& final(self).contexts().is_live(h)
                &&& final(self).contexts().value_of(h) == (ContextData {
                    device: dev_idx.0 as usize,
                    flags,
                    is_primary: false,
                })
                &&& final(self).contexts().same_except(&old(self).contexts(), h)
                &&& final(self).current() == Some(ContextRef::Created(h))
            },
            r matches Err(e) ==> e == CuError::InvalidDevice && *final(self) == *old(self),
            final(self).streams() == old(self).streams(),
            final(self).functions() == old(self).functions(),
            final(self).allocations() == old(self).allocations(),
    {
        if dev_idx.0 < 0 || (dev_idx.0 as usize) >= self.devices.len() {
            return Err(CuError::InvalidDevice);
        }
        let h = self.contexts.insert(ContextData::new(dev_idx.0 as usize, flags, false));
        self.current = Some(ContextRef::Created(h));
        Ok(h)
    }

    /// Runs the context's teardown hook, then destroys it; it stops being
    /// current if it was.
    pub fn ctx_destroy(&mut self, h: Handle) -> (r: Result<(), CuError>)
        requires
            old(self).wf(),
        ensures
            final(self).wf(),
            final(self).same_devices(old(self)),
            r is Ok <==> old(self).contexts().is_live(h),
            r is Ok ==> {
                &&& final(self).contexts().is_dead(h)
                &&& final(self).contexts().same_except(&old(self).contexts(), h)
                &&& final(self).current() == if old(self).current() == Some(ContextRef::Created(h)) {
                    None
                } else {
                    old(self).current()
                }
            },
            r matches Err(e) ==> e == CuError::InvalidHandle && *final(self) == *old(self),
            final(self).streams() == old(self).streams(),
            final(self).functions() == old(self).functions(),
            final(self).allocations() == old(self).allocations(),
    {
        let mut data = match self.contexts.get(h) {
            Ok(d) => *d,
            Err(e) => return Err(e),
        };
        data.try_drop()?;
        let _ = self.contexts.destroy(h);
        if self.current == Some(ContextRef::Created(h)) {
            self.current = None;
        }
        Ok(())
    }

    /// Makes the given context current, or none; an invalid context when it
    /// does not exist.
    pub fn ctx_set_current(&mut self, c: Option<ContextRef>) -> (r: Result<(), CuError>)
        requires
            old(self).wf(),
        ensures
            final(self).wf(),
            r is Ok <==> (c matches Some(x) ==> old(self).context_live(x)),
            r is Ok ==> final(self).current() == c,
            r matches Err(e) ==> e == CuError::InvalidContext,
            final(self).same_devices(old(self)),
            r is Err ==> final(self).current() == old(self).current(),
            final(self).contexts() == old(self).contexts(),
            final(self).streams() == old(self).streams(),
            final(self).functions() == old(self).functions(),
            final(self).allocations() == old(self).allocations(),
    {
        if let Some(x) = c {
            if !self.context_exists(x) {
                return Err(CuError::InvalidContext);
            }
        }
        self.current = c;
        Ok(())
    }

    /// The current context, if any.
    pub fn ctx_get_current(&self) -> (r: Option<ContextRef>)
        ensures
            r == self.current(),
    {
        self.current
    }

    fn context_exists(&self, c: ContextRef) -> (r: bool)
        ensures
            r == self.context_live(c),
    {
        match c {
            ContextRef::Primary(d) => d < self.devices.len(),
            ContextRef::Created(h) => self.contexts.get(h).is_ok(),
        }
    }

    fn active_context(&self) -> (r: Result<ContextRef, CuError>)
        ensures
            r is Ok <==> self.has_active_context(),
            r matches Ok(c) ==> self.current() == Some(c),
            r matches Err(e) ==> e == CuError::InvalidContext,
    {
        match self.current {
            Some(c) => if self.context_exists(c) {
                Ok(c)
            } else {
                Err(CuError::InvalidContext)
            },
            None => Err(CuError::InvalidContext),
        }
    }

    /// Creates a stream on the current context.
    pub fn stream_create(&mut self) -> (r: Result<Handle, CuError>)
        requires
            old(self).wf(),
        ensures
            final(self).wf(),
            final(self).same_devices(old(self)),
            r is Ok <==> old(self).has_active_context(),
            r matches Ok(h) ==> {
                &&& !old(self).streams().is_live(h)
                &&& !old(self).streams().is_dead(h)
                &&& final(self).streams().is_live(h)
                &&& final(self).streams().value_of(h) == (StreamData {
                    context: old(self).current()->Some_0,
                })
                &&& final(self).streams().same_except(&old(self).streams(), h)
            },
            r matches Err(e) ==> e == CuError::InvalidContext && *final(self) == *old(self),
            final(self).current() == old(self).current(),
            final(self).contexts() == old(self).contexts(),
            final(self).functions() == old(self).functions(),
            final(self).allocations() == old(self).allocations(),
    {
        let c = self.active_context()?;
        Ok(self.streams.insert(StreamData { context: c }))
    }

    /// Destroys a stream.
    pub fn stream_destroy(&mut self, h: Handle) -> (r: Result<(), CuError>)
        requires
            old(self).wf(),
        ensures
            final(self).wf(),
            final(self).same_devices(old(self)),
            r is Ok <==> old(self).streams().is_live(h),
            r is Ok ==> final(self).streams().is_dead(h) && final(self).streams().same_except(
                &old(self).streams(),
                h,
            ),
            r matches Err(e) ==> e == CuError::InvalidHandle && *final(self) == *old(self),
            final(self).current() == old(self).current(),
            final(self).contexts() == old(self).contexts(),
            final(self).functions() == old(self).functions(),
            final(self).allocations() == old(self).allocations(),
    {
        match self.streams.destroy(h) {
            Ok(_) => Ok(()),
            Err(e) => Err(e),
        }
    }

    /// Stores a compiled kernel and returns its handle.
    pub fn function_insert(&mut self, data: FunctionData) -> (h: Handle)
        requires
            old(self).wf(),
        ensures
            final(self).wf(),
            final(self).same_devices(old(self)),
            !old(self).functions().is_live(h),
            !old(self).functions().is_dead(h),
            final(self).functions().is_live(h),
            final(self).functions().value_of(h) == data,
            final(self).functions().same_except(&old(self).functions(), h),
            final(self).current() == old(self).current(),
            final(self).contexts() == old(self).contexts(),
            final(self).streams() == old(self).streams(),
            final(self).allocations() == old(self).allocations(),
    {
        self.functions.insert(data)
    }

    /// Runs the function's teardown hook, then destroys it.
    pub fn function_destroy(&mut self, h: Handle) -> (r: Result<(), CuError>)
        requires
            old(self).wf(),
        ensures
            final(self).wf(),
            final(self).same_devices(old(self)),
            r is Ok <==> old(self).functions().is_live(h),
            r is Ok ==> final(self).functions().is_dead(h) && final(self).functions().same_except(
                &old(self).functions(),
                h,
            ),
            r matches Err(e) ==> e == CuError::InvalidHandle && *final(self) == *old(self),
            final(self).current() == old(self).current(),
            final(self).contexts() == old(self).contexts(),
            final(self).streams() == old(self).streams(),
            final(self).allocations() == old(self).allocations(),
    {
        let placeholder = FunctionData::new(0, Vec::new(), false);
        let mut data = self.functions.replace(h, placeholder)?;
        match data.try_drop() {
            Ok(()) => {
                let _ = self.functions.destroy(h);
                Ok(())
            },
            Err(e) => {
                let _ = self.functions.replace(h, data);
                Err(e)
            },
        }
    }

    /// Records the legacy block shape of a function, in place of any earlier
    /// one; an invalid value for a missing function or a negative dimension.
    pub fn set_block_shape(&mut self, func: Option<Handle>, x: i32, y: i32, z: i32) -> (r: Result<(), CuError>)
        requires
            old(self).wf(),
        ensures
            final(self).wf(),
            final(self).same_devices(old(self)),
            (func is None || x < 0 || y < 0 || z < 0) ==> r == Err::<(), CuError>(CuError::InvalidValue),
            (func is Some && x >= 0 && y >= 0 && z >= 0) ==> {
                &&& (r is Ok <==> old(self).functions().is_live(func->Some_0))
                &&& r matches Err(e) ==> e == CuError::InvalidHandle
            },
            r is Err ==> *final(self) == *old(self),
            r is Ok ==> {
                let h = func->Some_0;
                let before = old(self).functions().value_of(h);
                let after = final(self).functions().value_of(h);
                &&& final(self).functions().is_live(h)
                &&& after.legacy_args@ == Some((x, y, z))
                &&& after.base == before.base
                &&& after.arg_size@ == before.arg_size@
                &&& after.use_shared_mem == before.use_shared_mem
                &&& final(self).functions().same_except(&old(self).functions(), h)
            },
            final(self).current() == old(self).current(),
            final(self).contexts() == old(self).contexts(),
            final(self).streams() == old(self).streams(),
            final(self).allocations() == old(self).allocations(),
    {
        let h = match func {
            Some(h) => h,
            None => return Err(CuError::InvalidValue),
        };
        if x < 0 || y < 0 || z < 0 {
            return Err(CuError::InvalidValue);
        }
        let placeholder = FunctionData::new(0, Vec::new(), false);
        let mut data = self.functions.replace(h, placeholder)?;
        data.legacy_args.set_block_shape(x, y, z);
        let _ = self.functions.replace(h, data);
        Ok(())
    }

    /// The legacy block shape recorded for a function.
    pub fn function_block_shape(&self, h: Handle) -> (r: Result<Option<(i32, i32, i32)>, CuError>)
        ensures
            r is Ok <==> self.functions().is_live(h),
            r matches Ok(shape) ==> shape == self.functions().value_of(h).legacy_args@,
            r matches Err(e) ==> e == CuError::InvalidHandle,
    {
        let data = self.functions.get(h)?;
        Ok(data.legacy_args.block_shape())
    }

    /// Validates a kernel launch. Exactly one of the two argument encodings
    /// must be given; the legacy list is checked against the function's
    /// argument sizes before any argument is read.
    pub fn launch_kernel(
        &self,
        f: Option<Handle>,
        grid_dim_x: u32,
        grid_dim_y: u32,
        grid_dim_z: u32,
        block_dim_x: u32,
        block_dim_y: u32,
        block_dim_z: u32,
        shared_mem_bytes: u32,
        hstream: Option<Handle>,
        kernel_params: &Option<Vec<u64>>,
        extra: &Option<Vec<LaunchParam>>,
    ) -> (r: Result<(), CuError>)
        ensures
            r == self.launch_result(
                f,
                hstream,
                kernel_params is Some,
                match extra {
                    Some(e) => Some(e@),
                    None => None,
                },
            ),
    {
        let h = match f {
            Some(h) => h,
            None => return Err(CuError::InvalidValue),
        };
        if kernel_params.is_some() == extra.is_some() {
            return Err(CuError::InvalidValue);
        }
        if let Some(s) = hstream {
            self.streams.get(s)?;
        }
        let func = self.functions.get(h)?;
        match extra {
            Some(e) => check_legacy_launch(&func.arg_size, e),
            None => Ok(()),
        }
    }

    /// Allocates device memory on the current context; an invalid context
    /// when none is active.
    pub fn alloc_v2(&mut self, bytesize: usize) -> (r: Result<Handle, CuError>)
        requires
            old(self).wf(),
        ensures
            final(self).wf(),
            final(self).same_devices(old(self)),
            r is Ok <==> old(self).has_active_context(),
            r matches Ok(p) ==> {
                &&& !old(self).allocations().is_live(p)
                &&& !old(self).allocations().is_dead(p)
                &&& final(self).allocations().is_live(p)
                &&& final(self).allocations().value_of(p) == (Allocation {
                    context: old(self).current()->Some_0,
                    size: bytesize,
                })
                &&& final(self).allocation_usable(p)
                &&& final(self).allocations().same_except(&old(self).allocations(), p)
            },
            r matches Err(e) ==> e == CuError::InvalidContext && *final(self) == *old(self),
            final(self).current() == old(self).current(),
            final(self).contexts() == old(self).contexts(),
            final(self).streams() == old(self).streams(),
            final(self).functions() == old(self).functions(),
    {
        let c = self.active_context()?;
        Ok(self.allocations.insert(Allocation { context: c, size: bytesize }))
    }

    /// Frees an allocation; an invalid value for a freed or unknown one, or
    /// one whose context was destroyed.
    pub fn free_v2(&mut self, p: Handle) -> (r: Result<(), CuError>)
        requires
            old(self).wf(),
        ensures
            final(self).wf(),
            final(self).same_devices(old(self)),
            r is Ok <==> old(self).allocation_usable(p),
            r is Ok ==> final(self).allocations().is_dead(p) && final(self).allocations().same_except(
                &old(self).allocations(),
                p,
            ),
            r matches Err(e) ==> e == CuError::InvalidValue && *final(self) == *old(self),
            final(self).current() == old(self).current(),
            final(self).contexts() == old(self).contexts(),
            final(self).streams() == old(self).streams(),
            final(self).functions() == old(self).functions(),
    {
        let c = match self.allocations.get(p) {
            Ok(a) => a.context,
            Err(_) => return Err(CuError::InvalidValue),
        };
        if !self.context_exists(c) {
            return Err(CuError::InvalidValue);
        }
        let _ = self.allocations.destroy(p);
        Ok(())
    }

    fn usable_size(&self, p: Handle) -> (r: Option<usize>)
        ensures
            r is Some <==> self.allocation_usable(p),
            r matches Some(n) ==> n == self.allocations().value_of(p).size,
    {
        match self.allocations.get(p) {
            Ok(a) => if self.context_exists(a.context) {
                Some(a.size)
            } else {
                None
            },
            Err(_) => None,
        }
    }

    /// Copies `bytesize` bytes between two allocations: an invalid context
    /// when none is active, an invalid value when either allocation is not
    /// usable or is smaller than `bytesize`.
    pub fn copy_v2(&self, dst: Handle, src: Handle, bytesize: usize) -> (r: Result<(), CuError>)
        ensures
            r == if !self.has_active_context() {
                Err::<(), CuError>(CuError::InvalidContext)
            } else if self.allocation_usable(dst) && self.allocation_usable(src)
                && bytesize <= self.allocations().value_of(dst).size
                && bytesize <= self.allocations().value_of(src).size {
                Ok(())
            } else {
                Err(CuError::InvalidValue)
            },
    {
        self.active_context()?;
        match (self.usable_size(dst), self.usable_size(src)) {
            (Some(d), Some(s)) => if bytesize <= d && bytesize <= s {
                Ok(())
            } else {
                Err(CuError::InvalidValue)
            },
            _ => Err(CuError::InvalidValue),
        }
    }

    /// Fills `n` 32-bit words of an allocation: an invalid context when none
    /// is active, an invalid value when the allocation is not usable or is
    /// smaller than `4 * n` bytes.
    pub fn set_d32_v2(&self, dst: Handle, ui: u32, n: usize) -> (r: Result<(), CuError>)
        ensures
            r == if !self.has_active_context() {
                Err::<(), CuError>(CuError::InvalidContext)
            } else if self.allocation_usable(dst) && 4 * n <= self.allocations().value_of(dst).size {
                Ok(())
            } else {
                Err(CuError::InvalidValue)
            },
    {
        self.active_context()?;
        match self.usable_size(dst) {
            Some(d) => if n <= usize::MAX / 4 && n * 4 <= d {
                Ok(())
            } else {
                Err(CuError::InvalidValue)
            },
            None => Err(CuError::InvalidValue),
        }
    }

    /// Fills `n` bytes of an allocation: an invalid context when none is
    /// active, an invalid value when the allocation is not usable or is
    /// smaller than `n` bytes.
    pub fn set_d8_v2(&self, dst: Handle, uc: u8, n: usize) -> (r: Result<(), CuError>)
        ensures
            r == if !self.has_active_context() {
                Err::<(), CuError>(CuError::InvalidContext)
            } else if self.allocation_usable(dst) && n <= self.allocations().value_of(dst).size {
                Ok(())
            } else {
                Err(CuError::InvalidValue)
            },
    {
        self.active_context()?;
        match self.usable_size(dst) {
            Some(d) => if n <= d {
                Ok(())
            } else {
                Err(CuError::InvalidValue)
            },
            None => Err(CuError::InvalidValue),
        }
    }
}

/// Supplying both argument encodings, or neither, is an invalid value,
/// whatever the function, the stream and the argument tables hold.
pub proof fn lemma_encoding_mismatch_rejected(
    s: &GlobalState,
    f: Option<Handle>,
    hstream: Option<Handle>,
    has_kernel_params: bool,
    extra: Option<Seq<LaunchParam>>,
)
    requires
        has_kernel_params == extra is Some,
    ensures
        s.launch_result(f, hstream, has_kernel_params, extra) == Err::<(), CuError>(
            CuError::InvalidValue,
        ),
{
}

/// Once a context is destroyed, the allocations bound to it are no longer
/// usable, so freeing them reports an invalid value.
pub proof fn lemma_allocation_dies_with_context(
    before: &GlobalState,
    after: &GlobalState,
    ctx: Handle,
    p: Handle,
)
    requires
        before.allocations().is_live(p),
        before.allocations().value_of(p).context == ContextRef::Created(ctx),
        after.contexts().is_dead(ctx),
        after.allocations() == before.allocations(),
    ensures
        !after.allocation_usable(p),
{
    after.contexts().lemma_dead_not_live(ctx);
}

} // verus!
