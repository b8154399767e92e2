//! HIP devices: their identity and the properties the runtime reports.
use vstd::prelude::*;
use crate::hip::error::{Error, Result, HIP_ERROR_INVALID_DEVICE};

verus! {

/// Device properties
#[derive(Debug, Clone)]
pub struct DeviceProperties {
    pub name: String,
    pub total_global_mem: usize,
    pub shared_mem_per_block: usize,
    pub regs_per_block: i32,
    pub warp_size: i32,
    pub max_threads_per_block: i32,
    pub max_threads_dim: [i32; 3],
    pub max_grid_size: [i32; 3],
    pub clock_rate: i32,
    pub memory_clock_rate: i32,
    pub memory_bus_width: i32,
    pub total_const_mem: usize,
    pub major: i32,
    pub minor: i32,
    pub multi_processor_count: i32,
    pub l2_cache_size: i32,
    pub max_threads_per_multiprocessor: i32,
    pub compute_mode: i32,
    pub integrated: i32,
    pub can_map_host_memory: i32,
}

/// A wrapper for HIP device operations
#[derive(Debug, Clone)]
pub struct Device {
    id: i32,
}

impl View for Device {
    type V = i32;

    /// The device ordinal.
    closed spec fn view(&self) -> i32 {
        self.id
    }
}

impl Device {
    /// The device with the given ID, if the runtime reports at least
    /// `id + 1` devices; `device_count` is the runtime's device count.
    pub fn new(id: i32, device_count: i32) -> (r: Result<Self>)
        ensures
            r is Ok <==> 0 <= id < device_count,
            r matches Ok(d) ==> d@ == id,
            r matches Err(e) ==> e@ == HIP_ERROR_INVALID_DEVICE,
    {
        if id < 0 || id >= device_count {
            return Err(Error::new(HIP_ERROR_INVALID_DEVICE));
        }
        Ok(Self { id })
    }

    /// The device the runtime reports as current.
    pub fn from_current(id: i32) -> (r: Self)
        ensures
            r@ == id,
    {
        Self { id }
    }

    /// Get the device ID
    pub fn id(&self) -> (r: i32)
        ensures
            r == self@,
    {
        self.id
    }
}

} // verus!
