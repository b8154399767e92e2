pub mod device;
pub mod error;
pub mod memory;
pub mod memory_ext;
pub mod sort_model;
pub mod utils;

pub use device::{Device, DeviceProperties};
pub use error::{Error, Result};
pub use memory::{MemoryInfo, PendingCopy};
pub use utils::{
    calculate_grid_1d, calculate_grid_2d, calculate_grid_3d, is_hip_available,
    print_devices_info, Dim3, Version,
};
