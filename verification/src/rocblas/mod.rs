pub mod error;
pub mod types;
pub mod utils;

pub use error::{Error, Result};
pub use utils::{AtomicsMode, GemmAlgo, GemmFlags, LayerMode, MathMode, PerformanceMetric, PointerMode};
pub use utils::{get_atomics_mode, get_math_mode, get_performance_metric, get_pointer_mode};
