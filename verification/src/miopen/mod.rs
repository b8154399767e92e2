pub mod activation;
pub mod error;
pub mod tensor;

pub use activation::ActivationMode;
pub use error::{Error, Result};
pub use tensor::DataType;
