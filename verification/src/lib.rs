//! A catalog of parameterised GPU compute-kernel descriptors.
//!
//! A descriptor names a kernel, lists its arguments in binding order, carries
//! the device-code body and declares the shared device functions that the
//! body calls. The catalog maps each kernel name to its descriptor.
pub mod catalog;
pub mod descriptors;
pub mod elementwise;
pub mod error;
pub mod functions;
pub mod kernels;
pub mod philox;
pub mod rounds;
pub mod sources;
pub mod text;

pub use catalog::Catalog;
pub use descriptors::{ConstructorTypes, KernelConstructor, SKernelConstructor};
pub use error::KernelError;
pub use functions::{Needed, SNeeded};
pub use kernels::{Kernel, SKernel};
pub use philox::{PhiloxOutput, PhiloxVariant};
pub use kernels::kernels;
