//! Safe bridge layer over a native image-processing library.
//!
//! The library models the decisions the bridge makes around each native
//! call: translating the native error conventions into a structured error
//! type, resolving one-time initialization options, assembling the
//! keyed variable-argument lists the native calling convention expects,
//! and deriving scale factors for dimension-targeted resizing. The
//! native calls themselves are issued by an unverified shell around this
//! crate; every function here is verified.

pub mod error;
pub mod image;
pub mod init;
pub mod text;
pub mod varargs;

pub use error::Error;
pub use image::Angle;
pub use image::BandFormat;
pub use image::Image;
pub use image::Kernel;
pub use image::Scale;
pub use init::InitGuard;
pub use init::InitOptions;
pub use init::InitPlan;
pub use init::initialize;
pub use init::initialize_with_maybe_options;
pub use init::initialize_with_options;
