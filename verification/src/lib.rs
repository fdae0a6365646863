//! Build-time driver for compiling GPU kernel source with an external
//! compiler: architecture-to-flag mapping, command-line construction, and
//! classification of the compiler's exit status into build reports.

pub mod arch;
pub mod driver;
pub mod text;

pub use arch::GpuArchitecture;
