//! Target and toolchain-layout resolution for a cross-compilation sysroot
//! builder: decides whether a requested target triple is built into the
//! compiler or described by an on-disk spec file, locates the compiler's
//! installation root and the standard-library source tree under it, and
//! produces a stable hash contribution for a resolved target.
//!
//! The library holds the decisions and the text handling; spawning the
//! compiler, reading environment variables and probing the filesystem are
//! left to the embedding application, which hands the answers in as plain
//! values.

pub mod errors;
pub mod paths;
pub mod sysroot;
pub mod target;
pub mod text;

pub use errors::Error;
pub use sysroot::{sysroot, Src, Sysroot};
pub use target::{targets, Target};
