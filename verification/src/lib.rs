//! Acquisition engine for a self-contained shell toolchain.
//!
//! The library decides, for each declared tool, whether it is already
//! present, can be symlinked from the system, or must be installed from a
//! release; it resolves the release asset that fits the host platform,
//! plans archive extraction under three layout conventions, and plans
//! relocatable relative symlinks. All decisions are pure functions with
//! verified contracts; the surrounding process (network, filesystem,
//! spawning) performs the planned actions.

pub mod cli;
pub mod codec;
pub mod errors;
pub mod paths;
pub mod provision;
pub mod release;
pub mod resolver;
pub mod symlink;
pub mod text;
pub mod tools;
pub mod version;
