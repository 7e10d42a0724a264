//! A verified model of a concurrent fetch-and-install pipeline for
//! application bundles distributed as disk images.
//!
//! The library holds the decision logic: resolving a catalog record to a
//! download URL, naming destination files, accounting download progress,
//! parsing the attach tool's output into a volume path, selecting bundles,
//! planning a recursive copy, and the installer state machine with its
//! mount/unmount pairing guarantee. The surrounding I/O (network, file
//! system, subprocesses) lives outside the library and drives these
//! functions with plain values.

pub mod bytes;
pub mod resolve;
pub mod progress;
pub mod volume;
pub mod installer;
pub mod copydir;
pub mod pipeline;
