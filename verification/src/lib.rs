//! Verified core of a one-shot setup utility for an external tool.
//!
//! The library holds the decision logic of the utility: probing an executable
//! search path, accounting for a streamed download, extracting an archive with
//! sanitized entry paths, normalizing the installed folder name, building the
//! new search-path value, and the interactive driver's state machine. The
//! surrounding process performs the actual network, console and filesystem
//! work and feeds the results back in as plain values.

pub mod archive;
pub mod bytes;
pub mod driver;
pub mod fetch;
pub mod normalize;
pub mod paths;
pub mod probe;
pub mod registrar;
