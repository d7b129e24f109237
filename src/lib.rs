//! A uniform object reader over storage backends of unequal capability:
//! the choice of adapters from a backend's hints and the requested range,
//! the cached resolution of an object's total size, and the reader that
//! closes a pooled session connection with its handshake before it reports
//! the end of the stream.

use vstd::prelude::*;

pub mod finalize;
pub mod hints;
pub mod metadata;
pub mod range;
pub mod reader;

verus! {

} // verus!
