use vstd::prelude::*;

verus! {

/// Capabilities that a backend advertises for its read operation.
///
/// They belong to the backend, not to a single call, and are consulted once
/// each time a reader is assembled.
#[derive(Clone, Copy, Debug, PartialEq, Eq, Structural)]
pub struct AccessorHints {
    /// The backend's reader can seek by itself.
    pub read_is_seekable: bool,
    /// The backend's reader can produce chunks by itself.
    pub read_is_streamable: bool,
}

impl AccessorHints {
    /// Hints with the two capabilities given.
    pub fn new(read_is_seekable: bool, read_is_streamable: bool) -> (r: Self)
        ensures
            r.read_is_seekable == read_is_seekable,
            r.read_is_streamable == read_is_streamable,
    {
        AccessorHints { read_is_seekable, read_is_streamable }
    }
}

} // verus!
