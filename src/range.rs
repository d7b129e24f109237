use vstd::prelude::*;

verus! {

/// The byte range asked of a read: an optional start and an optional length.
///
/// The four combinations are four shapes: both given is a bounded range, a
/// start alone reads to the end, a length alone is a suffix of the object,
/// and neither is the whole object.
#[derive(Clone, Copy, Debug, PartialEq, Eq, Structural)]
pub struct BytesRange {
    pub offset: Option<u64>,
    pub size: Option<u64>,
}

impl BytesRange {
    /// A range with the given start and length.
    pub fn new(offset: Option<u64>, size: Option<u64>) -> (r: Self)
        ensures
            r.offset == offset,
            r.size == size,
    {
        BytesRange { offset, size }
    }

    /// True for a suffix range: a length counted back from the end.
    pub open spec fn is_suffix(self) -> bool {
        self.offset is None && self.size is Some
    }
}

/// The start and length that a suffix of `size` bytes covers in an object of
/// `total` bytes: the whole object when the suffix is longer than it.
pub open spec fn suffix_span(size: u64, total: u64) -> (u64, u64) {
    if size > total {
        (0, total)
    } else {
        ((total - size) as u64, size)
    }
}

/// Start and length of the last `size` bytes of an object of `total` bytes.
pub fn suffix_range(size: u64, total: u64) -> (r: (u64, u64))
    ensures
        r == suffix_span(size, total),
        r.0 as int + r.1 as int == total as int,
        r.1 <= size,
{
    if size > total {
        (0, total)
    } else {
        (total - size, size)
    }
}

} // verus!
