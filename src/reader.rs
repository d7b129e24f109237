use vstd::prelude::*;

use crate::hints::AccessorHints;
use crate::range::{suffix_range, suffix_span, BytesRange};

verus! {

/// Bytes that the chunking adapter buffers into one chunk: 256 KiB.
pub const DEFAULT_CHUNK_CAPACITY: usize = 262144;

/// How the assembled reader seeks.
#[derive(Clone, Copy, Debug, PartialEq, Eq, Structural)]
pub enum SeekLayer {
    /// The backend's own reader, opened with the requested range, unwrapped.
    Native,
    /// An adapter that serves `size` bytes starting at `offset` and seeks by
    /// issuing new bounded reads.
    ByRange { offset: u64, size: u64 },
    /// An adapter that serves everything from `offset` to the end.
    ByOffset { offset: u64 },
}

/// How the assembled reader produces chunks.
#[derive(Clone, Copy, Debug, PartialEq, Eq, Structural)]
pub enum StreamLayer {
    /// The seek layer produces chunks itself.
    Native,
    /// An adapter that fills chunks of at most `capacity` bytes from reads.
    Buffered { capacity: usize },
}

/// The adapter chain chosen for one read: one layer for seeking, one for
/// chunks.
#[derive(Clone, Copy, Debug, PartialEq, Eq, Structural)]
pub struct ReaderLayers {
    pub seek: SeekLayer,
    pub stream: StreamLayer,
}

/// True when the chain cannot be chosen before the object's total size is
/// known: a suffix range on a backend that cannot seek.
pub open spec fn needs_total_size_spec(hints: AccessorHints, range: BytesRange) -> bool {
    !hints.read_is_seekable && range.is_suffix()
}

/// The seek layer for a read of `range`, where `total` is the object's size
/// (read only for a suffix range on a backend that cannot seek).
pub open spec fn seek_layer_for(hints: AccessorHints, range: BytesRange, total: u64) -> SeekLayer {
    if hints.read_is_seekable {
        SeekLayer::Native
    } else {
        match (range.offset, range.size) {
            (Some(offset), Some(size)) => SeekLayer::ByRange { offset, size },
            (Some(offset), None) => SeekLayer::ByOffset { offset },
            (None, Some(size)) => SeekLayer::ByRange {
                offset: suffix_span(size, total).0,
                size: suffix_span(size, total).1,
            },
            (None, None) => SeekLayer::ByOffset { offset: 0 },
        }
    }
}

/// The chunk layer for a backend with these hints.
pub open spec fn stream_layer_for(hints: AccessorHints) -> StreamLayer {
    if hints.read_is_streamable {
        StreamLayer::Native
    } else {
        StreamLayer::Buffered { capacity: DEFAULT_CHUNK_CAPACITY }
    }
}

/// The whole chain for a read of `range` from a backend with these hints.
pub open spec fn layers_for(hints: AccessorHints, range: BytesRange, total: u64) -> ReaderLayers {
    ReaderLayers { seek: seek_layer_for(hints, range, total), stream: stream_layer_for(hints) }
}

/// Number of adapters in a chain.
pub open spec fn adapter_count(layers: ReaderLayers) -> nat {
    (if layers.seek is Native { 0nat } else { 1nat }) + (if layers.stream is Native {
        0nat
    } else {
        1nat
    })
}

/// A backend that seeks and streams by itself gets its own reader back with
/// no adapter around it, whatever the range.
pub proof fn lemma_capable_backend_is_unwrapped(hints: AccessorHints, range: BytesRange, total: u64)
    requires
        hints.read_is_seekable,
        hints.read_is_streamable,
    ensures
        layers_for(hints, range, total) == (ReaderLayers {
            seek: SeekLayer::Native,
            stream: StreamLayer::Native,
        }),
        adapter_count(layers_for(hints, range, total)) == 0,
{
}

/// Each capability that a backend lacks costs exactly one adapter, and one
/// that it has costs none.
pub proof fn lemma_one_adapter_per_missing_capability(
    hints: AccessorHints,
    range: BytesRange,
    total: u64,
)
    ensures
        (layers_for(hints, range, total).seek is Native) == hints.read_is_seekable,
        (layers_for(hints, range, total).stream is Native) == hints.read_is_streamable,
        adapter_count(layers_for(hints, range, total)) == (if hints.read_is_seekable {
            0nat
        } else {
            1nat
        }) + (if hints.read_is_streamable {
            0nat
        } else {
            1nat
        }),
{
}

/// The public reader: it owns the assembled chain and forwards reads, seeks
/// and chunk requests to it, deciding nothing after it was built.
pub struct ObjectReader<R> {
    layers: ReaderLayers,
    inner: R,
}

impl<R> ObjectReader<R> {
    /// Whether the object's total size must be fetched before
    /// [`ObjectReader::select_layers`] can choose a chain for `range`.
    pub fn needs_total_size(hints: AccessorHints, range: BytesRange) -> (r: bool)
        ensures
            r == needs_total_size_spec(hints, range),
    {
        !hints.read_is_seekable && range.offset.is_none() && range.size.is_some()
    }

    /// Chooses the adapter chain for a read of `range`. `total` is the
    /// object's size; it is needed, and read, only for a suffix range on a
    /// backend that cannot seek.
    pub fn select_layers(hints: AccessorHints, range: BytesRange, total: Option<u64>) -> (r:
        ReaderLayers)
        requires
            needs_total_size_spec(hints, range) ==> total is Some,
        ensures
            needs_total_size_spec(hints, range) ==> r == layers_for(hints, range, total->0),
            !needs_total_size_spec(hints, range) ==> forall|t: u64|
                r == #[trigger] layers_for(hints, range, t),
    {
        let seek = if hints.read_is_seekable {
            SeekLayer::Native
        } else {
            match (range.offset, range.size) {
                (Some(offset), Some(size)) => SeekLayer::ByRange { offset, size },
                (Some(offset), None) => SeekLayer::ByOffset { offset },
                (None, Some(size)) => {
                    let total_size = match total {
                        Some(t) => t,
                        None => 0,
                    };
                    let (offset, size) = suffix_range(size, total_size);
                    SeekLayer::ByRange { offset, size }
                },
                (None, None) => SeekLayer::ByOffset { offset: 0 },
            }
        };
        let stream = if hints.read_is_streamable {
            StreamLayer::Native
        } else {
            StreamLayer::Buffered { capacity: DEFAULT_CHUNK_CAPACITY }
        };
        ReaderLayers { seek, stream }
    }

    /// A reader over `inner`, the chain assembled as `layers` describes.
    pub fn new(layers: ReaderLayers, inner: R) -> (r: Self)
        ensures
            r.layers() == layers,
            r.inner() == inner,
    {
        ObjectReader { layers, inner }
    }

    /// The chain this reader was assembled from.
    pub closed spec fn layers(&self) -> ReaderLayers {
        self.layers
    }

    /// The assembled chain itself.
    pub closed spec fn inner(&self) -> R {
        self.inner
    }

    /// The chain this reader was assembled from.
    pub fn get_layers(&self) -> (r: ReaderLayers)
        ensures
            r == self.layers(),
    {
        self.layers
    }

    /// The assembled chain, to forward an operation to.
    pub fn get_mut(&mut self) -> (r: &mut R)
        ensures
            *r == old(self).inner(),
            final(self).layers() == old(self).layers(),
            final(self).inner() == *final(r),
    {
        &mut self.inner
    }

    /// Gives the assembled chain back.
    pub fn into_inner(self) -> (r: R)
        ensures
            r == self.inner(),
    {
        self.inner
    }
}

} // verus!
