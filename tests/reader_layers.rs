use object_reader::hints::AccessorHints;
use object_reader::range::{suffix_range, BytesRange};
use object_reader::reader::{
    ObjectReader, ReaderLayers, SeekLayer, StreamLayer, DEFAULT_CHUNK_CAPACITY,
};

type Plain = ObjectReader<Vec<u8>>;

fn shapes() -> Vec<BytesRange> {
    vec![
        BytesRange::new(Some(10), Some(20)),
        BytesRange::new(Some(10), None),
        BytesRange::new(None, Some(20)),
        BytesRange::new(None, None),
    ]
}

#[test]
fn capable_backend_gets_no_adapter() {
    let hints = AccessorHints::new(true, true);
    for range in shapes() {
        assert!(!Plain::needs_total_size(hints, range));
        let layers = Plain::select_layers(hints, range, None);
        assert_eq!(
            layers,
            ReaderLayers { seek: SeekLayer::Native, stream: StreamLayer::Native }
        );
    }
}

#[test]
fn seekable_backend_only_gets_chunking() {
    let hints = AccessorHints::new(true, false);
    for range in shapes() {
        let layers = Plain::select_layers(hints, range, None);
        assert_eq!(layers.seek, SeekLayer::Native);
        assert_eq!(layers.stream, StreamLayer::Buffered { capacity: 262144 });
    }
}

#[test]
fn bounded_range_keeps_offset_and_size() {
    let hints = AccessorHints::new(false, true);
    let layers = Plain::select_layers(hints, BytesRange::new(Some(10), Some(20)), None);
    assert_eq!(layers.seek, SeekLayer::ByRange { offset: 10, size: 20 });
    assert_eq!(layers.stream, StreamLayer::Native);
}

#[test]
fn offset_only_reads_to_end() {
    let hints = AccessorHints::new(false, true);
    let layers = Plain::select_layers(hints, BytesRange::new(Some(42), None), None);
    assert_eq!(layers.seek, SeekLayer::ByOffset { offset: 42 });
}

#[test]
fn whole_object_reads_from_zero() {
    let hints = AccessorHints::new(false, true);
    let layers = Plain::select_layers(hints, BytesRange::new(None, None), None);
    assert_eq!(layers.seek, SeekLayer::ByOffset { offset: 0 });
}

#[test]
fn only_suffix_without_seek_needs_total_size() {
    let no_seek = AccessorHints::new(false, false);
    let seek = AccessorHints::new(true, false);
    assert!(Plain::needs_total_size(no_seek, BytesRange::new(None, Some(5))));
    assert!(!Plain::needs_total_size(seek, BytesRange::new(None, Some(5))));
    assert!(!Plain::needs_total_size(no_seek, BytesRange::new(Some(0), Some(5))));
    assert!(!Plain::needs_total_size(no_seek, BytesRange::new(Some(3), None)));
    assert!(!Plain::needs_total_size(no_seek, BytesRange::new(None, None)));
}

#[test]
fn suffix_of_small_object_is_bounded_and_chunked() {
    let hints = AccessorHints::new(false, false);
    let range = BytesRange::new(None, Some(300));
    assert!(Plain::needs_total_size(hints, range));
    let layers = Plain::select_layers(hints, range, Some(1000));
    assert_eq!(layers.seek, SeekLayer::ByRange { offset: 700, size: 300 });
    assert_eq!(layers.stream, StreamLayer::Buffered { capacity: 256 * 1024 });
    assert_eq!(DEFAULT_CHUNK_CAPACITY, 262144);
}

#[test]
fn suffix_longer_than_object_is_clamped() {
    let hints = AccessorHints::new(false, true);
    let layers = Plain::select_layers(hints, BytesRange::new(None, Some(5000)), Some(1000));
    assert_eq!(layers.seek, SeekLayer::ByRange { offset: 0, size: 1000 });
}

#[test]
fn suffix_range_edges() {
    assert_eq!(suffix_range(300, 1000), (700, 300));
    assert_eq!(suffix_range(1000, 1000), (0, 1000));
    assert_eq!(suffix_range(1001, 1000), (0, 1000));
    assert_eq!(suffix_range(0, 1000), (1000, 0));
    assert_eq!(suffix_range(0, 0), (0, 0));
    assert_eq!(suffix_range(u64::MAX, 7), (0, 7));
    assert_eq!(suffix_range(1, u64::MAX), (u64::MAX - 1, 1));
}

#[test]
fn reader_forwards_to_its_chain() {
    let layers = ReaderLayers {
        seek: SeekLayer::ByOffset { offset: 0 },
        stream: StreamLayer::Native,
    };
    let mut r = ObjectReader::new(layers, vec![1u8, 2, 3]);
    assert_eq!(r.get_layers(), layers);
    r.get_mut().push(4);
    assert_eq!(r.get_layers(), layers);
    assert_eq!(r.into_inner(), vec![1u8, 2, 3, 4]);
}
