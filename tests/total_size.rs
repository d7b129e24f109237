use object_reader::metadata::{get_total_size, record_total_size, ObjectMetadata, SizeLookup};

#[test]
fn fresh_handle_asks_for_stat() {
    let meta = ObjectMetadata::new();
    assert_eq!(meta.content_length_raw(), None);
    assert_eq!(meta.content_length(), 0);
    assert_eq!(get_total_size(&meta), SizeLookup::Stat);
}

#[test]
fn second_resolve_uses_cached_length() {
    let mut meta = ObjectMetadata::new();
    let mut stat_calls = 0;
    let mut sizes = Vec::new();
    for stat_answer in [1000u64, 2000u64] {
        let size = match get_total_size(&meta) {
            SizeLookup::Cached(v) => v,
            SizeLookup::Stat => {
                stat_calls += 1;
                record_total_size(&mut meta, stat_answer)
            }
        };
        sizes.push(size);
    }
    assert_eq!(stat_calls, 1);
    assert_eq!(sizes, vec![1000, 1000]);
    assert_eq!(meta.content_length_raw(), Some(1000));
}

#[test]
fn recorded_length_is_returned() {
    let mut meta = ObjectMetadata::new();
    assert_eq!(record_total_size(&mut meta, 0), 0);
    assert_eq!(get_total_size(&meta), SizeLookup::Cached(0));
    meta.set_content_length(77);
    assert_eq!(meta.content_length(), 77);
    assert_eq!(get_total_size(&meta), SizeLookup::Cached(77));
}
