use vstd::prelude::*;

verus! {

/// What is known of an object: its total length in bytes, once a stat call
/// has told it.
///
/// A handle of this type is shared by the caller and the size resolver; once
/// the length is set it stays.
#[derive(Clone, Copy, Debug, PartialEq, Eq, Structural)]
pub struct ObjectMetadata {
    content_length: Option<u64>,
}

impl View for ObjectMetadata {
    type V = Option<u64>;

    closed spec fn view(&self) -> Option<u64> {
        self.content_length
    }
}

/// The next move of the total-size resolver.
#[derive(Clone, Copy, Debug, PartialEq, Eq, Structural)]
pub enum SizeLookup {
    /// The length is known already: return it, no backend call.
    Cached(u64),
    /// The length is unknown: stat the object, then record what came back.
    Stat,
}

/// One resolution on a handle that holds `known`, where a stat call would
/// answer `stat_len`: the handle afterwards, the size returned, and the number
/// of stat calls issued.
pub open spec fn resolve_spec(known: Option<u64>, stat_len: u64) -> (Option<u64>, u64, nat) {
    match known {
        Some(v) => (Some(v), v, 0nat),
        None => (Some(stat_len), stat_len, 1nat),
    }
}

impl ObjectMetadata {
    /// Metadata with nothing known yet.
    pub fn new() -> (r: Self)
        ensures
            r@ is None,
    {
        ObjectMetadata { content_length: None }
    }

    /// The length if it is known.
    pub fn content_length_raw(&self) -> (r: Option<u64>)
        ensures
            r == self@,
    {
        self.content_length
    }

    /// The length, or zero while it is unknown.
    pub fn content_length(&self) -> (r: u64)
        ensures
            r == match self@ {
                Some(v) => v,
                None => 0,
            },
    {
        match self.content_length {
            Some(v) => v,
            None => 0,
        }
    }

    /// Records the object's length.
    pub fn set_content_length(&mut self, len: u64)
        ensures
            final(self)@ == Some(len),
    {
        self.content_length = Some(len);
    }
}

/// First half of resolving the total size: a known length is returned as it
/// is; otherwise the backend must be asked.
pub fn get_total_size(meta: &ObjectMetadata) -> (r: SizeLookup)
    ensures
        meta@ is Some ==> r == SizeLookup::Cached(meta@->0),
        meta@ is None ==> r == SizeLookup::Stat,
{
    match meta.content_length_raw() {
        Some(v) => SizeLookup::Cached(v),
        None => SizeLookup::Stat,
    }
}

/// Second half, after a stat call answered `stat_len`: stores it in the
/// handle and returns it.
pub fn record_total_size(meta: &mut ObjectMetadata, stat_len: u64) -> (r: u64)
    ensures
        final(meta)@ == Some(stat_len),
        r == stat_len,
        resolve_spec(None, stat_len) == (final(meta)@, r, 1nat),
{
    meta.set_content_length(stat_len);
    stat_len
}

/// Resolving twice in a row on one handle issues at most one stat call, and
/// the second resolution returns the first one's size from the handle.
pub proof fn lemma_second_resolve_is_cached(known: Option<u64>, first_stat: u64, second_stat: u64)
    ensures
        ({
            let (after_first, size_first, calls_first) = resolve_spec(known, first_stat);
            let (after_second, size_second, calls_second) = resolve_spec(
                after_first,
                second_stat,
            );
            &&& calls_first + calls_second <= 1
            &&& calls_second == 0
            &&& size_second == size_first
            &&& after_second == after_first
        }),
{
}

/// The resolver never forgets a length: once the handle holds one, a
/// resolution returns it and leaves the handle as it was.
pub proof fn lemma_known_length_is_stable(len: u64, stat_len: u64)
    ensures
        resolve_spec(Some(len), stat_len) == (Some(len), len, 0nat),
{
}

} // verus!
