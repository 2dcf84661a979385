use vstd::prelude::*;

verus! {

/// The last segment of `path` as read from `at` on, where the segment that
/// is being read starts at `start`: segments are parted by `::`, and the
/// separators are read from the left.
pub open spec fn segment_from(path: Seq<char>, start: int, at: int) -> Seq<char>
    decreases path.len() - at,
{
    if at + 1 >= path.len() {
        path.skip(start)
    } else if path[at] == ':' && path[at + 1] == ':' {
        segment_from(path, at + 2, at + 2)
    } else {
        segment_from(path, start, at + 1)
    }
}

/// The last segment of a path whose segments are parted by `::`. A path
/// without a separator is its own last segment.
pub open spec fn last_segment_of(path: Seq<char>) -> Seq<char> {
    segment_from(path, 0, 0)
}

/// The last segment of a path whose segments are parted by `::`.
pub fn last_segment(path: &str) -> (segment: String)
    ensures
        segment@ == last_segment_of(path@),
{
    let len = path.unicode_len();
    let mut start: usize = 0;
    let mut at: usize = 0;
    while at < len && at + 1 < len
        invariant
            len == path@.len(),
            start <= at <= len,
            last_segment_of(path@) == segment_from(path@, start as int, at as int),
        decreases len - at,
    {
        if path.get_char(at) == ':' && path.get_char(at + 1) == ':' {
            at += 2;
            start = at;
        } else {
            at += 1;
        }
    }
    path.substring_char(start, len).to_owned()
}

} // verus!
