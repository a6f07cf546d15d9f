//! The grammar of derivation paths.
//!
//! A path such as `m/44'/60'/0'/0/0` names one key in the hierarchy of keys
//! that a seed spans. Only a path of this grammar is handed to the
//! derivation.

use vstd::prelude::*;
use vstd::string::is_ascii_spec_bytes;
use vstd::utf8::is_ascii_chars;
use crate::parse::{holds_ascii, read_unsigned, unsigned_number, Reading};

verus! {

/// The number of indices that a path may hold: the depth of a key is
/// counted in one byte.
pub const MAX_DEPTH: usize = 255;

/// The first hardened index. An index that is marked as hardened is below
/// it, and is counted from it.
pub const HARDENED_OFFSET: u32 = 0x8000_0000;

/// The segments of `text`: what stands before, between and behind its
/// slashes. A text without a slash is one segment, be it empty.
pub open spec fn split_segments(text: Seq<char>) -> Seq<Seq<char>>
    decreases text.len(),
{
    if text.len() == 0 {
        seq![Seq::empty()]
    } else {
        let before = split_segments(text.drop_last());
        if text.last() == '/' {
            before.push(Seq::empty())
        } else {
            before.drop_last().push(before.last().push(text.last()))
        }
    }
}

/// Whether `segment` is the marker `m` of the master key, which stands for
/// no index.
pub open spec fn is_master_segment(segment: Seq<char>) -> bool {
    segment == seq!['m']
}

/// Whether `segment` is an index: a decimal number, which may follow one
/// `+`, of at most 32 bits; or such a number below the hardened offset with
/// the mark `'` or `h` behind it.
pub open spec fn is_index_segment(segment: Seq<char>) -> bool {
    let hardened = segment.len() > 0 && (segment.last() == '\'' || segment.last() == 'h');
    let number = if hardened {
        segment.drop_last()
    } else {
        segment
    };
    match unsigned_number(number) {
        Some(index) => if hardened {
            index < HARDENED_OFFSET
        } else {
            index <= u32::MAX
        },
        None => false,
    }
}

/// Whether each of `segments` is the master marker or an index.
pub open spec fn segments_valid(segments: Seq<Seq<char>>) -> bool {
    forall|k: int|
        0 <= k < segments.len() ==> is_master_segment(#[trigger] segments[k]) || is_index_segment(
            segments[k],
        )
}

/// The number of `segments` that are not the master marker.
pub open spec fn index_count(segments: Seq<Seq<char>>) -> nat
    decreases segments.len(),
{
    if segments.len() == 0 {
        0
    } else {
        index_count(segments.drop_last()) + if is_master_segment(segments.last()) {
            0nat
        } else {
            1nat
        }
    }
}

/// Whether `path` is a derivation path: ASCII text whose segments are
/// indices or the master marker, with at most 255 indices. So `m` alone is
/// a path, and the empty text is none.
pub open spec fn is_derivation_path(path: Seq<char>) -> bool {
    &&& is_ascii_chars(path)
    &&& segments_valid(split_segments(path))
    &&& index_count(split_segments(path)) <= MAX_DEPTH
}

/// What a segment is.
enum SegmentKind {
    /// The marker of the master key.
    Master,
    /// An index.
    Index,
    /// Neither of the two.
    Neither,
}

/// Tells what the segment of `bytes` from `from` up to `to` is.
fn classify_segment(
    bytes: &[u8],
    from: usize,
    to: usize,
    Ghost(text): Ghost<Seq<char>>,
) -> (kind: SegmentKind)
    requires
        from <= to <= bytes@.len(),
        holds_ascii(bytes@, text),
    ensures
        kind is Master <==> is_master_segment(text.subrange(from as int, to as int)),
        kind is Index <==> !is_master_segment(text.subrange(from as int, to as int))
            && is_index_segment(text.subrange(from as int, to as int)),
{
    let ghost segment = text.subrange(from as int, to as int);
    if to - from == 1 && bytes[from] == 0x6d {
        assert(segment =~= seq!['m']);
        return SegmentKind::Master;
    }
    assert(!is_master_segment(segment)) by {
        if is_master_segment(segment) {
            assert(segment.len() == 1);
            assert(segment[0] == text[from as int]);
        }
    }
    let hardened = from < to && (bytes[to - 1] == 0x27 || bytes[to - 1] == 0x68);
    let end: usize = if hardened {
        (to - 1) as usize
    } else {
        to
    };
    proof {
        if hardened {
            assert(segment.drop_last() =~= text.subrange(from as int, end as int));
        }
    }
    match read_unsigned(bytes, from, end, u32::MAX, Ghost(text)) {
        Reading::Value(index) => if !hardened || index < HARDENED_OFFSET {
            SegmentKind::Index
        } else {
            SegmentKind::Neither
        },
        _ => SegmentKind::Neither,
    }
}

/// Whether `path` is a derivation path.
pub fn check_derivation_path(path: &str) -> (valid: bool)
    ensures
        valid == is_derivation_path(path@),
{
    if !path.is_ascii() {
        return false;
    }
    let bytes = path.as_bytes();
    let ghost text = path@;
    proof {
        is_ascii_spec_bytes(path);
    }
    let len = bytes.len();
    let mut valid = true;
    let mut count: usize = 0;
    let mut start: usize = 0;
    let mut i: usize = 0;
    while i < len
        invariant
            start <= i <= len,
            len == bytes@.len(),
            holds_ascii(bytes@, text),
            split_segments(text.subrange(0, i as int)).len() >= 1,
            split_segments(text.subrange(0, i as int)).last() == text.subrange(
                start as int,
                i as int,
            ),
            valid == segments_valid(split_segments(text.subrange(0, i as int)).drop_last()),
            count == index_count(split_segments(text.subrange(0, i as int)).drop_last()),
            count <= i,
        decreases len - i,
    {
        let ghost segments = split_segments(text.subrange(0, i as int));
        let ghost longer = text.subrange(0, i + 1);
        proof {
            assert(longer.drop_last() =~= text.subrange(0, i as int));
        }
        if bytes[i] == 0x2f {
            let kind = classify_segment(bytes, start, i, Ghost(text));
            proof {
                assert(split_segments(longer).drop_last() =~= segments);
                lemma_valid_with_last(segments);
            }
            match kind {
                SegmentKind::Master => {},
                SegmentKind::Index => {
                    count += 1;
                },
                SegmentKind::Neither => {
                    count += 1;
                    valid = false;
                },
            }
            start = i + 1;
        } else {
            proof {
                assert(split_segments(longer) == segments.drop_last().push(
                    segments.last().push(text[i as int]),
                ));
                assert(split_segments(longer).drop_last() =~= segments.drop_last());
            }
        }
        i += 1;
    }
    let kind = classify_segment(bytes, start, len, Ghost(text));
    proof {
        assert(text.subrange(0, len as int) =~= text);
        lemma_valid_with_last(split_segments(text));
    }
    match kind {
        SegmentKind::Master => valid && count <= MAX_DEPTH,
        SegmentKind::Index => valid && count < MAX_DEPTH,
        SegmentKind::Neither => false,
    }
}

/// Segments are valid where the last one is and those before it are.
proof fn lemma_valid_with_last(segments: Seq<Seq<char>>)
    requires
        segments.len() >= 1,
    ensures
        segments_valid(segments) <==> segments_valid(segments.drop_last()) && (is_master_segment(
            segments.last(),
        ) || is_index_segment(segments.last())),
{
    let front = segments.drop_last();
    if segments_valid(segments) {
        assert forall|k: int| 0 <= k < front.len() implies is_master_segment(#[trigger] front[k])
            || is_index_segment(front[k]) by {}
    }
    if segments_valid(front) && (is_master_segment(segments.last()) || is_index_segment(
        segments.last(),
    )) {
        assert forall|k: int| 0 <= k < segments.len() implies is_master_segment(
            #[trigger] segments[k],
        ) || is_index_segment(segments[k]) by {
            if k < front.len() {
                assert(front[k] == segments[k]);
            }
        }
    }
}

} // verus!
