//! The start code scanner.
//!
//! A header is looked for by its start code prefix and its header byte. The
//! test on the prefix bytes is a bitwise one: the bytes, or-ed together,
//! must give one. It accepts the prefixes `00 00 01` and `00 00 00 01`, and
//! every other run of zeros and ones that holds a one.

use vstd::prelude::*;
use crate::header::HeaderCode;
use crate::header::HeaderIndices;
use crate::header::HeaderSpan;
use crate::parser::NALParser;

verus! {

/// A four byte prefix at offset `i` with the header byte of `code` behind it.
pub open spec fn four_byte_match(data: Seq<u8>, i: int, code: HeaderCode) -> bool {
    &&& 0 <= i
    &&& i + 4 < data.len()
    &&& (data[i] | data[i + 1] | data[i + 2] | data[i + 3]) == 1
    &&& data[i + 4] == code.byte()
}

/// A three byte prefix at offset `i` with the header byte of `code` behind
/// it. No offset counts from which the buffer holds no more bytes than the
/// prefix of `code` is long.
pub open spec fn three_byte_match(data: Seq<u8>, i: int, code: HeaderCode) -> bool {
    &&& 0 <= i
    &&& i + 3 < data.len()
    &&& i + code.prefix_len() < data.len()
    &&& (data[i] | data[i + 1] | data[i + 2]) == 1
    &&& data[i + 3] == code.byte()
}

/// A prefix of `width` bytes at offset `i` with the header byte of `code`
/// behind it; `width` is three or four.
pub open spec fn prefix_match(data: Seq<u8>, i: int, width: int, code: HeaderCode) -> bool {
    if width == 3 {
        three_byte_match(data, i, code)
    } else {
        four_byte_match(data, i, code)
    }
}

/// Offset `i` is the first at or behind `from` that holds a match.
pub open spec fn is_first_match(
    data: Seq<u8>,
    from: int,
    width: int,
    code: HeaderCode,
    i: int,
) -> bool {
    &&& from <= i
    &&& prefix_match(data, i, width, code)
    &&& forall|j: int| from <= j < i ==> !prefix_match(data, j, width, code)
}

/// No offset at or behind `from` holds a match.
pub open spec fn no_match_from(data: Seq<u8>, from: int, width: int, code: HeaderCode) -> bool {
    forall|j: int| from <= j ==> !prefix_match(data, j, width, code)
}

/// The span of a header found at offset `i` by a scan that began at `from`.
/// The span ends at the header byte. Where the header stands at `from`
/// itself, nothing lies in front of it and `prev_end` is absent.
pub open spec fn span_at(from: int, width: int, i: int) -> HeaderSpan {
    HeaderSpan {
        start: Some(i),
        end: Some(i + width),
        prev_end: if i == from {
            None
        } else {
            Some(from)
        },
    }
}

/// What a scan for `code` with a prefix of `width` bytes finds from offset
/// `from` on: the span of the first match, or nothing.
pub open spec fn scan_with(data: Seq<u8>, from: int, width: int, code: HeaderCode) -> HeaderSpan {
    if exists|i: int| is_first_match(data, from, width, code, i) {
        span_at(from, width, choose|i: int| is_first_match(data, from, width, code, i))
    } else {
        HeaderSpan::absent()
    }
}

/// What a scan for `code` finds from offset `from` on, the prefix taken as
/// long as `code` has it.
pub open spec fn scan(data: Seq<u8>, from: int, code: HeaderCode) -> HeaderSpan {
    scan_with(data, from, code.prefix_len(), code)
}

/// A buffer holds at most one first match.
pub proof fn lemma_first_match_unique(
    data: Seq<u8>,
    from: int,
    width: int,
    code: HeaderCode,
    a: int,
    b: int,
)
    requires
        is_first_match(data, from, width, code, a),
        is_first_match(data, from, width, code, b),
    ensures
        a == b,
{
    if a < b {
        assert(!prefix_match(data, a, width, code));
    } else if b < a {
        assert(!prefix_match(data, b, width, code));
    }
}

/// A scan finds the first match.
pub proof fn lemma_scan_finds(data: Seq<u8>, from: int, width: int, code: HeaderCode, i: int)
    requires
        is_first_match(data, from, width, code, i),
    ensures
        scan_with(data, from, width, code) == span_at(from, width, i),
{
    let c = choose|k: int| is_first_match(data, from, width, code, k);
    lemma_first_match_unique(data, from, width, code, c, i);
}

/// A scan of a buffer without a match finds nothing.
pub proof fn lemma_scan_finds_nothing(data: Seq<u8>, from: int, width: int, code: HeaderCode)
    requires
        no_match_from(data, from, width, code),
    ensures
        scan_with(data, from, width, code) == HeaderSpan::absent(),
{
    assert forall|i: int| !is_first_match(data, from, width, code, i) by {
        if from <= i {
            assert(!prefix_match(data, i, width, code));
        }
    }
}

/// Whatever a scan finds lies inside the buffer, behind the offset the scan
/// began at, and the three offsets go together: a header that was found has
/// its start and its end, one that was not has none of the three.
pub proof fn lemma_scan_bounds(data: Seq<u8>, from: int, width: int, code: HeaderCode)
    requires
        0 <= from,
        width == 3 || width == 4,
    ensures
        ({
            let s = scan_with(data, from, width, code);
            &&& s.start is Some <==> s.end is Some
            &&& s.start is None ==> s.prev_end is None
            &&& s.start matches Some(i) ==> {
                &&& from <= i
                &&& s.end == Some(i + width)
                &&& i + width < data.len()
                &&& is_first_match(data, from, width, code, i)
                &&& s.prev_end matches Some(p) ==> p == from && p < i
            }
        }),
{
}

impl NALParser {
    /// Looks for `header_coder` from `start_index` on, with the prefix as
    /// long as the code has it.
    pub fn index_of_payload(data_stream: &[u8], start_index: usize, header_coder: HeaderCode) -> (r:
        HeaderIndices)
        ensures
            r@ == scan(data_stream@, start_index as int, header_coder),
            r.start_index matches Some(i) ==> {
                &&& is_first_match(
                    data_stream@,
                    start_index as int,
                    header_coder.prefix_len(),
                    header_coder,
                    i as int,
                )
                &&& r.end_index == Some((i + header_coder.prefix_len()) as usize)
                &&& r.prev_header_end == if i == start_index {
                    None
                } else {
                    Some(start_index)
                }
            },
            r.start_index is None ==> {
                &&& no_match_from(
                    data_stream@,
                    start_index as int,
                    header_coder.prefix_len(),
                    header_coder,
                )
                &&& r.end_index is None
                &&& r.prev_header_end is None
            },
    {
        if header_coder.header_prefix_byte_count() == 3 {
            Self::index_of_three_byte_nal_unit(start_index, header_coder, data_stream)
        } else {
            Self::index_of_four_byte_nal_unit(start_index, header_coder, data_stream)
        }
    }

    /// Looks from `start_index` on for the first offset that holds a four
    /// byte prefix and then the header byte of `header_code`.
    pub fn index_of_four_byte_nal_unit(
        start_index: usize,
        header_code: HeaderCode,
        data_stream: &[u8],
    ) -> (r: HeaderIndices)
        ensures
            r@ == scan_with(data_stream@, start_index as int, 4, header_code),
            r.start_index matches Some(i) ==> {
                &&& is_first_match(data_stream@, start_index as int, 4, header_code, i as int)
                &&& r.end_index == Some((i + 4) as usize)
                &&& r.prev_header_end == if i == start_index {
                    None
                } else {
                    Some(start_index)
                }
            },
            r.start_index is None ==> {
                &&& no_match_from(data_stream@, start_index as int, 4, header_code)
                &&& r.end_index is None
                &&& r.prev_header_end is None
            },
    {
        let len = data_stream.len();
        if len <= 4 {
            proof {
                lemma_scan_finds_nothing(data_stream@, start_index as int, 4, header_code);
            }
            return HeaderIndices::new(None, None, None);
        }
        let limit = len - 4;
        let code = header_code.code();
        let start = start_index;
        let mut iterator = start_index;
        while iterator < limit
            invariant
                start == start_index,
                start <= iterator,
                limit + 4 == data_stream@.len(),
                code == header_code.byte(),
                forall|j: int| start <= j < iterator ==> !four_byte_match(data_stream@, j, header_code),
            decreases limit - iterator,
        {
            let byte_zero = data_stream[iterator];
            let byte_one = data_stream[iterator + 1];
            let byte_two = data_stream[iterator + 2];
            let byte_three = data_stream[iterator + 3];
            let byte_four = data_stream[iterator + 4];

            let contains = (byte_zero | byte_one | byte_two | byte_three) == 1 && byte_four == code;
            if contains {
                proof {
                    assert(is_first_match(data_stream@, start as int, 4, header_code, iterator as int));
                    lemma_scan_finds(data_stream@, start as int, 4, header_code, iterator as int);
                }
                if start == iterator {
                    return HeaderIndices::new(Some(iterator), Some(iterator + 4), None);
                }
                return HeaderIndices::new(Some(iterator), Some(iterator + 4), Some(start));
            }
            iterator = iterator + 1;
        }
        proof {
            lemma_scan_finds_nothing(data_stream@, start_index as int, 4, header_code);
        }
        HeaderIndices::new(None, None, None)
    }

    /// Looks from `start_index` on for the first offset that holds a three
    /// byte prefix and then the header byte of `header_code`. The scan ends
    /// where the buffer holds no more bytes than the prefix of `header_code`
    /// is long.
    pub fn index_of_three_byte_nal_unit(
        start_index: usize,
        header_code: HeaderCode,
        data_stream: &[u8],
    ) -> (r: HeaderIndices)
        ensures
            r@ == scan_with(data_stream@, start_index as int, 3, header_code),
            r.start_index matches Some(i) ==> {
                &&& is_first_match(data_stream@, start_index as int, 3, header_code, i as int)
                &&& r.end_index == Some((i + 3) as usize)
                &&& r.prev_header_end == if i == start_index {
                    None
                } else {
                    Some(start_index)
                }
            },
            r.start_index is None ==> {
                &&& no_match_from(data_stream@, start_index as int, 3, header_code)
                &&& r.end_index is None
                &&& r.prev_header_end is None
            },
    {
        let len = data_stream.len();
        let reach = header_code.header_prefix_byte_count();
        if len <= reach {
            proof {
                lemma_scan_finds_nothing(data_stream@, start_index as int, 3, header_code);
            }
            return HeaderIndices::new(None, None, None);
        }
        let limit = len - reach;
        let code = header_code.code();
        let start = start_index;
        let mut iterator = start_index;
        while iterator < limit
            invariant
                start == start_index,
                start <= iterator,
                reach == header_code.prefix_len(),
                limit + reach == data_stream@.len(),
                code == header_code.byte(),
                forall|j: int| start <= j < iterator ==> !three_byte_match(data_stream@, j, header_code),
            decreases limit - iterator,
        {
            let byte_zero = data_stream[iterator];
            let byte_one = data_stream[iterator + 1];
            let byte_two = data_stream[iterator + 2];
            let byte_three = data_stream[iterator + 3];

            let contains = (byte_zero | byte_one | byte_two) == 1 && byte_three == code;
            if contains {
                proof {
                    assert(is_first_match(data_stream@, start as int, 3, header_code, iterator as int));
                    lemma_scan_finds(data_stream@, start as int, 3, header_code, iterator as int);
                }
                if start == iterator {
                    return HeaderIndices::new(Some(iterator), Some(iterator + 3), None);
                }
                return HeaderIndices::new(Some(iterator), Some(iterator + 3), Some(start));
            }
            iterator = iterator + 1;
        }
        proof {
            lemma_scan_finds_nothing(data_stream@, start_index as int, 3, header_code);
        }
        HeaderIndices::new(None, None, None)
    }
}

} // verus!
