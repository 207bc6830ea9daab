//! What holds of the scanner and of the access units it leads to.

use vstd::prelude::*;
use crate::demux::access_unit;
use crate::demux::gap_payload;
use crate::demux::has_parameter_sets;
use crate::demux::header_after_pps;
use crate::demux::tail;
use crate::header::HeaderCode;
use crate::header::HeaderSpan;
use crate::header::DELIMITER_LENGTH;
use crate::header::DELTA_FRAME_OFFSET;
use crate::scan::is_first_match;
use crate::scan::lemma_scan_bounds;
use crate::scan::lemma_scan_finds;
use crate::scan::lemma_scan_finds_nothing;
use crate::scan::no_match_from;
use crate::scan::prefix_match;
use crate::scan::scan;
use crate::scan::scan_with;
use crate::scan::span_at;
use crate::segment::AccessUnit;
use crate::segment::VideoFrameType;

verus! {

/// The start code of `code` stands at offset `at`: zeros, a one, and the
/// header byte.
pub open spec fn header_at(data: Seq<u8>, at: int, code: HeaderCode) -> bool {
    &&& 0 <= at
    &&& at + code.prefix_len() < data.len()
    &&& forall|j: int| at <= j < at + code.prefix_len() - 1 ==> data[j] == 0
    &&& data[at + code.prefix_len() - 1] == 1
    &&& data[at + code.prefix_len()] == code.byte()
}

/// The scanner's test on the prefix bytes passes on the two start code
/// prefixes.
pub proof fn lemma_prefix_test_accepts_start_codes()
    ensures
        (0u8 | 0u8 | 1u8) == 1u8,
        (0u8 | 0u8 | 0u8 | 1u8) == 1u8,
{
    assert((0u8 | 0u8 | 1u8) == 1u8) by (bit_vector);
    assert((0u8 | 0u8 | 0u8 | 1u8) == 1u8) by (bit_vector);
}

/// The scanner's test on three prefix bytes passes exactly where each byte
/// is zero or one and one of them is one.
pub proof fn lemma_three_byte_prefix_test(a: u8, b: u8, c: u8)
    ensures
        ((a | b | c) == 1u8) <==> (a <= 1 && b <= 1 && c <= 1 && (a == 1 || b == 1 || c == 1)),
{
    assert(((a | b | c) == 1u8) <==> (a <= 1 && b <= 1 && c <= 1 && (a == 1 || b == 1 || c == 1)))
        by (bit_vector);
}

/// The scanner's test on four prefix bytes passes exactly where each byte
/// is zero or one and one of them is one.
pub proof fn lemma_four_byte_prefix_test(a: u8, b: u8, c: u8, d: u8)
    ensures
        ((a | b | c | d) == 1u8) <==> (a <= 1 && b <= 1 && c <= 1 && d <= 1 && (a == 1 || b == 1
            || c == 1 || d == 1)),
{
    assert(((a | b | c | d) == 1u8) <==> (a <= 1 && b <= 1 && c <= 1 && d <= 1 && (a == 1 || b
        == 1 || c == 1 || d == 1))) by (bit_vector);
}

/// Where the start code of `code` stands, the scanner's test for `code`
/// passes.
pub proof fn lemma_header_matches(data: Seq<u8>, at: int, code: HeaderCode)
    requires
        header_at(data, at, code),
    ensures
        prefix_match(data, at, code.prefix_len(), code),
{
    lemma_prefix_test_accepts_start_codes();
    assert(data[at] == 0);
    assert(data[at + 1] == 0);
    if code.prefix_len() == 4 {
        assert(data[at + 2] == 0);
    }
}

/// The bytes of `unit` stand in `data` at offset `at`.
pub open spec fn unit_at(data: Seq<u8>, at: int, unit: Seq<u8>) -> bool {
    &&& 0 <= at
    &&& at + unit.len() <= data.len()
    &&& data.subrange(at, at + unit.len()) == unit
}

/// A NAL unit of the kind `code`: it begins with the header byte.
pub open spec fn is_unit_of(unit: Seq<u8>, code: HeaderCode) -> bool {
    unit.len() > 0 && unit[0] == code.byte()
}

/// Nowhere in `unit` does the scanner's test for `code` pass.
pub open spec fn free_of(unit: Seq<u8>, code: HeaderCode) -> bool {
    forall|k: int| !prefix_match(unit, k, code.prefix_len(), code)
}

/// The start code prefix of three bytes.
pub open spec fn short_prefix() -> Seq<u8> {
    seq![0u8, 0u8, 1u8]
}

/// The start code prefix of four bytes.
pub open spec fn long_prefix() -> Seq<u8> {
    seq![0u8, 0u8, 0u8, 1u8]
}

/// The start code prefix that `code` has.
pub open spec fn prefix_of(code: HeaderCode) -> Seq<u8> {
    if code.prefix_len() == 3 {
        short_prefix()
    } else {
        long_prefix()
    }
}

/// A scan for `code` that begins at a unit free of `code` runs to the end
/// of the unit, where the start code of `code` stands behind it, and the
/// bytes in front of the header found are those of the unit.
pub proof fn lemma_scan_crosses_unit(data: Seq<u8>, from: int, unit: Seq<u8>, code: HeaderCode)
    requires
        unit.len() > 0,
        unit_at(data, from, unit),
        free_of(unit, code),
        header_at(data, from + unit.len(), code),
    ensures
        scan(data, from, code) == span_at(from, code.prefix_len(), from + unit.len()),
        gap_payload(scan(data, from, code), data) == Some(unit),
{
    let w = code.prefix_len();
    let t = from + unit.len();
    lemma_header_matches(data, t, code);
    assert forall|j: int| from <= j < t implies !prefix_match(data, j, w, code) by {
        if j + w < t {
            let k = j - from;
            assert(unit[k] == data[j]);
            assert(unit[k + 1] == data[j + 1]);
            assert(unit[k + 2] == data[j + 2]);
            assert(unit[k + 3] == data[j + 3]);
            if w == 4 {
                assert(unit[k + 4] == data[j + 4]);
            }
            assert(!prefix_match(unit, k, w, code));
        } else {
            assert(data[j + w] == 0 || data[j + w] == 1);
        }
    }
    assert(is_first_match(data, from, w, code, t));
    lemma_scan_finds(data, from, w, code, t);
}

/// A start code prefix with a unit of the kind `code` behind it makes the
/// start code of `code`.
pub proof fn lemma_header_from_parts(data: Seq<u8>, at: int, code: HeaderCode, unit: Seq<u8>)
    requires
        unit_at(data, at, prefix_of(code)),
        unit_at(data, at + code.prefix_len(), unit),
        is_unit_of(unit, code),
    ensures
        header_at(data, at, code),
{
    let w = code.prefix_len();
    let prefix = prefix_of(code);
    assert(prefix.len() == w);
    assert forall|j: int| at <= j < at + w implies data[j] == prefix[j - at] by {
        assert(data.subrange(at, at + w)[j - at] == data[j]);
    }
    assert(data[at + w - 1] == prefix[w - 1]);
    assert(data.subrange(at + w, at + w + unit.len())[0] == data[at + w]);
}

/// The packet of the first key frame of a stream: the delimiter, and behind
/// their start code prefixes the sequence parameter set, the picture
/// parameter set, the supplemental enhancement information and the coded
/// slice.
pub open spec fn first_key_frame_packet(
    delimiter: Seq<u8>,
    sps: Seq<u8>,
    pps: Seq<u8>,
    sei: Seq<u8>,
    frame: Seq<u8>,
) -> Seq<u8> {
    delimiter + long_prefix() + sps + long_prefix() + pps + short_prefix() + sei + short_prefix()
        + frame
}

/// The packet of a later key frame: as the first, without supplemental
/// enhancement information.
pub open spec fn later_key_frame_packet(
    delimiter: Seq<u8>,
    sps: Seq<u8>,
    pps: Seq<u8>,
    frame: Seq<u8>,
) -> Seq<u8> {
    delimiter + long_prefix() + sps + long_prefix() + pps + short_prefix() + frame
}

/// The first key frame of a stream comes apart into its units: the
/// parameter sets are the bytes between the start code prefixes, and the
/// frame payload is the coded slice. Each unit begins with its header byte.
/// A unit must not hold what the scanner takes for the header that is
/// looked for across it.
pub proof fn lemma_first_key_frame(
    delimiter: Seq<u8>,
    sps: Seq<u8>,
    pps: Seq<u8>,
    sei: Seq<u8>,
    frame: Seq<u8>,
)
    requires
        delimiter.len() == DELIMITER_LENGTH,
        is_unit_of(sps, HeaderCode::Sps),
        is_unit_of(pps, HeaderCode::Pps),
        is_unit_of(sei, HeaderCode::Sei),
        is_unit_of(frame, HeaderCode::KeyFrame),
        free_of(sps, HeaderCode::Pps),
        free_of(pps, HeaderCode::Sei),
        free_of(sei, HeaderCode::KeyFrame),
    ensures
        access_unit(first_key_frame_packet(delimiter, sps, pps, sei, frame), false) == (AccessUnit {
            sps: Some(sps),
            pps: Some(pps),
            frame_type: VideoFrameType::KeyFrame,
            frame_payload: Some(frame),
        }),
        has_parameter_sets(first_key_frame_packet(delimiter, sps, pps, sei, frame)),
{
    let data = first_key_frame_packet(delimiter, sps, pps, sei, frame);
    let p: int = 10int + sps.len();
    let q: int = p + 4 + pps.len();
    let r: int = q + 3 + sei.len();
    assert(data.len() == r + 3 + frame.len());
    assert(data.subrange(6, 10) =~= long_prefix());
    assert(data.subrange(10, p) =~= sps);
    assert(data.subrange(p, p + 4) =~= long_prefix());
    assert(data.subrange(p + 4, q) =~= pps);
    assert(data.subrange(q, q + 3) =~= short_prefix());
    assert(data.subrange(q + 3, r) =~= sei);
    assert(data.subrange(r, r + 3) =~= short_prefix());
    assert(data.subrange(r + 3, data.len() as int) =~= frame);

    lemma_header_from_parts(data, 6, HeaderCode::Sps, sps);
    lemma_header_matches(data, 6, HeaderCode::Sps);
    assert(is_first_match(data, 6, 4, HeaderCode::Sps, 6));
    lemma_scan_finds(data, 6, 4, HeaderCode::Sps, 6);

    lemma_header_from_parts(data, p, HeaderCode::Pps, pps);
    lemma_scan_crosses_unit(data, 10, sps, HeaderCode::Pps);

    lemma_header_from_parts(data, q, HeaderCode::Sei, sei);
    lemma_scan_crosses_unit(data, p + 4, pps, HeaderCode::Sei);

    lemma_header_from_parts(data, r, HeaderCode::KeyFrame, frame);
    lemma_scan_crosses_unit(data, q + 3, sei, HeaderCode::KeyFrame);
}

/// A later key frame of a stream, which has no supplemental enhancement
/// information, comes apart into its units as the first does.
pub proof fn lemma_later_key_frame(delimiter: Seq<u8>, sps: Seq<u8>, pps: Seq<u8>, frame: Seq<u8>)
    requires
        delimiter.len() == DELIMITER_LENGTH,
        is_unit_of(sps, HeaderCode::Sps),
        is_unit_of(pps, HeaderCode::Pps),
        is_unit_of(frame, HeaderCode::KeyFrame),
        free_of(sps, HeaderCode::Pps),
        free_of(pps, HeaderCode::KeyFrame),
    ensures
        access_unit(later_key_frame_packet(delimiter, sps, pps, frame), true) == (AccessUnit {
            sps: Some(sps),
            pps: Some(pps),
            frame_type: VideoFrameType::KeyFrame,
            frame_payload: Some(frame),
        }),
{
    let data = later_key_frame_packet(delimiter, sps, pps, frame);
    let p: int = 10int + sps.len();
    let q: int = p + 4 + pps.len();
    assert(data.len() == q + 3 + frame.len());
    assert(data.subrange(6, 10) =~= long_prefix());
    assert(data.subrange(10, p) =~= sps);
    assert(data.subrange(p, p + 4) =~= long_prefix());
    assert(data.subrange(p + 4, q) =~= pps);
    assert(data.subrange(q, q + 3) =~= short_prefix());
    assert(data.subrange(q + 3, data.len() as int) =~= frame);

    lemma_header_from_parts(data, 6, HeaderCode::Sps, sps);
    lemma_header_matches(data, 6, HeaderCode::Sps);
    assert(is_first_match(data, 6, 4, HeaderCode::Sps, 6));
    lemma_scan_finds(data, 6, 4, HeaderCode::Sps, 6);

    lemma_header_from_parts(data, p, HeaderCode::Pps, pps);
    lemma_scan_crosses_unit(data, 10, sps, HeaderCode::Pps);

    lemma_header_from_parts(data, q, HeaderCode::KeyFrame, frame);
    lemma_scan_crosses_unit(data, p + 4, pps, HeaderCode::KeyFrame);
}

/// A packet without a sequence parameter set behind the delimiter holds a
/// delta frame, whose payload is what the packet holds from its tenth byte
/// on.
pub proof fn lemma_delta_frame(data: Seq<u8>, sei_found: bool)
    requires
        no_match_from(data, DELIMITER_LENGTH as int, 4, HeaderCode::Sps),
    ensures
        access_unit(data, sei_found) == (AccessUnit {
            sps: None,
            pps: None,
            frame_type: VideoFrameType::DeltaFrame,
            frame_payload: Some(tail(data, DELTA_FRAME_OFFSET as int)),
        }),
        !has_parameter_sets(data),
{
    lemma_scan_finds_nothing(data, DELIMITER_LENGTH as int, 4, HeaderCode::Sps);
}

/// A packet is a key frame exactly where a sequence parameter set is found
/// behind the delimiter.
pub proof fn lemma_frame_type(data: Seq<u8>, sei_found: bool)
    ensures
        access_unit(data, sei_found).frame_type is KeyFrame <==> exists|i: int|
            DELIMITER_LENGTH <= i && prefix_match(data, i, 4, HeaderCode::Sps),
{
    let from = DELIMITER_LENGTH as int;
    if exists|i: int| from <= i && prefix_match(data, i, 4, HeaderCode::Sps) {
        let i = choose|i: int| from <= i && prefix_match(data, i, 4, HeaderCode::Sps);
        lemma_first_match_exists(data, from, 4, HeaderCode::Sps, i);
    } else {
        lemma_scan_finds_nothing(data, from, 4, HeaderCode::Sps);
    }
}

/// Where a match lies at or behind `from`, there is a first one.
pub proof fn lemma_first_match_exists(
    data: Seq<u8>,
    from: int,
    width: int,
    code: HeaderCode,
    i: int,
)
    requires
        from <= i,
        prefix_match(data, i, width, code),
    ensures
        exists|k: int| is_first_match(data, from, width, code, k),
        scan_with(data, from, width, code).start is Some,
    decreases i - from,
{
    if forall|j: int| from <= j < i ==> !prefix_match(data, j, width, code) {
        assert(is_first_match(data, from, width, code, i));
    } else {
        let j = choose|j: int| from <= j < i && prefix_match(data, j, width, code);
        lemma_first_match_exists(data, from, width, code, j);
    }
}

/// Every access unit is well formed: parameter sets come with key frames
/// only.
pub proof fn lemma_access_unit_well_formed(data: Seq<u8>, sei_found: bool)
    ensures
        access_unit(data, sei_found).well_formed(),
{
}

/// A parameter set that was cut out of a packet is not empty and begins
/// with its header byte.
pub proof fn lemma_parameter_sets_begin_with_their_header(data: Seq<u8>, sei_found: bool)
    ensures
        access_unit(data, sei_found).sps matches Some(sps) ==> is_unit_of(sps, HeaderCode::Sps),
        access_unit(data, sei_found).pps matches Some(pps) ==> is_unit_of(pps, HeaderCode::Pps),
{
    let from = DELIMITER_LENGTH as int;
    let sps = scan(data, from, HeaderCode::Sps);
    lemma_scan_bounds(data, from, 4, HeaderCode::Sps);
    if sps.start is Some {
        let sps_end = sps.end->0;
        let pps = scan(data, sps_end, HeaderCode::Pps);
        lemma_scan_bounds(data, sps_end, 4, HeaderCode::Pps);
        if pps.end is Some {
            let pps_end = pps.end->0;
            let code = header_after_pps(sei_found);
            lemma_scan_bounds(data, pps_end, 3, code);
            if access_unit(data, sei_found).sps is Some {
                let cut = access_unit(data, sei_found).sps->0;
                assert(cut == data.subrange(sps_end, pps.start->0));
                assert(cut[0] == data[sps_end]);
            }
            if access_unit(data, sei_found).pps is Some {
                let next = scan(data, pps_end, code);
                let cut = access_unit(data, sei_found).pps->0;
                assert(cut == data.subrange(pps_end, next.start->0));
                assert(cut[0] == data[pps_end]);
            }
        }
    }
}

/// A scan that begins where the buffer holds no more bytes than the prefix
/// is long finds nothing. So a buffer of less than seven bytes has no
/// header behind its delimiter.
pub proof fn lemma_short_buffer(data: Seq<u8>, from: int, code: HeaderCode)
    requires
        from + code.prefix_len() >= data.len() || (data.len() < 7 && from >= DELIMITER_LENGTH),
    ensures
        scan(data, from, code) == HeaderSpan::absent(),
{
    lemma_scan_finds_nothing(data, from, code.prefix_len(), code);
}

} // verus!
