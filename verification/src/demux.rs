//! From the bytes of one packet to its access unit.
//!
//! A packet begins with an access unit delimiter of six bytes. A key frame
//! goes on with a sequence parameter set, a picture parameter set, in the
//! first key frame of a stream supplemental enhancement information, and
//! the coded slice. A packet without a sequence parameter set holds a delta
//! frame, whose slice data begins behind a four byte prefix.

use vstd::prelude::*;
use vstd::slice::slice_subrange;
use vstd::slice::slice_to_vec;
use crate::header::offset_view;
use crate::header::HeaderCode;
use crate::header::HeaderIndices;
use crate::header::HeaderSpan;
use crate::header::DELIMITER_LENGTH;
use crate::header::DELTA_FRAME_OFFSET;
use crate::parser::NALParser;
use crate::scan::scan;
use crate::segment::bytes;
use crate::segment::AccessUnit;
use crate::segment::DemuxedSegment;
use crate::segment::SegmentView;
use crate::segment::VideoFrameType;

verus! {

/// The bytes in front of a header: from the offset its scan began at up to
/// the header's start. There are none where the header stands at the offset
/// the scan began at, where no header was found, and where the two offsets
/// do not delimit a part of the buffer.
pub open spec fn gap_payload(span: HeaderSpan, data: Seq<u8>) -> Option<Seq<u8>> {
    match (span.prev_end, span.start) {
        (Some(from), Some(to)) => if 0 <= from <= to <= data.len() {
            Some(data.subrange(from, to))
        } else {
            None
        },
        _ => None,
    }
}

/// The bytes from `from` to the end of the buffer; none where the buffer
/// ends before `from`.
pub open spec fn tail(data: Seq<u8>, from: int) -> Seq<u8> {
    if 0 <= from <= data.len() {
        data.subrange(from, data.len() as int)
    } else {
        Seq::empty()
    }
}

/// The offset in an optional offset, and zero where there is none.
pub open spec fn or_zero(offset: Option<int>) -> int {
    match offset {
        Some(i) => i,
        None => 0,
    }
}

/// The header that is looked for behind the picture parameter set: the
/// supplemental enhancement information in the first key frame of a
/// stream, the coded slice in the later ones.
pub open spec fn header_after_pps(sei_found: bool) -> HeaderCode {
    if sei_found {
        HeaderCode::KeyFrame
    } else {
        HeaderCode::Sei
    }
}

/// The offset at which the coded slice of a key frame begins, for a picture
/// parameter set whose header ends at `pps_end`. In the first key frame of a
/// stream the slice header is looked for behind the header of the
/// supplemental enhancement information, and from the start of the buffer
/// where that is missing. A slice header that is not found leaves the offset
/// at zero.
pub open spec fn key_frame_payload_start(data: Seq<u8>, pps_end: int, sei_found: bool) -> int {
    let next = scan(data, pps_end, header_after_pps(sei_found));
    if sei_found {
        or_zero(next.end)
    } else {
        or_zero(scan(data, or_zero(next.end), HeaderCode::KeyFrame).end)
    }
}

/// The access unit in the bytes of one packet. `sei_found` says whether an
/// earlier key frame of the stream has got as far as its picture parameter
/// set.
pub open spec fn access_unit(data: Seq<u8>, sei_found: bool) -> AccessUnit {
    let sps = scan(data, DELIMITER_LENGTH as int, HeaderCode::Sps);
    if sps.start is None {
        AccessUnit {
            sps: None,
            pps: None,
            frame_type: VideoFrameType::DeltaFrame,
            frame_payload: Some(tail(data, DELTA_FRAME_OFFSET as int)),
        }
    } else {
        let pps = scan(data, or_zero(sps.end), HeaderCode::Pps);
        if pps.end is None {
            AccessUnit {
                sps: None,
                pps: None,
                frame_type: VideoFrameType::KeyFrame,
                frame_payload: None,
            }
        } else {
            let pps_end = or_zero(pps.end);
            let next = scan(data, pps_end, header_after_pps(sei_found));
            AccessUnit {
                sps: gap_payload(pps, data),
                pps: gap_payload(next, data),
                frame_type: VideoFrameType::KeyFrame,
                frame_payload: Some(tail(data, key_frame_payload_start(data, pps_end, sei_found))),
            }
        }
    }
}

/// Whether the packet holds a key frame that has got as far as its picture
/// parameter set.
pub open spec fn has_parameter_sets(data: Seq<u8>) -> bool {
    let sps = scan(data, DELIMITER_LENGTH as int, HeaderCode::Sps);
    sps.start is Some && scan(data, or_zero(sps.end), HeaderCode::Pps).end is Some
}

/// The bytes in front of the header that `next_header_indices` records:
/// those from `prev_header_end` up to `start_index`.
pub fn get_header_payload(next_header_indices: &HeaderIndices, vec: &Vec<u8>) -> (r: Option<
    Vec<u8>,
>)
    ensures
        bytes(r) == gap_payload(next_header_indices@, vec@),
{
    match (next_header_indices.prev_header_end, next_header_indices.start_index) {
        (Some(from), Some(to)) => {
            if from <= to && to <= vec.len() {
                Some(slice_to_vec(slice_subrange(vec.as_slice(), from, to)))
            } else {
                None
            }
        },
        _ => None,
    }
}

/// The bytes of `data` from `from` to its end.
fn copy_tail(data: &Vec<u8>, from: usize) -> (r: Vec<u8>)
    ensures
        r@ == tail(data@, from as int),
{
    if from <= data.len() {
        slice_to_vec(slice_subrange(data.as_slice(), from, data.len()))
    } else {
        Vec::new()
    }
}

/// The offset in an optional offset, and zero where there is none.
fn offset_or_zero(offset: Option<usize>) -> (r: usize)
    ensures
        r == or_zero(offset_view(offset)),
{
    match offset {
        Some(i) => i,
        None => 0,
    }
}

/// Takes the bytes of one packet apart. Returns the segment of the access
/// unit, stamped with `presentation_time` and with its duration open, and
/// whether the stream has by now had a key frame with its parameter sets.
pub fn demux_access_unit(data: &Vec<u8>, sei_found: bool, presentation_time: Option<u64>) -> (r: (
    DemuxedSegment,
    bool,
))
    ensures
        r.0@ == (SegmentView {
            unit: access_unit(data@, sei_found),
            presentation_time,
            duration_end: None,
        }),
        r.1 == (sei_found || has_parameter_sets(data@)),
{
    let sps_header_index = NALParser::index_of_payload(
        data.as_slice(),
        HeaderCode::delimiter_length(),
        HeaderCode::Sps,
    );
    if sps_header_index.start_index.is_none() {
        let header_size = HeaderCode::iframe_header_prefix_byte_count();
        return (DemuxedSegment::delta_frame(copy_tail(data, header_size), presentation_time), sei_found);
    }
    let pps_header_index = NALParser::index_of_payload(
        data.as_slice(),
        offset_or_zero(sps_header_index.end_index),
        HeaderCode::Pps,
    );
    match pps_header_index.end_index {
        None => (DemuxedSegment::key_frame(None, None, None, presentation_time), sei_found),
        Some(pps_end_index) => {
            let sps = get_header_payload(&pps_header_index, data);
            let header = if sei_found {
                HeaderCode::KeyFrame
            } else {
                HeaderCode::Sei
            };
            let sei_or_key_frame_index = NALParser::index_of_payload(
                data.as_slice(),
                pps_end_index,
                header,
            );
            let pps = get_header_payload(&sei_or_key_frame_index, data);
            let key_frame_header_end_index = if sei_found {
                offset_or_zero(sei_or_key_frame_index.end_index)
            } else {
                let key_frame_index = NALParser::index_of_payload(
                    data.as_slice(),
                    offset_or_zero(sei_or_key_frame_index.end_index),
                    HeaderCode::KeyFrame,
                );
                offset_or_zero(key_frame_index.end_index)
            };
            let frame_payload = copy_tail(data, key_frame_header_end_index);
            (DemuxedSegment::key_frame(sps, pps, Some(frame_payload), presentation_time), true)
        },
    }
}

} // verus!
