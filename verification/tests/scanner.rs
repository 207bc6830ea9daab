use nal_parser::get_header_payload;
use nal_parser::HeaderCode;
use nal_parser::HeaderIndices;
use nal_parser::NALParser;

fn absent() -> HeaderIndices {
    HeaderIndices::new(None, None, None)
}

#[test]
fn header_codes_have_their_bytes() {
    assert_eq!(HeaderCode::Delimiter.code(), 0x09);
    assert_eq!(HeaderCode::Sps.code(), 0x67);
    assert_eq!(HeaderCode::Pps.code(), 0x68);
    assert_eq!(HeaderCode::KeyFrame.code(), 0x65);
    assert_eq!(HeaderCode::Sei.code(), 0x06);
}

#[test]
fn header_codes_have_their_prefix_lengths() {
    assert_eq!(HeaderCode::Delimiter.header_prefix_byte_count(), 4);
    assert_eq!(HeaderCode::Sps.header_prefix_byte_count(), 4);
    assert_eq!(HeaderCode::Pps.header_prefix_byte_count(), 4);
    assert_eq!(HeaderCode::KeyFrame.header_prefix_byte_count(), 3);
    assert_eq!(HeaderCode::Sei.header_prefix_byte_count(), 3);
}

#[test]
fn fixed_offsets() {
    assert_eq!(HeaderCode::delimiter_length(), 6);
    assert_eq!(HeaderCode::iframe_header_prefix_byte_count(), 10);
}

#[test]
fn header_indices_new_keeps_its_arguments() {
    let h = HeaderIndices::new(Some(3), Some(7), Some(1));
    assert_eq!(h.start_index, Some(3));
    assert_eq!(h.end_index, Some(7));
    assert_eq!(h.prev_header_end, Some(1));
    let n = HeaderIndices::new(None, None, None);
    assert_eq!(n.start_index, None);
    assert_eq!(n.end_index, None);
    assert_eq!(n.prev_header_end, None);
}

#[test]
fn four_byte_header_at_the_start_offset_has_no_previous_end() {
    let data = [0u8, 0, 0, 1, 0x67, 0xaa];
    let r = NALParser::index_of_four_byte_nal_unit(0, HeaderCode::Sps, &data);
    assert_eq!(r, HeaderIndices::new(Some(0), Some(4), None));
}

#[test]
fn four_byte_header_further_on_records_the_start_offset() {
    let data = [9u8, 9, 9, 0, 0, 0, 1, 0x68, 0xbb];
    let r = NALParser::index_of_four_byte_nal_unit(1, HeaderCode::Pps, &data);
    assert_eq!(r, HeaderIndices::new(Some(3), Some(7), Some(1)));
}

#[test]
fn four_byte_scan_takes_the_first_of_two_headers() {
    let data = [0u8, 0, 0, 1, 0x67, 0, 0, 0, 1, 0x67, 5];
    let r = NALParser::index_of_four_byte_nal_unit(0, HeaderCode::Sps, &data);
    assert_eq!(r, HeaderIndices::new(Some(0), Some(4), None));
    let r = NALParser::index_of_four_byte_nal_unit(1, HeaderCode::Sps, &data);
    assert_eq!(r, HeaderIndices::new(Some(5), Some(9), Some(1)));
}

#[test]
fn four_byte_scan_does_not_look_behind_its_start() {
    let data = [0u8, 0, 0, 1, 0x67, 1, 2, 3, 4, 5];
    let r = NALParser::index_of_four_byte_nal_unit(1, HeaderCode::Sps, &data);
    assert_eq!(r, absent());
}

#[test]
fn four_byte_scan_wants_the_header_byte_of_its_code() {
    let data = [0u8, 0, 0, 1, 0x67, 1, 2];
    assert_eq!(NALParser::index_of_four_byte_nal_unit(0, HeaderCode::Pps, &data), absent());
    assert_eq!(NALParser::index_of_four_byte_nal_unit(0, HeaderCode::Delimiter, &data), absent());
}

#[test]
fn four_byte_scan_needs_the_header_byte_inside_the_buffer() {
    let data = [0u8, 0, 0, 1];
    assert_eq!(NALParser::index_of_four_byte_nal_unit(0, HeaderCode::Sps, &data), absent());
    let data = [0u8, 0, 0, 1, 0x67];
    assert_eq!(
        NALParser::index_of_four_byte_nal_unit(0, HeaderCode::Sps, &data),
        HeaderIndices::new(Some(0), Some(4), None)
    );
}

#[test]
fn three_byte_header_at_the_start_offset_has_no_previous_end() {
    let data = [0u8, 0, 1, 0x65, 0xcc];
    let r = NALParser::index_of_three_byte_nal_unit(0, HeaderCode::KeyFrame, &data);
    assert_eq!(r, HeaderIndices::new(Some(0), Some(3), None));
}

#[test]
fn three_byte_header_further_on_records_the_start_offset() {
    let data = [7u8, 7, 7, 7, 0, 0, 1, 0x06, 0xdd];
    let r = NALParser::index_of_three_byte_nal_unit(2, HeaderCode::Sei, &data);
    assert_eq!(r, HeaderIndices::new(Some(4), Some(7), Some(2)));
}

#[test]
fn three_byte_scan_finds_nothing_without_a_header() {
    let data = [7u8, 7, 7, 7, 0, 0, 1, 0x06, 0xdd];
    assert_eq!(NALParser::index_of_three_byte_nal_unit(0, HeaderCode::KeyFrame, &data), absent());
    assert_eq!(NALParser::index_of_three_byte_nal_unit(5, HeaderCode::Sei, &data), absent());
}

#[test]
fn three_byte_scan_with_a_four_byte_code_stops_a_byte_earlier() {
    let data = [0u8, 0, 1, 0x67];
    assert_eq!(NALParser::index_of_three_byte_nal_unit(0, HeaderCode::Sps, &data), absent());
    let data = [0u8, 0, 1, 0x67, 0];
    assert_eq!(
        NALParser::index_of_three_byte_nal_unit(0, HeaderCode::Sps, &data),
        HeaderIndices::new(Some(0), Some(3), None)
    );
    let data = [0u8, 0, 1, 0x65];
    assert_eq!(
        NALParser::index_of_three_byte_nal_unit(0, HeaderCode::KeyFrame, &data),
        HeaderIndices::new(Some(0), Some(3), None)
    );
}

#[test]
fn four_byte_scan_with_a_three_byte_code_stays_inside_the_buffer() {
    let data = [0u8, 0, 0, 1];
    assert_eq!(NALParser::index_of_four_byte_nal_unit(0, HeaderCode::KeyFrame, &data), absent());
    let data = [5u8, 0, 0, 0, 1];
    assert_eq!(NALParser::index_of_four_byte_nal_unit(0, HeaderCode::KeyFrame, &data), absent());
    let data = [0u8, 0, 0, 1, 0x65];
    assert_eq!(
        NALParser::index_of_four_byte_nal_unit(0, HeaderCode::KeyFrame, &data),
        HeaderIndices::new(Some(0), Some(4), None)
    );
}

#[test]
fn prefix_test_is_a_bitwise_or() {
    // Any run of zeros and ones that holds a one passes for a prefix.
    let data = [1u8, 1, 1, 1, 0x67, 0];
    assert_eq!(
        NALParser::index_of_four_byte_nal_unit(0, HeaderCode::Sps, &data),
        HeaderIndices::new(Some(0), Some(4), None)
    );
    let data = [1u8, 0, 0, 0x65, 0];
    assert_eq!(
        NALParser::index_of_three_byte_nal_unit(0, HeaderCode::KeyFrame, &data),
        HeaderIndices::new(Some(0), Some(3), None)
    );
    // Zeros alone do not, nor does any other byte.
    let data = [0u8, 0, 0, 0, 0x67, 0];
    assert_eq!(NALParser::index_of_four_byte_nal_unit(0, HeaderCode::Sps, &data), absent());
    let data = [0u8, 0, 0, 2, 0x67, 0];
    assert_eq!(NALParser::index_of_four_byte_nal_unit(0, HeaderCode::Sps, &data), absent());
    let data = [0u8, 0, 3, 0x65, 0];
    assert_eq!(NALParser::index_of_three_byte_nal_unit(0, HeaderCode::KeyFrame, &data), absent());
}

#[test]
fn scanner_returns_nothing_on_buffers_shorter_than_seven_bytes() {
    let codes = [
        HeaderCode::Delimiter,
        HeaderCode::Sps,
        HeaderCode::Pps,
        HeaderCode::KeyFrame,
        HeaderCode::Sei,
    ];
    let full = [0u8, 0, 0, 1, 0x67, 0x68, 0x65];
    for len in 0..7 {
        let data = &full[..len];
        for code in codes {
            assert_eq!(NALParser::index_of_payload(data, 6, code), absent());
            assert_eq!(NALParser::index_of_four_byte_nal_unit(6, code, data), absent());
            assert_eq!(NALParser::index_of_three_byte_nal_unit(6, code, data), absent());
        }
    }
}

#[test]
fn scanner_returns_nothing_on_an_empty_buffer() {
    let data: [u8; 0] = [];
    assert_eq!(NALParser::index_of_payload(&data, 0, HeaderCode::Sps), absent());
    assert_eq!(NALParser::index_of_payload(&data, 0, HeaderCode::Sei), absent());
    assert_eq!(NALParser::index_of_four_byte_nal_unit(0, HeaderCode::Sps, &data), absent());
    assert_eq!(NALParser::index_of_three_byte_nal_unit(0, HeaderCode::Sei, &data), absent());
}

#[test]
fn scanner_returns_nothing_from_a_start_behind_the_buffer() {
    let data = [0u8, 0, 0, 1, 0x67, 0];
    assert_eq!(NALParser::index_of_payload(&data, 100, HeaderCode::Sps), absent());
    assert_eq!(NALParser::index_of_payload(&data, usize::MAX, HeaderCode::Sei), absent());
    assert_eq!(
        NALParser::index_of_four_byte_nal_unit(usize::MAX, HeaderCode::Sps, &data),
        absent()
    );
    assert_eq!(
        NALParser::index_of_three_byte_nal_unit(usize::MAX, HeaderCode::Sei, &data),
        absent()
    );
}

#[test]
fn index_of_payload_goes_by_the_prefix_length_of_the_code() {
    // A three byte prefix does not do for a code with a four byte prefix.
    let data = [2u8, 0, 0, 1, 0x67, 0, 0, 1, 0x65, 0];
    assert_eq!(NALParser::index_of_payload(&data, 0, HeaderCode::Sps), absent());
    assert_eq!(
        NALParser::index_of_payload(&data, 0, HeaderCode::KeyFrame),
        HeaderIndices::new(Some(5), Some(8), Some(0))
    );
    let data = [0u8, 0, 0, 1, 0x68, 0];
    assert_eq!(
        NALParser::index_of_payload(&data, 0, HeaderCode::Pps),
        HeaderIndices::new(Some(0), Some(4), None)
    );
}

#[test]
fn header_payload_is_the_gap_in_front_of_the_header() {
    let data = vec![10u8, 11, 12, 13, 14, 15];
    let h = HeaderIndices::new(Some(4), Some(8), Some(1));
    assert_eq!(get_header_payload(&h, &data), Some(vec![11u8, 12, 13]));
    let whole = HeaderIndices::new(Some(6), Some(9), Some(0));
    assert_eq!(get_header_payload(&whole, &data), Some(data.clone()));
    let empty = HeaderIndices::new(Some(2), Some(5), Some(2));
    assert_eq!(get_header_payload(&empty, &data), Some(vec![]));
}

#[test]
fn header_payload_is_absent_without_both_offsets() {
    let data = vec![10u8, 11, 12, 13, 14, 15];
    assert_eq!(get_header_payload(&HeaderIndices::new(Some(4), Some(8), None), &data), None);
    assert_eq!(get_header_payload(&HeaderIndices::new(None, None, Some(1)), &data), None);
    assert_eq!(get_header_payload(&HeaderIndices::new(None, None, None), &data), None);
}

#[test]
fn header_payload_is_absent_where_the_offsets_delimit_nothing() {
    let data = vec![10u8, 11, 12, 13, 14, 15];
    assert_eq!(get_header_payload(&HeaderIndices::new(Some(1), Some(5), Some(4)), &data), None);
    assert_eq!(get_header_payload(&HeaderIndices::new(Some(7), Some(11), Some(1)), &data), None);
}
