//! NAL unit header codes and the record of where a header was found.

use vstd::prelude::*;

verus! {

/// The NAL unit header bytes that the parser recognises.
#[derive(Clone, Copy, Debug, PartialEq, Eq, Structural)]
pub enum HeaderCode {
    /// Access unit delimiter, `00 00 00 01 09`.
    Delimiter,
    /// Sequence parameter set, `00 00 00 01 67`.
    Sps,
    /// Picture parameter set, `00 00 00 01 68`.
    Pps,
    /// Coded slice of an IDR picture, `00 00 01 65`.
    KeyFrame,
    /// Supplemental enhancement information, `00 00 01 06`.
    Sei,
}

impl HeaderCode {
    /// The header byte that follows the start code prefix.
    pub open spec fn byte(self) -> u8 {
        match self {
            HeaderCode::Delimiter => 0x09,
            HeaderCode::Sps => 0x67,
            HeaderCode::Pps => 0x68,
            HeaderCode::KeyFrame => 0x65,
            HeaderCode::Sei => 0x06,
        }
    }

    /// The number of start code prefix bytes in front of the header byte.
    pub open spec fn prefix_len(self) -> int {
        match self {
            HeaderCode::Sei | HeaderCode::KeyFrame => 3,
            _ => 4,
        }
    }

    /// The header byte of this code.
    pub fn code(&self) -> (b: u8)
        ensures
            b == self.byte(),
    {
        match self {
            HeaderCode::Delimiter => 0x09,
            HeaderCode::Sps => 0x67,
            HeaderCode::Pps => 0x68,
            HeaderCode::KeyFrame => 0x65,
            HeaderCode::Sei => 0x06,
        }
    }

    /// The length of the start code prefix of this code: three bytes for
    /// `Sei` and `KeyFrame`, four for the others.
    pub fn header_prefix_byte_count(&self) -> (n: usize)
        ensures
            n == self.prefix_len(),
    {
        match self {
            HeaderCode::Sei | HeaderCode::KeyFrame => 3,
            _ => 4,
        }
    }

    /// The offset at which the slice data of a delta frame begins: the
    /// leading delimiter and a four byte start code prefix.
    pub fn iframe_header_prefix_byte_count() -> (n: usize)
        ensures
            n == DELTA_FRAME_OFFSET,
            n == DELIMITER_LENGTH + 4,
    {
        Self::delimiter_length() + 4
    }

    /// The length of the access unit delimiter that leads every packet.
    pub fn delimiter_length() -> (n: usize)
        ensures
            n == DELIMITER_LENGTH,
    {
        DELIMITER_LENGTH
    }
}

/// The number of bytes that the leading access unit delimiter takes.
pub const DELIMITER_LENGTH: usize = 6;

/// The offset of the slice data in a packet that holds a delta frame.
pub const DELTA_FRAME_OFFSET: usize = 10;

/// Where a header was found: a record of plain offsets.
#[derive(Clone, Copy, Debug, PartialEq, Eq)]
pub struct HeaderIndices {
    /// The offset of the first byte of the start code prefix.
    pub start_index: Option<usize>,
    /// The offset of the header byte, just behind the prefix.
    pub end_index: Option<usize>,
    /// The offset the scan began at, where the header was found further on.
    pub prev_header_end: Option<usize>,
}

/// The mathematical view of `HeaderIndices`.
pub struct HeaderSpan {
    pub start: Option<int>,
    pub end: Option<int>,
    pub prev_end: Option<int>,
}

impl HeaderSpan {
    /// The span of a scan that found nothing.
    pub open spec fn absent() -> HeaderSpan {
        HeaderSpan { start: None, end: None, prev_end: None }
    }
}

/// An offset as a mathematical integer.
pub open spec fn offset_view(o: Option<usize>) -> Option<int> {
    match o {
        Some(i) => Some(i as int),
        None => None,
    }
}

impl View for HeaderIndices {
    type V = HeaderSpan;

    open spec fn view(&self) -> HeaderSpan {
        HeaderSpan {
            start: offset_view(self.start_index),
            end: offset_view(self.end_index),
            prev_end: offset_view(self.prev_header_end),
        }
    }
}

impl HeaderIndices {
    /// A record of the three offsets as given.
    pub fn new(
        start_index: Option<usize>,
        end_index: Option<usize>,
        prev_header_end_index: Option<usize>,
    ) -> (r: HeaderIndices)
        ensures
            r.start_index == start_index,
            r.end_index == end_index,
            r.prev_header_end == prev_header_end_index,
    {
        HeaderIndices { start_index, end_index, prev_header_end: prev_header_end_index }
    }
}

} // verus!
