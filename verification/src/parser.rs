//! The parser that gathers the bytes of a packet and stores its segment.

use vstd::prelude::*;
use vstd::slice::slice_to_vec;
use crate::demux::access_unit;
use crate::demux::demux_access_unit;
use crate::demux::has_parameter_sets;
use crate::segment::bytes;
use crate::segment::DemuxedSegment;
use crate::segment::SegmentView;

verus! {

/// The mathematical view of a `NALParser`.
pub struct ParserView {
    /// The bytes gathered for the packet in progress, if there is one.
    pub buffer: Option<Seq<u8>>,
    /// Whether a key frame of the stream has got as far as its picture
    /// parameter set.
    pub sei_found: bool,
    /// The segments of the completed packets, oldest first.
    pub segments: Seq<SegmentView>,
    /// The presentation time of the first packet of the stream, in ticks.
    pub decoding_delay: Option<u64>,
}

impl ParserView {
    /// A parser that has seen nothing yet.
    pub open spec fn fresh() -> ParserView {
        ParserView { buffer: None, sei_found: false, segments: Seq::empty(), decoding_delay: None }
    }

    /// The state after a packet was begun with `payload`: the buffer is
    /// replaced.
    pub open spec fn begun(self, payload: Seq<u8>) -> ParserView {
        ParserView { buffer: Some(payload), ..self }
    }

    /// The state after `payload` was added to the packet in progress.
    /// Without a packet in progress nothing changes.
    pub open spec fn continued(self, payload: Seq<u8>) -> ParserView {
        match self.buffer {
            Some(gathered) => ParserView { buffer: Some(gathered + payload), ..self },
            None => self,
        }
    }

    /// The segment that the packet in progress gives when it ends.
    pub open spec fn segment_of(self, gathered: Seq<u8>, presentation_time: Option<u64>)
        -> SegmentView {
        SegmentView {
            unit: access_unit(gathered, self.sei_found),
            presentation_time,
            duration_end: None,
        }
    }

    /// The state after the packet in progress was ended: its segment is the
    /// last of the store and the buffer is gone. Without a packet in
    /// progress nothing changes.
    pub open spec fn ended(self, presentation_time: Option<u64>) -> ParserView {
        match self.buffer {
            Some(gathered) => ParserView {
                buffer: None,
                sei_found: self.sei_found || has_parameter_sets(gathered),
                segments: self.segments.push(self.segment_of(gathered, presentation_time)),
                decoding_delay: self.decoding_delay,
            },
            None => self,
        }
    }

    /// The state after the packet in progress was given up.
    pub open spec fn discarded(self) -> ParserView {
        ParserView { buffer: None, ..self }
    }

    /// The state after `ticks` was recorded as the stream's decoding delay.
    pub open spec fn delayed(self, ticks: u64) -> ParserView {
        ParserView { decoding_delay: Some(ticks), ..self }
    }

    /// The state after `ticks` was recorded as the end of the last
    /// segment's duration. Without a segment nothing changes.
    pub open spec fn previous_closed(self, ticks: u64) -> ParserView {
        if self.segments.len() > 0 {
            ParserView {
                segments: self.segments.update(
                    self.segments.len() - 1,
                    self.segments.last().closed_at(ticks),
                ),
                ..self
            }
        } else {
            self
        }
    }
}

/// The views of a sequence of segments.
pub open spec fn segment_views(segments: Seq<DemuxedSegment>) -> Seq<SegmentView> {
    segments.map_values(|s: DemuxedSegment| s@)
}

/// Gathers the payload of one PES packet at a time and keeps the segments
/// of the packets that were completed.
pub struct NALParser {
    raw_data: Option<Vec<u8>>,
    segments: Vec<DemuxedSegment>,
    sei_found: bool,
    decoding_delay: Option<u64>,
}

impl View for NALParser {
    type V = ParserView;

    closed spec fn view(&self) -> ParserView {
        ParserView {
            buffer: bytes(self.raw_data),
            sei_found: self.sei_found,
            segments: segment_views(self.segments@),
            decoding_delay: self.decoding_delay,
        }
    }
}

impl NALParser {
    /// A parser without a packet in progress and without segments.
    pub fn new() -> (r: Self)
        ensures
            r@ == ParserView::fresh(),
    {
        let r = NALParser {
            raw_data: None,
            segments: Vec::new(),
            sei_found: false,
            decoding_delay: None,
        };
        assert(segment_views(r.segments@) =~= Seq::empty());
        r
    }

    /// Begins a packet with its first fragment. What was gathered for a
    /// packet that was not ended is dropped.
    pub fn begin_packet(&mut self, payload: &[u8])
        ensures
            final(self)@ == old(self)@.begun(payload@),
    {
        self.raw_data = Some(slice_to_vec(payload));
    }

    /// Adds a fragment to the packet in progress.
    pub fn continue_packet(&mut self, payload: &[u8])
        ensures
            final(self)@ == old(self)@.continued(payload@),
    {
        match &mut self.raw_data {
            Some(vec) => {
                let ghost before = vec@;
                vec.extend_from_slice(payload);
                assert(vec@ =~= before + payload@);
            },
            None => {},
        }
    }

    /// Ends the packet in progress, which came without a presentation time.
    pub fn end_packet(&mut self)
        ensures
            final(self)@ == old(self)@.ended(None),
    {
        self.end_packet_at(None)
    }

    /// Ends the packet in progress: takes its bytes apart and stores the
    /// segment, stamped with `presentation_time`. Without a packet in
    /// progress, as after an earlier end, nothing happens.
    pub fn end_packet_at(&mut self, presentation_time: Option<u64>)
        ensures
            final(self)@ == old(self)@.ended(presentation_time),
    {
        let gathered = self.raw_data.take();
        match gathered {
            Some(data) => {
                let ghost stored = self.segments@;
                let (segment, sei_found) = demux_access_unit(
                    &data,
                    self.sei_found,
                    presentation_time,
                );
                self.sei_found = sei_found;
                self.segments.push(segment);
                assert(segment_views(self.segments@) =~= segment_views(stored).push(segment@));
            },
            None => {},
        }
    }

    /// Gives up the packet in progress. No segment is stored for it.
    pub fn discard_packet(&mut self)
        ensures
            final(self)@ == old(self)@.discarded(),
    {
        self.raw_data = None;
    }

    /// Records the presentation time of the first packet of a stream as the
    /// stream's decoding delay.
    pub fn decoding_delay(&mut self, ticks: u64)
        ensures
            final(self)@ == old(self)@.delayed(ticks),
    {
        self.decoding_delay = Some(ticks);
    }

    /// Records the presentation time of a packet as the end of the duration
    /// of the segment before it, the last of the store.
    pub fn set_duration_for_previous_packet(&mut self, ticks: u64)
        ensures
            final(self)@ == old(self)@.previous_closed(ticks),
    {
        let ghost stored = self.segments@;
        match self.segments.pop() {
            Some(previous) => {
                let mut previous = previous;
                previous.close_duration(ticks);
                self.segments.push(previous);
                assert(segment_views(self.segments@) =~= segment_views(stored).update(
                    stored.len() - 1,
                    segment_views(stored).last().closed_at(ticks),
                ));
            },
            None => {
                assert(segment_views(self.segments@) =~= segment_views(stored));
            },
        }
    }

    /// The segments of the completed packets, oldest first.
    pub fn segments(&self) -> (r: &Vec<DemuxedSegment>)
        ensures
            segment_views(r@) == self@.segments,
    {
        &self.segments
    }

    /// The number of segments stored.
    pub fn segment_count(&self) -> (n: usize)
        ensures
            n == self@.segments.len(),
    {
        self.segments.len()
    }

    /// The segment at `index`, where there is one.
    pub fn segment(&self, index: usize) -> (r: Option<&DemuxedSegment>)
        ensures
            r is Some <==> index < self@.segments.len(),
            r matches Some(s) ==> s@ == self@.segments[index as int],
    {
        if index < self.segments.len() {
            Some(&self.segments[index])
        } else {
            None
        }
    }

    /// Whether a packet is in progress.
    pub fn has_packet(&self) -> (b: bool)
        ensures
            b == self@.buffer is Some,
    {
        self.raw_data.is_some()
    }

    /// The number of bytes gathered for the packet in progress.
    pub fn buffered_len(&self) -> (r: Option<usize>)
        ensures
            r is Some <==> self@.buffer is Some,
            r matches Some(n) ==> n == self@.buffer->0.len(),
    {
        match &self.raw_data {
            Some(vec) => Some(vec.len()),
            None => None,
        }
    }

    /// Whether a key frame of the stream has got as far as its picture
    /// parameter set.
    pub fn sei_found(&self) -> (b: bool)
        ensures
            b == self@.sei_found,
    {
        self.sei_found
    }

    /// The decoding delay of the stream in ticks, once it was recorded.
    pub fn initial_decoding_delay(&self) -> (r: Option<u64>)
        ensures
            r == self@.decoding_delay,
    {
        self.decoding_delay
    }
}

} // verus!
