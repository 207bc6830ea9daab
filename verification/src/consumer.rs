//! The life cycle of a stream: what the demultiplexer tells of its packets,
//! and what becomes of the presentation times that come with them.

use vstd::prelude::*;
use crate::parser::NALParser;
use crate::parser::ParserView;

verus! {

/// The mathematical view of an `ElementaryStreamConsumer`.
pub struct ConsumerView {
    /// The parser that gathers the packets and keeps the segments.
    pub parser: ParserView,
    /// Whether the stream has had no presentation time yet.
    pub first_packet: bool,
    /// The presentation time of the packet in progress, in ticks.
    pub packet_time: Option<u64>,
}

impl ConsumerView {
    /// A consumer at the start of its first stream.
    pub open spec fn fresh() -> ConsumerView {
        ConsumerView { parser: ParserView::fresh(), first_packet: true, packet_time: None }
    }

    /// The state after the start of a stream: the next presentation time is
    /// taken as the first of the stream.
    pub open spec fn stream_started(self) -> ConsumerView {
        ConsumerView { first_packet: true, ..self }
    }

    /// What a presentation time does to the parser. The first of a stream
    /// is the stream's decoding delay; each later one ends the duration of
    /// the segment stored last.
    pub open spec fn annotated(self, timestamp: Option<u64>) -> ParserView {
        match timestamp {
            Some(ticks) => if self.first_packet {
                self.parser.delayed(ticks)
            } else {
                self.parser.previous_closed(ticks)
            },
            None => self.parser,
        }
    }

    /// The state after a packet was begun with `payload` and `timestamp`.
    pub open spec fn packet_begun(self, payload: Seq<u8>, timestamp: Option<u64>) -> ConsumerView {
        ConsumerView {
            parser: self.annotated(timestamp).begun(payload),
            first_packet: self.first_packet && timestamp is None,
            packet_time: timestamp,
        }
    }

    /// The state after `payload` was added to the packet in progress.
    pub open spec fn packet_continued(self, payload: Seq<u8>) -> ConsumerView {
        ConsumerView { parser: self.parser.continued(payload), ..self }
    }

    /// The state after the packet in progress was ended.
    pub open spec fn packet_ended(self) -> ConsumerView {
        ConsumerView { parser: self.parser.ended(self.packet_time), packet_time: None, ..self }
    }

    /// The state after a gap in the stream was reported: the packet in
    /// progress is given up.
    pub open spec fn interrupted(self) -> ConsumerView {
        ConsumerView { parser: self.parser.discarded(), packet_time: None, ..self }
    }
}

/// Takes the calls of a demultiplexer for one elementary stream after the
/// other, and hands the packets and their presentation times to a parser.
pub struct ElementaryStreamConsumer {
    nal_parser: NALParser,
    is_first_packet: bool,
    packet_time: Option<u64>,
}

impl View for ElementaryStreamConsumer {
    type V = ConsumerView;

    closed spec fn view(&self) -> ConsumerView {
        ConsumerView {
            parser: self.nal_parser@,
            first_packet: self.is_first_packet,
            packet_time: self.packet_time,
        }
    }
}

impl ElementaryStreamConsumer {
    /// A consumer at the start of its first stream.
    pub fn new() -> (r: Self)
        ensures
            r@ == ConsumerView::fresh(),
    {
        ElementaryStreamConsumer {
            nal_parser: NALParser::new(),
            is_first_packet: true,
            packet_time: None,
        }
    }

    /// A new stream starts: its first presentation time will be its
    /// decoding delay.
    pub fn start_stream(&mut self)
        ensures
            final(self)@ == old(self)@.stream_started(),
    {
        self.is_first_packet = true;
    }

    /// A packet begins with its first fragment and, where the packet has
    /// one, its presentation time in ticks.
    pub fn begin_packet(&mut self, payload: &[u8], timestamp: Option<u64>)
        ensures
            final(self)@ == old(self)@.packet_begun(payload@, timestamp),
    {
        match timestamp {
            Some(ticks) => {
                if self.is_first_packet {
                    self.nal_parser.decoding_delay(ticks);
                    self.is_first_packet = false;
                } else {
                    self.nal_parser.set_duration_for_previous_packet(ticks);
                }
            },
            None => {},
        }
        self.packet_time = timestamp;
        self.nal_parser.begin_packet(payload);
    }

    /// The packet in progress goes on with another fragment.
    pub fn continue_packet(&mut self, payload: &[u8])
        ensures
            final(self)@ == old(self)@.packet_continued(payload@),
    {
        self.nal_parser.continue_packet(payload);
    }

    /// The packet in progress ends: its segment is stored, stamped with the
    /// packet's presentation time.
    pub fn end_packet(&mut self)
        ensures
            final(self)@ == old(self)@.packet_ended(),
    {
        self.nal_parser.end_packet_at(self.packet_time);
        self.packet_time = None;
    }

    /// The demultiplexer found a gap in the stream. The packet in progress
    /// is given up; the segments stored stay as they are.
    pub fn continuity_error(&mut self)
        ensures
            final(self)@ == old(self)@.interrupted(),
    {
        self.nal_parser.discard_packet();
        self.packet_time = None;
    }

    /// The parser with the segments stored so far.
    pub fn parser(&self) -> (r: &NALParser)
        ensures
            r@ == self@.parser,
    {
        &self.nal_parser
    }
}

} // verus!
