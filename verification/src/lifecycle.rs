//! What holds of the segment store over the life of a stream.

use vstd::prelude::*;
use crate::consumer::ConsumerView;
use crate::demux::access_unit;
use crate::parser::ParserView;
use crate::segment::SegmentView;

verus! {

/// The store `later` holds every segment of `earlier` at its place, with
/// its access unit and its presentation time unchanged.
pub open spec fn keeps(earlier: Seq<SegmentView>, later: Seq<SegmentView>) -> bool {
    &&& earlier.len() <= later.len()
    &&& forall|i: int|
        0 <= i < earlier.len() ==> {
            &&& (#[trigger] later[i]).unit == earlier[i].unit
            &&& later[i].presentation_time == earlier[i].presentation_time
        }
}

/// Every segment of the store is well formed.
pub open spec fn all_well_formed(segments: Seq<SegmentView>) -> bool {
    forall|i: int| 0 <= i < segments.len() ==> (#[trigger] segments[i]).unit.well_formed()
}

/// Ending a packet twice is ending it once: the second call finds no
/// packet in progress and changes nothing.
pub proof fn lemma_end_packet_twice(s: ParserView, first: Option<u64>, second: Option<u64>)
    ensures
        s.ended(first).buffer is None,
        s.ended(first).ended(second) == s.ended(first),
{
}

/// The end of a packet in progress adds exactly one segment to the store,
/// behind those that were there. Without a packet in progress the store
/// stays as it is.
pub proof fn lemma_end_packet_adds_one(s: ParserView, presentation_time: Option<u64>)
    ensures
        s.buffer is Some ==> {
            &&& s.ended(presentation_time).segments.len() == s.segments.len() + 1
            &&& s.ended(presentation_time).segments.drop_last() == s.segments
            &&& s.ended(presentation_time).segments.last().unit == access_unit(
                s.buffer->0,
                s.sei_found,
            )
            &&& s.ended(presentation_time).segments.last().presentation_time == presentation_time
            &&& s.ended(presentation_time).segments.last().duration() is None
        },
        s.buffer is None ==> s.ended(presentation_time) == s,
{
    if s.buffer is Some {
        assert(s.ended(presentation_time).segments.drop_last() =~= s.segments);
    }
}

/// Nothing that is done to a parser removes a segment from the store, moves
/// one, or changes its access unit or its presentation time.
pub proof fn lemma_parser_keeps_segments(
    s: ParserView,
    payload: Seq<u8>,
    presentation_time: Option<u64>,
    ticks: u64,
)
    ensures
        keeps(s.segments, s.begun(payload).segments),
        keeps(s.segments, s.continued(payload).segments),
        keeps(s.segments, s.ended(presentation_time).segments),
        keeps(s.segments, s.discarded().segments),
        keeps(s.segments, s.delayed(ticks).segments),
        keeps(s.segments, s.previous_closed(ticks).segments),
{
}

/// Nothing that is done to a parser makes a segment of the store ill
/// formed.
pub proof fn lemma_parser_keeps_well_formed(
    s: ParserView,
    payload: Seq<u8>,
    presentation_time: Option<u64>,
    ticks: u64,
)
    requires
        all_well_formed(s.segments),
    ensures
        all_well_formed(s.begun(payload).segments),
        all_well_formed(s.continued(payload).segments),
        all_well_formed(s.ended(presentation_time).segments),
        all_well_formed(s.discarded().segments),
        all_well_formed(s.delayed(ticks).segments),
        all_well_formed(s.previous_closed(ticks).segments),
{
}

/// Ending a packet twice is ending it once, for a consumer too.
pub proof fn lemma_packet_ended_twice(c: ConsumerView)
    ensures
        c.packet_ended().packet_ended() == c.packet_ended(),
{
}

/// The end of a packet in progress adds exactly one segment to the
/// consumer's store, stamped with the presentation time the packet began
/// with.
pub proof fn lemma_packet_ended_adds_one(c: ConsumerView)
    ensures
        c.parser.buffer is Some ==> {
            &&& c.packet_ended().parser.segments.len() == c.parser.segments.len() + 1
            &&& c.packet_ended().parser.segments.drop_last() == c.parser.segments
            &&& c.packet_ended().parser.segments.last().presentation_time == c.packet_time
            &&& c.packet_ended().parser.segments.last().duration() is None
        },
        c.parser.buffer is None ==> c.packet_ended().parser == c.parser,
{
    lemma_end_packet_adds_one(c.parser, c.packet_time);
}

/// Nothing that a consumer is told removes a segment from the store, moves
/// one, or changes its access unit or its presentation time.
pub proof fn lemma_consumer_keeps_segments(
    c: ConsumerView,
    payload: Seq<u8>,
    timestamp: Option<u64>,
)
    ensures
        keeps(c.parser.segments, c.stream_started().parser.segments),
        keeps(c.parser.segments, c.packet_begun(payload, timestamp).parser.segments),
        keeps(c.parser.segments, c.packet_continued(payload).parser.segments),
        keeps(c.parser.segments, c.packet_ended().parser.segments),
        keeps(c.parser.segments, c.interrupted().parser.segments),
{
}

/// The first presentation time of a stream is the stream's decoding delay,
/// and ends no segment's duration.
pub proof fn lemma_first_timestamp(c: ConsumerView, payload: Seq<u8>, ticks: u64)
    requires
        c.first_packet,
    ensures
        c.packet_begun(payload, Some(ticks)).parser.decoding_delay == Some(ticks),
        c.packet_begun(payload, Some(ticks)).parser.segments == c.parser.segments,
        !c.packet_begun(payload, Some(ticks)).first_packet,
{
}

/// Each later presentation time of a stream ends the duration of the
/// segment stored last, and leaves the decoding delay and the other
/// segments as they are.
pub proof fn lemma_later_timestamp(c: ConsumerView, payload: Seq<u8>, ticks: u64)
    requires
        !c.first_packet,
        c.parser.segments.len() > 0,
    ensures
        ({
            let before = c.parser.segments;
            let after = c.packet_begun(payload, Some(ticks)).parser.segments;
            &&& after.len() == before.len()
            &&& after.last() == before.last().closed_at(ticks)
            &&& after.last().duration_end == Some(ticks)
            &&& before.last().presentation_time matches Some(begin) ==> after.last().duration()
                == Some(ticks - begin)
            &&& after.drop_last() == before.drop_last()
        }),
        c.packet_begun(payload, Some(ticks)).parser.decoding_delay == c.parser.decoding_delay,
{
    let before = c.parser.segments;
    let after = c.packet_begun(payload, Some(ticks)).parser.segments;
    assert(after.drop_last() =~= before.drop_last());
}

/// A packet without a presentation time leaves the timing as it is.
pub proof fn lemma_no_timestamp(c: ConsumerView, payload: Seq<u8>)
    ensures
        c.packet_begun(payload, None).parser.segments == c.parser.segments,
        c.packet_begun(payload, None).parser.decoding_delay == c.parser.decoding_delay,
        c.packet_begun(payload, None).first_packet == c.first_packet,
{
}

/// Three packets in a row with the presentation times `t0`, `t1` and `t2`
/// give three segments. The decoding delay of the stream is `t0`. The first
/// segment lasts from `t0` to `t1`, the second from `t1` to `t2`, and the
/// last has no duration.
pub proof fn lemma_three_packets(
    payload0: Seq<u8>,
    payload1: Seq<u8>,
    payload2: Seq<u8>,
    t0: u64,
    t1: u64,
    t2: u64,
)
    ensures
        ({
            let end = ConsumerView::fresh().packet_begun(payload0, Some(t0)).packet_ended()
                .packet_begun(payload1, Some(t1)).packet_ended().packet_begun(
                payload2,
                Some(t2),
            ).packet_ended();
            &&& end.parser.decoding_delay == Some(t0)
            &&& end.parser.segments.len() == 3
            &&& end.parser.segments[0].presentation_time == Some(t0)
            &&& end.parser.segments[0].duration() == Some(t1 - t0)
            &&& end.parser.segments[1].presentation_time == Some(t1)
            &&& end.parser.segments[1].duration() == Some(t2 - t1)
            &&& end.parser.segments[2].presentation_time == Some(t2)
            &&& end.parser.segments[2].duration() is None
            &&& end.parser.segments[0].unit == access_unit(payload0, false)
        }),
{
}

} // verus!
