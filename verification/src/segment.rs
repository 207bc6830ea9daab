//! The access unit that a packet holds, and the segment that records it.

use vstd::prelude::*;

verus! {

/// The kind of picture that an access unit holds.
#[derive(Clone, Copy, Debug, PartialEq, Eq, Structural)]
pub enum VideoFrameType {
    /// A picture that decodes by itself and comes with its parameter sets.
    KeyFrame,
    /// A picture that depends on pictures decoded before it.
    DeltaFrame,
}

/// The parts of one access unit, as sequences of bytes. Each part begins
/// with the header byte of its NAL unit.
pub struct AccessUnit {
    pub sps: Option<Seq<u8>>,
    pub pps: Option<Seq<u8>>,
    pub frame_type: VideoFrameType,
    pub frame_payload: Option<Seq<u8>>,
}

impl AccessUnit {
    /// Parameter sets come with key frames only.
    pub open spec fn well_formed(self) -> bool {
        self.frame_type is DeltaFrame ==> self.sps is None && self.pps is None
    }
}

/// The mathematical view of a `DemuxedSegment`: the access unit, the
/// presentation time of its packet, and the presentation time of the packet
/// after it. Times are in ticks of the stream's time base.
pub struct SegmentView {
    pub unit: AccessUnit,
    pub presentation_time: Option<u64>,
    pub duration_end: Option<u64>,
}

impl SegmentView {
    /// The time from this segment's presentation to the next one's, in
    /// ticks, where both are known.
    pub open spec fn duration(self) -> Option<int> {
        match (self.presentation_time, self.duration_end) {
            (Some(begin), Some(end)) => Some(end - begin),
            _ => None,
        }
    }

    /// The same segment with `ticks` as the end of its duration.
    pub open spec fn closed_at(self, ticks: u64) -> SegmentView {
        SegmentView { duration_end: Some(ticks), ..self }
    }
}

/// The bytes of an optional buffer.
pub open spec fn bytes(o: Option<Vec<u8>>) -> Option<Seq<u8>> {
    match o {
        Some(v) => Some(v@),
        None => None,
    }
}

/// The bytes of an optional borrowed buffer.
pub open spec fn borrowed_bytes(o: Option<&Vec<u8>>) -> Option<Seq<u8>> {
    match o {
        Some(v) => Some(v@),
        None => None,
    }
}

/// One completed access unit with its timing.
#[derive(Debug, PartialEq, Eq)]
pub struct DemuxedSegment {
    sps: Option<Vec<u8>>,
    pps: Option<Vec<u8>>,
    frame_type: VideoFrameType,
    frame_payload: Option<Vec<u8>>,
    presentation_time: Option<u64>,
    duration_end: Option<u64>,
}

impl View for DemuxedSegment {
    type V = SegmentView;

    closed spec fn view(&self) -> SegmentView {
        SegmentView {
            unit: AccessUnit {
                sps: bytes(self.sps),
                pps: bytes(self.pps),
                frame_type: self.frame_type,
                frame_payload: bytes(self.frame_payload),
            },
            presentation_time: self.presentation_time,
            duration_end: self.duration_end,
        }
    }
}

impl DemuxedSegment {
    #[verifier::type_invariant]
    spec fn parameter_sets_on_key_frames_only(self) -> bool {
        self.frame_type is DeltaFrame ==> self.sps is None && self.pps is None
    }

    /// The segment of a key frame whose duration is still open.
    pub fn key_frame(
        sps: Option<Vec<u8>>,
        pps: Option<Vec<u8>>,
        frame_payload: Option<Vec<u8>>,
        presentation_time: Option<u64>,
    ) -> (r: DemuxedSegment)
        ensures
            r@ == (SegmentView {
                unit: AccessUnit {
                    sps: bytes(sps),
                    pps: bytes(pps),
                    frame_type: VideoFrameType::KeyFrame,
                    frame_payload: bytes(frame_payload),
                },
                presentation_time,
                duration_end: None,
            }),
    {
        DemuxedSegment {
            sps,
            pps,
            frame_type: VideoFrameType::KeyFrame,
            frame_payload,
            presentation_time,
            duration_end: None,
        }
    }

    /// The segment of a delta frame whose duration is still open.
    pub fn delta_frame(frame_payload: Vec<u8>, presentation_time: Option<u64>) -> (r:
        DemuxedSegment)
        ensures
            r@ == (SegmentView {
                unit: AccessUnit {
                    sps: None,
                    pps: None,
                    frame_type: VideoFrameType::DeltaFrame,
                    frame_payload: Some(frame_payload@),
                },
                presentation_time,
                duration_end: None,
            }),
    {
        DemuxedSegment {
            sps: None,
            pps: None,
            frame_type: VideoFrameType::DeltaFrame,
            frame_payload: Some(frame_payload),
            presentation_time,
            duration_end: None,
        }
    }

    /// The sequence parameter set. A delta frame has none.
    pub fn sps(&self) -> (r: Option<&Vec<u8>>)
        ensures
            borrowed_bytes(r) == self@.unit.sps,
            self@.unit.frame_type is DeltaFrame ==> r is None,
    {
        proof {
            use_type_invariant(self);
        }
        self.sps.as_ref()
    }

    /// The picture parameter set. A delta frame has none.
    pub fn pps(&self) -> (r: Option<&Vec<u8>>)
        ensures
            borrowed_bytes(r) == self@.unit.pps,
            self@.unit.frame_type is DeltaFrame ==> r is None,
    {
        proof {
            use_type_invariant(self);
        }
        self.pps.as_ref()
    }

    /// Whether the segment holds a key frame or a delta frame.
    pub fn frame_type(&self) -> (r: VideoFrameType)
        ensures
            r == self@.unit.frame_type,
            self@.unit.well_formed(),
    {
        proof {
            use_type_invariant(self);
        }
        self.frame_type
    }

    /// The coded slice data.
    pub fn frame_payload(&self) -> (r: Option<&Vec<u8>>)
        ensures
            borrowed_bytes(r) == self@.unit.frame_payload,
    {
        self.frame_payload.as_ref()
    }

    /// The presentation time that came with the packet, in ticks.
    pub fn presentation_time(&self) -> (r: Option<u64>)
        ensures
            r == self@.presentation_time,
    {
        self.presentation_time
    }

    /// The presentation time of the packet that came next, in ticks.
    pub fn duration_end(&self) -> (r: Option<u64>)
        ensures
            r == self@.duration_end,
    {
        self.duration_end
    }

    /// The time from this segment's presentation to the next one's, in
    /// ticks. It is negative where the next packet is presented earlier.
    pub fn duration(&self) -> (r: Option<i128>)
        ensures
            r is Some <==> self@.duration() is Some,
            r matches Some(d) ==> self@.duration() == Some(d as int),
    {
        match (self.presentation_time, self.duration_end) {
            (Some(begin), Some(end)) => Some(end as i128 - begin as i128),
            _ => None,
        }
    }

    /// Records `ticks` as the end of the segment's duration.
    pub fn close_duration(&mut self, ticks: u64)
        ensures
            final(self)@ == old(self)@.closed_at(ticks),
    {
        proof {
            use_type_invariant(&*self);
        }
        self.duration_end = Some(ticks);
    }
}

} // verus!
