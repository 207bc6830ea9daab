//! Segmentation of an H.264 Annex-B elementary stream into access units.
//!
//! A demultiplexer hands over the payload of each PES packet in fragments.
//! The [`NALParser`] gathers the fragments of one packet, locates the NAL
//! unit headers in the completed buffer, and stores one [`DemuxedSegment`]
//! per packet. The [`ElementaryStreamConsumer`] adds the packet life cycle
//! and the presentation times that come with the packets.

pub mod consumer;
pub mod demux;
pub mod header;
pub mod laws;
pub mod lifecycle;
pub mod parser;
pub mod scan;
pub mod segment;
pub mod timing;

pub use consumer::ConsumerView;
pub use consumer::ElementaryStreamConsumer;
pub use demux::get_header_payload;
pub use header::HeaderCode;
pub use header::HeaderIndices;
pub use header::HeaderSpan;
pub use parser::NALParser;
pub use parser::ParserView;
pub use segment::AccessUnit;
pub use segment::DemuxedSegment;
pub use segment::SegmentView;
pub use segment::VideoFrameType;
pub use timing::TIMEBASE;
