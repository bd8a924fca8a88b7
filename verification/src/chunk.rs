//! Chunks: the units in which messages travel between a session and its peer.

use crate::buffer::bytes_of;
use bytes::BytesMut;
use vstd::prelude::*;

verus! {

/// The chunk stream that a message travels on. The numbers that stand for these
/// on the wire belong to the packetizer.
#[derive(Debug, Clone, Copy, PartialEq, Eq, Structural)]
pub enum ChunkStreamId {
    CommandAmf0Amf3,
    Audio,
    Video,
    DataAmf0Amf3,
    Other(u32),
}

/// The format of a chunk's message header.
#[derive(Debug, Clone, Copy, PartialEq, Eq, Structural)]
pub enum ChunkType {
    Type0,
    Other(u8),
}

/// What kind of message a chunk carries.
#[derive(Debug, Clone, Copy, PartialEq, Eq, Structural)]
pub enum MessageTypeId {
    Audio,
    Video,
    DataAmf0,
    CommandAmf0,
    Other(u8),
}

/// A message with the header that it travels under.
pub struct ChunkInfo {
    pub csid: ChunkStreamId,
    pub format: ChunkType,
    pub timestamp: u32,
    pub msg_length: u32,
    pub msg_type_id: MessageTypeId,
    pub msg_stream_id: u32,
    pub payload: BytesMut,
}

/// What a [`ChunkInfo`] says, with its payload as bytes.
pub struct ChunkView {
    pub csid: ChunkStreamId,
    pub format: ChunkType,
    pub timestamp: u32,
    pub msg_length: u32,
    pub msg_type_id: MessageTypeId,
    pub msg_stream_id: u32,
    pub payload: Seq<u8>,
}

impl View for ChunkInfo {
    type V = ChunkView;

    open spec fn view(&self) -> ChunkView {
        ChunkView {
            csid: self.csid,
            format: self.format,
            timestamp: self.timestamp,
            msg_length: self.msg_length,
            msg_type_id: self.msg_type_id,
            msg_stream_id: self.msg_stream_id,
            payload: bytes_of(self.payload),
        }
    }
}

/// The views of a list of chunks.
pub open spec fn chunk_views(chunks: Seq<ChunkInfo>) -> Seq<ChunkView> {
    Seq::new(chunks.len(), |i: int| chunks[i]@)
}

/// The length field of a message with `length` bytes of payload: the field has
/// 32 bits, and what does not fit is cut off at the top.
pub open spec fn length_field(length: nat) -> u32 {
    (length % 0x1_0000_0000) as u32
}

/// The chunk under which a session sends `payload`: a full header, on message
/// stream zero, with the length field that belongs to the payload.
pub open spec fn outgoing_chunk(
    csid: ChunkStreamId,
    timestamp: u32,
    msg_type_id: MessageTypeId,
    payload: Seq<u8>,
) -> ChunkView {
    ChunkView {
        csid,
        format: ChunkType::Type0,
        timestamp,
        msg_length: length_field(payload.len()),
        msg_type_id,
        msg_stream_id: 0,
        payload,
    }
}

impl ChunkInfo {
    /// See [`outgoing_chunk`].
    pub fn outgoing(
        csid: ChunkStreamId,
        timestamp: u32,
        msg_type_id: MessageTypeId,
        payload: BytesMut,
    ) -> (chunk: Self)
        ensures
            chunk@ == outgoing_chunk(csid, timestamp, msg_type_id, bytes_of(payload)),
            chunk.csid == csid,
            chunk.format == ChunkType::Type0,
            chunk.timestamp == timestamp,
            chunk.msg_length as int == bytes_of(payload).len() % 0x1_0000_0000,
            chunk.msg_type_id == msg_type_id,
            chunk.msg_stream_id == 0,
            chunk.payload == payload,
    {
        let length: u64 = payload.len() as u64;
        assert(length as u32 == length % 0x1_0000_0000) by (bit_vector);
        ChunkInfo {
            csid,
            format: ChunkType::Type0,
            timestamp,
            msg_length: #[verifier::truncate]
            (length as u32),
            msg_type_id,
            msg_stream_id: 0,
            payload,
        }
    }
}

} // verus!
