use vstd::prelude::*;

verus! {

/// Identifies the elementary stream a packet belongs to.
#[derive(Clone, Copy, PartialEq, Eq, Structural, Debug)]
pub enum StreamId {
    Video,
    Audio,
}

/// The stream id that is not `id`.
pub open spec fn other_stream(id: StreamId) -> StreamId {
    match id {
        StreamId::Video => StreamId::Audio,
        StreamId::Audio => StreamId::Video,
    }
}

/// A unit of still-encoded data in container order, tagged with the
/// stream it belongs to. The bytes are opaque to the playback core;
/// only a decoder interprets them.
#[derive(Clone, PartialEq, Eq, Debug)]
pub struct EncodedPacket {
    pub stream_id: StreamId,
    pub data: Vec<u8>,
}

/// A finite supplier of encoded packets in container-native interleaving
/// order: `next_packet` hands out the next packet, or `None` once the
/// container is exhausted.
pub trait PacketSource {
    fn next_packet(&mut self) -> Option<EncodedPacket>;
}

/// A packet source backed by an in-memory, already-demultiplexed packet
/// list, handed out front to back.
pub struct BufferedSource {
    packets: Vec<EncodedPacket>,
}

impl BufferedSource {
    /// The packets not yet handed out, in order.
    pub closed spec fn remaining(self) -> Seq<EncodedPacket> {
        self.packets@
    }

    pub fn new(packets: Vec<EncodedPacket>) -> (r: Self)
        ensures
            r.remaining() == packets@,
    {
        BufferedSource { packets }
    }
}

impl PacketSource for BufferedSource {
    fn next_packet(&mut self) -> (r: Option<EncodedPacket>)
        ensures
            old(self).remaining().len() == 0 ==> r is None
                && final(self).remaining() == old(self).remaining(),
            old(self).remaining().len() > 0 ==> r == Some(old(self).remaining()[0])
                && final(self).remaining() == old(self).remaining().drop_first(),
    {
        if self.packets.len() > 0 {
            let p = self.packets.remove(0);
            assert(self.packets@ =~= old(self).packets@.drop_first());
            Some(p)
        } else {
            None
        }
    }
}

} // verus!
