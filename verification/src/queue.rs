use vstd::prelude::*;
use vstd::seq_lib::*;
use std::collections::VecDeque;
use crate::packet::{other_stream, EncodedPacket, PacketSource, StreamId};

verus! {

/// Upper bound on how many packets one refill may draw from the source.
/// A refill is one bounded batch of work, so queue growth stays bounded
/// even when one stream's packets are much sparser than the other's.
pub const REFILL_BATCH: usize = 12;

/// The packets of `s` that belong to stream `id`, in order.
pub open spec fn stream_only(s: Seq<EncodedPacket>, id: StreamId) -> Seq<EncodedPacket> {
    s.filter(|p: EncodedPacket| p.stream_id == id)
}

/// Two per-stream FIFO queues of encoded packets, refilled on demand from
/// one packet source. A refill routes every packet it sees to the queue
/// matching its stream id, whichever queue asked for the refill, so packets
/// of the other stream are buffered for later instead of being dropped.
pub struct StreamQueues<S: PacketSource> {
    source: S,
    video: VecDeque<EncodedPacket>,
    audio: VecDeque<EncodedPacket>,
    /// Every packet the source has handed out so far, in order.
    seen: Ghost<Seq<EncodedPacket>>,
    /// The video packets already popped, in order.
    taken_video: Ghost<Seq<EncodedPacket>>,
    /// The audio packets already popped, in order.
    taken_audio: Ghost<Seq<EncodedPacket>>,
}

impl<S: PacketSource> StreamQueues<S> {
    /// Every packet drawn from the source so far, in container order.
    pub closed spec fn seen(self) -> Seq<EncodedPacket> {
        self.seen@
    }

    /// The packets of stream `id` still buffered, in container order.
    pub closed spec fn pending(self, id: StreamId) -> Seq<EncodedPacket> {
        match id {
            StreamId::Video => self.video@,
            StreamId::Audio => self.audio@,
        }
    }

    /// The packets of stream `id` already popped, in container order.
    pub closed spec fn taken(self, id: StreamId) -> Seq<EncodedPacket> {
        match id {
            StreamId::Video => self.taken_video@,
            StreamId::Audio => self.taken_audio@,
        }
    }

    /// Routing invariant: the packets seen from the source that belong to a
    /// stream are exactly the ones already popped from its queue followed by
    /// the ones still pending there, in container order.
    pub closed spec fn wf(self) -> bool {
        &&& stream_only(self.seen@, StreamId::Video) == self.taken_video@ + self.video@
        &&& stream_only(self.seen@, StreamId::Audio) == self.taken_audio@ + self.audio@
    }

    pub fn new(source: S) -> (r: Self)
        ensures
            r.wf(),
            r.seen().len() == 0,
            r.taken(StreamId::Video).len() == 0,
            r.taken(StreamId::Audio).len() == 0,
            r.pending(StreamId::Video).len() == 0,
            r.pending(StreamId::Audio).len() == 0,
    {
        let r = StreamQueues {
            source,
            video: VecDeque::new(),
            audio: VecDeque::new(),
            seen: Ghost(Seq::empty()),
            taken_video: Ghost(Seq::empty()),
            taken_audio: Ghost(Seq::empty()),
        };
        proof {
            reveal(Seq::filter);
            assert(stream_only(r.seen@, StreamId::Video) =~= r.taken_video@ + r.video@);
            assert(stream_only(r.seen@, StreamId::Audio) =~= r.taken_audio@ + r.audio@);
        }
        r
    }

    /// Pull up to `REFILL_BATCH` packets from the source, routing each to the
    /// queue matching its stream id.
    fn refill(&mut self)
        requires
            old(self).wf(),
        ensures
            final(self).wf(),
            old(self).seen().is_prefix_of(final(self).seen()),
            final(self).seen().len() <= old(self).seen().len() + REFILL_BATCH,
            final(self).taken(StreamId::Video) == old(self).taken(StreamId::Video),
            final(self).taken(StreamId::Audio) == old(self).taken(StreamId::Audio),
            old(self).pending(StreamId::Video).is_prefix_of(final(self).pending(StreamId::Video)),
            old(self).pending(StreamId::Audio).is_prefix_of(final(self).pending(StreamId::Audio)),
    {
        let ghost seen0 = self.seen@;
        let ghost video0 = self.video@;
        let ghost audio0 = self.audio@;
        let ghost tv0 = self.taken_video@;
        let ghost ta0 = self.taken_audio@;
        let mut i: usize = 0;
        while i < REFILL_BATCH
            invariant
                self.wf(),
                i <= REFILL_BATCH,
                self.taken_video@ == tv0,
                self.taken_audio@ == ta0,
                seen0.is_prefix_of(self.seen@),
                self.seen@.len() <= seen0.len() + i,
                video0.is_prefix_of(self.video@),
                audio0.is_prefix_of(self.audio@),
            decreases REFILL_BATCH - i,
        {
            let nxt = self.source.next_packet();
            match nxt {
                None => {
                    break ;
                },
                Some(p) => {
                    let ghost seen_before = self.seen@;
                    let ghost video_before = self.video@;
                    let ghost audio_before = self.audio@;
                    self.seen = Ghost(self.seen@.push(p));
                    if p.stream_id == StreamId::Video {
                        self.video.push_back(p);
                    } else {
                        self.audio.push_back(p);
                    }
                    proof {
                        broadcast use vstd::seq_lib::group_filter_ensures;

                        let pv = |q: EncodedPacket| q.stream_id == StreamId::Video;
                        let pa = |q: EncodedPacket| q.stream_id == StreamId::Audio;
                        assert(seen_before.push(p).filter(pv) == if pv(p) {
                            seen_before.filter(pv).push(p)
                        } else {
                            seen_before.filter(pv)
                        }) by {
                            seen_before.lemma_filter_push(p, pv);
                        }
                        assert(seen_before.push(p).filter(pa) == if pa(p) {
                            seen_before.filter(pa).push(p)
                        } else {
                            seen_before.filter(pa)
                        }) by {
                            seen_before.lemma_filter_push(p, pa);
                        }
                        if p.stream_id == StreamId::Video {
                            assert((tv0 + video_before).push(p) =~= tv0 + video_before.push(p));
                        } else {
                            assert(p.stream_id == StreamId::Audio);
                            assert((ta0 + audio_before).push(p) =~= ta0 + audio_before.push(p));
                        }
                        assert(video0.is_prefix_of(self.video@));
                        assert(audio0.is_prefix_of(self.audio@));
                    }
                },
            }
            i += 1;
        }
    }

    /// Pop the next packet of stream `id`. If that queue is empty, one bounded
    /// refill is tried first; if the queue is still empty afterwards, `None`
    /// reports end of stream for this queue (the other stream may still have
    /// packets buffered or coming).
    pub fn pop(&mut self, id: StreamId) -> (r: Option<EncodedPacket>)
        requires
            old(self).wf(),
        ensures
            final(self).wf(),
            old(self).seen().is_prefix_of(final(self).seen()),
            final(self).seen().len() <= old(self).seen().len() + REFILL_BATCH,
            final(self).taken(other_stream(id)) == old(self).taken(other_stream(id)),
            old(self).pending(id).len() > 0 ==> final(self).seen() == old(self).seen(),
            match r {
                Some(p) => {
                    &&& p.stream_id == id
                    &&& final(self).taken(id) == old(self).taken(id).push(p)
                    &&& p == stream_only(final(self).seen(), id)[old(self).taken(id).len() as int]
                },
                None => {
                    &&& final(self).taken(id) == old(self).taken(id)
                    &&& final(self).pending(id).len() == 0
                    &&& old(self).pending(id).len() == 0
                },
            },
    {
        let is_empty = match id {
            StreamId::Video => self.video.len() == 0,
            StreamId::Audio => self.audio.len() == 0,
        };
        if is_empty {
            self.refill();
        }
        let ghost taken_before = self.taken(id);
        let ghost queue_before = self.pending(id);
        let ghost seen_now = self.seen@;
        let popped = match id {
            StreamId::Video => self.video.pop_front(),
            StreamId::Audio => self.audio.pop_front(),
        };
        match popped {
            Some(p) => {
                match id {
                    StreamId::Video => {
                        self.taken_video = Ghost(self.taken_video@.push(p));
                    },
                    StreamId::Audio => {
                        self.taken_audio = Ghost(self.taken_audio@.push(p));
                    },
                }
                proof {
                    assert(queue_before[0] == p);
                    assert(taken_before.push(p) + self.pending(id) =~= taken_before
                        + queue_before);
                    assert(stream_only(seen_now, id) == taken_before + queue_before);
                    assert(stream_only(seen_now, id)[taken_before.len() as int] == p);
                    assert(p.stream_id == id) by {
                        broadcast use vstd::seq_lib::group_filter_ensures;

                    }
                }
                Some(p)
            },
            None => None,
        }
    }
}

/// Law (round trip of the routing scan): after any number of pops and the
/// refills they triggered, every packet seen from the packet source stands in
/// exactly one place — popped from, or still pending in, the queue of its own
/// stream — none duplicated, none dropped, and each queue keeps the container
/// order of its stream.
pub proof fn lemma_routing_partition<S: PacketSource>(q: StreamQueues<S>)
    requires
        q.wf(),
    ensures
        q.taken(StreamId::Video) + q.pending(StreamId::Video) == stream_only(
            q.seen(),
            StreamId::Video,
        ),
        q.taken(StreamId::Audio) + q.pending(StreamId::Audio) == stream_only(
            q.seen(),
            StreamId::Audio,
        ),
        q.taken(StreamId::Video).len() + q.pending(StreamId::Video).len() + q.taken(
            StreamId::Audio,
        ).len() + q.pending(StreamId::Audio).len() == q.seen().len(),
{
    lemma_stream_partition(q.seen());
}

/// Each packet belongs to exactly one of the two streams, so the two
/// per-stream projections of a packet sequence split its length exactly.
proof fn lemma_stream_partition(s: Seq<EncodedPacket>)
    ensures
        stream_only(s, StreamId::Video).len() + stream_only(s, StreamId::Audio).len() == s.len(),
    decreases s.len(),
{
    reveal(Seq::filter);
    if s.len() == 0 {
    } else {
        lemma_stream_partition(s.drop_last());
        assert(s.last().stream_id == StreamId::Video || s.last().stream_id == StreamId::Audio);
    }
}

} // verus!
