//! The frames that a requester sends for what its user asks.
use bytes::Bytes;
use crate::frame::{Frame, FrameView};
use crate::frame::buf::contents;
use crate::frame::codec::{MetadataPushFrame, PayloadFrame, RequestFnfFrame};
use crate::frame::codec::metadata_push::MetadataPushFrameView;
use crate::frame::codec::payload::PayloadFrameView;
use crate::frame::codec::request_fnf::RequestFnfFrameView;
use crate::frame::flags::{request_flags, Flags, FOLLOWS_BIT, NEXT_BIT};
use crate::frame::visit::MAX_U31;
use crate::payload::{Payload, PayloadChunksView, PayloadView};
use vstd::prelude::*;

verus! {

/// The flags of a PAYLOAD frame that carries a fragment after the first:
/// NEXT, FOLLOWS where more fragments follow, and METADATA where the
/// fragment has metadata.
pub open spec fn fragment_flags(follows: bool, has_metadata: bool) -> u16 {
    request_flags(follows, has_metadata) | NEXT_BIT
}

/// The frame that carries the fragment `chunk` of a fire-and-forget request
/// on stream `stream_id`: the first fragment goes in a REQUEST_FNF frame,
/// each later one in a PAYLOAD frame; `follows` says whether more come.
pub open spec fn fragment_frame(stream_id: u32, chunk: PayloadView, first: bool, follows: bool)
    -> FrameView {
    if first {
        FrameView::RequestFnf(
            RequestFnfFrameView {
                stream_id: stream_id & MAX_U31,
                flags: request_flags(follows, chunk.metadata is Some),
                payload: chunk,
            },
        )
    } else {
        FrameView::Payload(
            PayloadFrameView {
                stream_id: stream_id & MAX_U31,
                flags: fragment_flags(follows, chunk.metadata is Some),
                payload: chunk,
            },
        )
    }
}

/// The frames that carry the fragments `chunks`, in order: FOLLOWS is set in
/// all but the last.
pub open spec fn fragment_frames(stream_id: u32, chunks: Seq<PayloadView>) -> Seq<FrameView> {
    Seq::new(
        chunks.len(),
        |i: int| fragment_frame(stream_id, chunks[i], i == 0, i + 1 != chunks.len()),
    )
}

/// The frames of a fire-and-forget request. Where a chunk size is set and
/// the payload is longer than it, the payload goes out in fragments of that
/// size; else it goes out whole, in one REQUEST_FNF frame.
pub open spec fn fire_and_forget(stream_id: u32, payload: PayloadView, chunk_size: Option<usize>)
    -> Seq<FrameView> {
    match chunk_size {
        Some(size) if size > 0 && payload.len() > size => fragment_frames(
            stream_id,
            (PayloadChunksView {
                chunk_size: size as nat,
                metadata: payload.metadata,
                data: payload.data,
            }).chunks(),
        ),
        _ => seq![fragment_frame(stream_id, payload, true, false)],
    }
}

/// What the frames hold, one by one.
pub open spec fn frame_views(frames: Seq<Frame>) -> Seq<FrameView> {
    Seq::new(frames.len(), |i: int| frames[i]@)
}

/// The frame that carries one fragment: see `fragment_frame`.
pub fn fragment(stream_id: u32, chunk: Payload, first: bool, follows: bool) -> (r: Frame)
    ensures
        r@ == fragment_frame(stream_id, chunk@, first, follows),
{
    if first {
        Frame::RequestFnf(RequestFnfFrame::new(stream_id, follows, chunk))
    } else {
        let mut flags = Flags::next();
        if follows {
            flags = flags | Flags::follows();
        }
        proof {
            lemma_fragment_flags(follows, chunk@.metadata is Some);
        }
        Frame::Payload(PayloadFrame::new(stream_id, flags, chunk))
    }
}

/// The flags of a fragment are made of its bits, whatever the order.
proof fn lemma_fragment_flags(follows: bool, has_metadata: bool)
    ensures
        fragment_flags(follows, has_metadata) == (((if follows {
            NEXT_BIT | FOLLOWS_BIT
        } else {
            NEXT_BIT
        }) & (FOLLOWS_BIT | crate::frame::flags::COMPLETE_BIT | NEXT_BIT)) | (if has_metadata {
            crate::frame::flags::METADATA_BIT
        } else {
            0
        })),
        fragment_flags(follows, has_metadata) & FOLLOWS_BIT == FOLLOWS_BIT <==> follows,
        fragment_flags(follows, has_metadata) & NEXT_BIT == NEXT_BIT,
{
    lemma_fragment_bits();
}

/// What the bits of a fragment's flags are to one another.
proof fn lemma_fragment_bits()
    by (bit_vector)
    ensures
        (0x010u16 | 0x040u16) & (0x040u16 | 0x020u16 | 0x010u16) == 0x050u16,
        0x010u16 & (0x040u16 | 0x020u16 | 0x010u16) == 0x010u16,
        0x050u16 | 0x080u16 == 0x0D0u16,
        0x050u16 | 0u16 == 0x050u16,
        0x010u16 | 0x080u16 == 0x090u16,
        0x010u16 | 0u16 == 0x010u16,
        0x0C0u16 | 0x010u16 == 0x0D0u16,
        0x040u16 | 0x010u16 == 0x050u16,
        0x080u16 | 0x010u16 == 0x090u16,
        0u16 | 0x010u16 == 0x010u16,
        0x0D0u16 & 0x040u16 == 0x040u16,
        0x050u16 & 0x040u16 == 0x040u16,
        0x090u16 & 0x040u16 == 0u16,
        0x010u16 & 0x040u16 == 0u16,
        0x0D0u16 & 0x010u16 == 0x010u16,
        0x050u16 & 0x010u16 == 0x010u16,
        0x090u16 & 0x010u16 == 0x010u16,
        0x010u16 & 0x010u16 == 0x010u16,
{
}

/// Returns the frames of a fire-and-forget request on stream `stream_id`:
/// see `fire_and_forget`.
pub fn fire_and_forget_frames(stream_id: u32, payload: Payload, chunk_size: Option<usize>) -> (r:
    Vec<Frame>)
    ensures
        frame_views(r@) == fire_and_forget(stream_id, payload@, chunk_size),
        r@.len() >= 1,
{
    let split = match chunk_size {
        Some(size) => size > 0 && payload.exceeds(size),
        None => false,
    };
    if !split {
        let frame = fragment(stream_id, payload, true, false);
        let frames = vec![frame];
        assert(frame_views(frames@) =~= seq![fragment_frame(stream_id, payload@, true, false)]);
        return frames;
    }
    let size = chunk_size.unwrap();
    let mut chunks = payload.chunks(size);
    let ghost start = chunks@;
    let total = chunks.len();
    let mut frames: Vec<Frame> = Vec::new();
    let mut idx: usize = 0;
    while idx < total
        invariant
            idx <= total,
            total == start.chunks().len(),
            chunks@.chunks() == start.chunks().skip(idx as int),
            chunks@.chunk_size > 0,
            frames@.len() == idx,
            forall|i: int|
                0 <= i < idx ==> (#[trigger] frames@[i])@ == fragment_frame(
                    stream_id,
                    start.chunks()[i],
                    i == 0,
                    i + 1 != total,
                ),
        decreases total - idx,
    {
        let ghost before = chunks@;
        assert(before.chunks().len() > 0);
        assert(before.chunks()[0] == start.chunks()[idx as int]);
        let chunk = chunks.next().unwrap();
        assert(chunks@.chunks() =~= before.chunks().skip(1));
        assert(before.chunks().skip(1) =~= start.chunks().skip(idx + 1));
        let frame = fragment(stream_id, chunk, idx == 0, idx + 1 != total);
        frames.push(frame);
        idx = idx + 1;
    }
    assert(frame_views(frames@) =~= fragment_frames(stream_id, start.chunks()));
    frames
}

/// In the frames of a fire-and-forget request, every frame but the last
/// holds FOLLOWS and the last does not; the first frame is a REQUEST_FNF
/// frame and each later one a PAYLOAD frame that holds NEXT; and every
/// frame stands on the stream of the request.
pub proof fn lemma_fire_and_forget_frames(
    stream_id: u32,
    payload: PayloadView,
    chunk_size: Option<usize>,
    i: int,
)
    requires
        0 <= i < fire_and_forget(stream_id, payload, chunk_size).len(),
    ensures
        ({
            let frames = fire_and_forget(stream_id, payload, chunk_size);
            &&& frames[i].stream_id() == stream_id & MAX_U31
            &&& i == 0 ==> frames[i] is RequestFnf
            &&& i > 0 ==> frames[i] is Payload && frames[i].header_flags() & NEXT_BIT == NEXT_BIT
            &&& (frames[i].header_flags() & FOLLOWS_BIT == FOLLOWS_BIT) <==> i + 1 != frames.len()
        }),
{
    let frames = fire_and_forget(stream_id, payload, chunk_size);
    crate::frame::flags::lemma_request_flags(true, true);
    crate::frame::flags::lemma_request_flags(true, false);
    crate::frame::flags::lemma_request_flags(false, true);
    crate::frame::flags::lemma_request_flags(false, false);
    lemma_fragment_flags(true, true);
    lemma_fragment_flags(true, false);
    lemma_fragment_flags(false, true);
    lemma_fragment_flags(false, false);
}

/// The fragments of a fire-and-forget request can be encoded where the
/// chunk size fits the 24-bit length of metadata, and a request that goes
/// out whole can where its metadata does.
pub proof fn lemma_fire_and_forget_encodable(
    stream_id: u32,
    payload: PayloadView,
    chunk_size: Option<usize>,
    i: int,
)
    requires
        0 <= i < fire_and_forget(stream_id, payload, chunk_size).len(),
        payload.encodable() || (chunk_size matches Some(size) && 0 < size <= 0xFF_FFFF
            && payload.len() > size),
    ensures
        fire_and_forget(stream_id, payload, chunk_size)[i].encodable(),
{
    match chunk_size {
        Some(size) if size > 0 && payload.len() > size => {
            let chunks = PayloadChunksView {
                chunk_size: size as nat,
                metadata: payload.metadata,
                data: payload.data,
            };
            chunks.lemma_chunks_fit(i);
            if size > 0xFF_FFFF {
                chunks.lemma_chunks_within(i);
            }
        },
        _ => {},
    }
}

/// Returns the frame that pushes `metadata` to the peer.
pub fn metadata_push_frame(metadata: Bytes) -> (r: Frame)
    ensures
        r@ == FrameView::MetadataPush(MetadataPushFrameView { metadata: contents(metadata) }),
{
    Frame::MetadataPush(MetadataPushFrame::new(metadata))
}

} // verus!
