//! Payload of a frame.
//!
//! Payload can be distinguished into two types: `Data` and `Metadata`. The distinction between
//! the types in an application is left to the application.
use bytes::{Bytes, BytesMut};
use crate::frame::buf::{
    bytes_len, bytes_utf8, contents, opt_bytes, opt_contents, opt_len, put_slice, put_u16, put_u8,
    split_to, written,
};
use crate::frame::encode::{add_within, opt_bytes_len, Encode};
use crate::frame::u24::U24;
use crate::frame::wire::u16_be;
use vstd::prelude::*;
use vstd::string::StringSliceAdditionalSpecFns;

verus! {

broadcast use crate::frame::wire::group_be_len;

/// The data field of a `Payload`.
pub type Data = Bytes;

/// The metadata field of a `Payload`.
pub type Metadata = Bytes;

/// Payload of a RSocket frame: optional metadata and optional data, both opaque.
#[derive(Clone, Eq, PartialEq, Debug)]
pub struct Payload {
    pub(crate) metadata: Option<Metadata>,
    pub(crate) data: Option<Data>,
}

/// What a `Payload` holds.
pub ghost struct PayloadView {
    pub metadata: Option<Seq<u8>>,
    pub data: Option<Seq<u8>>,
}

impl PayloadView {
    /// The number of bytes in the payload.
    pub open spec fn len(self) -> nat {
        opt_len(self.metadata) + opt_len(self.data)
    }

    /// The bytes of the payload: metadata first, then data.
    pub open spec fn wire(self) -> Seq<u8> {
        opt_bytes(self.metadata) + opt_bytes(self.data)
    }

    /// The bytes of the payload behind the 24-bit length of its metadata.
    pub open spec fn prefixed(self) -> Seq<u8> {
        metadata_len_prefix(opt_len(self.metadata)) + self.wire()
    }

    /// Whether the metadata fits its 24-bit length prefix.
    pub open spec fn encodable(self) -> bool {
        opt_len(self.metadata) <= U24::MAX
    }

    /// Whether decoding can give this payload: a part that is present is
    /// not empty, and the metadata fits its length prefix.
    pub open spec fn canonical(self) -> bool {
        &&& self.encodable()
        &&& self.metadata matches Some(m) ==> m.len() > 0
        &&& self.data matches Some(d) ==> d.len() > 0
    }
}

/// The three bytes, most significant first, of a metadata length `n`.
pub open spec fn metadata_len_prefix(n: nat) -> Seq<u8>
    recommends
        n <= U24::MAX,
{
    seq![(n / 0x1_0000) as u8] + u16_be((n % 0x1_0000) as u16)
}

impl Default for Payload {
    /// A payload with neither metadata nor data.
    fn default() -> (r: Payload)
        ensures
            r@ == (PayloadView { metadata: None, data: None }),
    {
        Payload { metadata: None, data: None }
    }
}

impl View for Payload {
    type V = PayloadView;

    closed spec fn view(&self) -> PayloadView {
        PayloadView { metadata: opt_contents(self.metadata), data: opt_contents(self.data) }
    }
}

impl Payload {
    /// Constructs a payload with the given `data` and `metadata`.
    pub fn new(metadata: Option<Metadata>, data: Option<Data>) -> (r: Payload)
        ensures
            r@ == (PayloadView { metadata: opt_contents(metadata), data: opt_contents(data) }),
    {
        Payload { metadata, data }
    }

    /// Returns a payload builder.
    pub fn builder() -> (r: PayloadBuilder)
        ensures
            r@ == (PayloadView { metadata: None, data: None }),
    {
        PayloadBuilder::new()
    }

    /// Returns the number of bytes in this payload.
    pub fn len(&self) -> (n: usize)
        requires
            self@.len() <= usize::MAX,
        ensures
            n == self@.len(),
    {
        let mut len: usize = 0;
        if let Some(metadata) = &self.metadata {
            len = bytes_len(metadata);
        }
        if let Some(data) = &self.data {
            len = len + bytes_len(data);
        }
        len
    }

    /// Returns true if this payload is empty.
    pub fn is_empty(&self) -> (r: bool)
        ensures
            r == (self@.len() == 0),
    {
        let m: usize = match &self.metadata {
            Some(metadata) => bytes_len(metadata),
            None => 0,
        };
        let d: usize = match &self.data {
            Some(data) => bytes_len(data),
            None => 0,
        };
        m == 0 && d == 0
    }

    /// Returns the `data` part of this payload.
    pub fn data(&self) -> (r: Option<&Data>)
        ensures
            r matches Some(d) ==> self@.data == Some(contents(*d)),
            r is None <==> self@.data is None,
    {
        self.data.as_ref()
    }

    /// Returns the `metadata` part of this payload.
    pub fn metadata(&self) -> (r: Option<&Metadata>)
        ensures
            r matches Some(m) ==> self@.metadata == Some(contents(*m)),
            r is None <==> self@.metadata is None,
    {
        self.metadata.as_ref()
    }

    /// Returns the `data` part of this payload in UTF-8 format, if there is
    /// `data` and it is valid UTF-8.
    pub fn data_utf8(&self) -> (r: Option<&str>)
        ensures
            r is Some <==> (self@.data matches Some(d) && vstd::utf8::valid_utf8(d)),
            r matches Some(s) ==> self@.data == Some(s.spec_bytes()),
    {
        match &self.data {
            Some(data) => bytes_utf8(data),
            None => None,
        }
    }

    /// Returns the `metadata` part of this payload in UTF-8 format, if there
    /// is `metadata` and it is valid UTF-8.
    pub fn metadata_utf8(&self) -> (r: Option<&str>)
        ensures
            r is Some <==> (self@.metadata matches Some(m) && vstd::utf8::valid_utf8(m)),
            r matches Some(s) ==> self@.metadata == Some(s.spec_bytes()),
    {
        match &self.metadata {
            Some(metadata) => bytes_utf8(metadata),
            None => None,
        }
    }

    /// Returns true if this payload contains `data`.
    pub fn has_data(&self) -> (r: bool)
        ensures
            r == self@.data.is_some(),
    {
        self.data.is_some()
    }

    /// Returns true if this payload contains `metadata`.
    pub fn has_metadata(&self) -> (r: bool)
        ensures
            r == self@.metadata.is_some(),
    {
        self.metadata.is_some()
    }

    /// Splits the payload into `Metadata` and `Data`.
    pub fn split(self) -> (r: (Option<Metadata>, Option<Data>))
        ensures
            opt_contents(r.0) == self@.metadata,
            opt_contents(r.1) == self@.data,
    {
        (self.metadata, self.data)
    }

    /// Returns the length of the payload behind the 24-bit length of its
    /// metadata, if the metadata fits that prefix and the whole is no longer
    /// than a buffer holds.
    pub fn prefixed_len(&self) -> (r: Option<usize>)
        ensures
            r is Some <==> self@.encodable() && self@.prefixed().len() <= isize::MAX,
            r matches Some(n) ==> n == self@.prefixed().len(),
    {
        assert(self@.prefixed().len() == 3 + opt_len(self@.metadata) + opt_len(self@.data));
        let metadata_len = opt_bytes_len(&self.metadata);
        if metadata_len > 0xFF_FFFF {
            return None;
        }
        add_within(add_within(Some(3), metadata_len), opt_bytes_len(&self.data))
    }

    /// Writes the payload behind the 24-bit length of its metadata, as the
    /// frames that carry a payload hold it.
    pub(crate) fn encode_prefixed(&self, buf: &mut BytesMut)
        requires
            self@.encodable(),
            written(*old(buf)).len() + self@.prefixed().len() <= isize::MAX,
        ensures
            written(*final(buf)) == written(*old(buf)) + self@.prefixed(),
            self@.prefixed().len() == 3 + self@.len(),
    {
        assert(self@.prefixed().len() == 3 + self@.wire().len());
        assert(self.wire() == self@.wire());
        let u24 = U24::from_usize(self.metadata_len());
        put_u8(buf, u24.0);
        put_u16(buf, u24.1);
        self.encode(buf);
        assert(written(*buf) =~= written(*old(buf)) + self@.prefixed());
    }

    /// Returns the chunks of this payload, that `next` hands out one by one:
    /// each holds up to `chunk_size` bytes of the metadata and up to
    /// `chunk_size` bytes of the data. `chunk_size` may not be `0`.
    pub fn chunks(self, chunk_size: usize) -> (r: PayloadChunks)
        requires
            chunk_size != 0,
        ensures
            r@ == (PayloadChunksView {
                chunk_size: chunk_size as nat,
                metadata: self@.metadata,
                data: self@.data,
            }),
    {
        let (metadata, data) = self.split();
        PayloadChunks { chunk_size, metadata, data }
    }

    /// Returns true if this payload has more than `size` bytes.
    pub fn exceeds(&self, size: usize) -> (r: bool)
        ensures
            r == (self@.len() > size),
    {
        let metadata_len = self.metadata_len();
        let data_len = match &self.data {
            Some(data) => bytes_len(data),
            None => 0,
        };
        metadata_len > size || data_len > size - metadata_len
    }

    /// The length of the metadata, none where it is absent.
    pub fn metadata_len(&self) -> (n: usize)
        ensures
            n == opt_len(self@.metadata),
    {
        match &self.metadata {
            Some(metadata) => bytes_len(metadata),
            None => 0,
        }
    }
}

/// Construct a `Payload` with optional `Data` and/or `Metadata`.
#[derive(Debug)]
pub struct PayloadBuilder(Payload);

impl View for PayloadBuilder {
    type V = PayloadView;

    /// The payload built so far.
    closed spec fn view(&self) -> PayloadView {
        self.0@
    }
}

impl PayloadBuilder {
    /// Create a new `PayloadBuilder`, with neither data nor metadata.
    #[allow(clippy::new_without_default)]
    pub fn new() -> (r: PayloadBuilder)
        ensures
            r@ == (PayloadView { metadata: None, data: None }),
    {
        PayloadBuilder(Payload { metadata: None, data: None })
    }

    /// Sets the data of the `Payload` to build.
    pub fn set_data(self, data: Bytes) -> (r: PayloadBuilder)
        ensures
            r@ == (PayloadView { metadata: self@.metadata, data: Some(contents(data)) }),
    {
        let mut payload = self.0;
        payload.data = Some(data);
        PayloadBuilder(payload)
    }

    /// Sets the metadata of the `Payload` to build.
    pub fn set_metadata(self, metadata: Bytes) -> (r: PayloadBuilder)
        ensures
            r@ == (PayloadView { metadata: Some(contents(metadata)), data: self@.data }),
    {
        let mut payload = self.0;
        payload.metadata = Some(metadata);
        PayloadBuilder(payload)
    }

    /// Returns the configured `Payload`.
    pub fn build(self) -> (r: Payload)
        ensures
            r@ == self@,
    {
        self.0
    }
}

/// `n` divided by `d`, rounded up.
pub open spec fn ceil_div(n: nat, d: nat) -> nat
    recommends
        d > 0,
{
    if n == 0 {
        0
    } else {
        ((n - 1) / (d as int) + 1) as nat
    }
}

/// The first `n` bytes of a part of a payload, or all of it where it has no more.
pub open spec fn head_of(part: Option<Seq<u8>>, n: nat) -> Option<Seq<u8>> {
    match part {
        Some(b) => if n < b.len() {
            Some(b.take(n as int))
        } else {
            Some(b)
        },
        None => None,
    }
}

/// What follows the first `n` bytes of a part of a payload; nothing where
/// it has no more than `n`.
pub open spec fn tail_of(part: Option<Seq<u8>>, n: nat) -> Option<Seq<u8>> {
    match part {
        Some(b) => if n < b.len() {
            Some(b.skip(n as int))
        } else {
            None
        },
        None => None,
    }
}

/// What is left of a payload that is handed out in chunks.
pub ghost struct PayloadChunksView {
    pub chunk_size: nat,
    pub metadata: Option<Seq<u8>>,
    pub data: Option<Seq<u8>>,
}

impl PayloadChunksView {
    /// Whether no chunk is left: no byte is left, or the chunk size is zero
    /// and holds none.
    pub open spec fn is_done(self) -> bool {
        self.chunk_size == 0 || (opt_len(self.metadata) == 0 && opt_len(self.data) == 0)
    }

    /// The number of chunks left: the length of the longer part divided by
    /// the chunk size, rounded up.
    pub open spec fn count(self) -> nat {
        if self.chunk_size == 0 {
            0
        } else {
            ceil_div(
                if opt_len(self.metadata) >= opt_len(self.data) {
                    opt_len(self.metadata)
                } else {
                    opt_len(self.data)
                },
                self.chunk_size,
            )
        }
    }

    /// The next chunk.
    pub open spec fn first(self) -> PayloadView {
        PayloadView {
            metadata: head_of(self.metadata, self.chunk_size),
            data: head_of(self.data, self.chunk_size),
        }
    }

    /// What is left behind the next chunk.
    pub open spec fn rest(self) -> PayloadChunksView {
        PayloadChunksView {
            chunk_size: self.chunk_size,
            metadata: tail_of(self.metadata, self.chunk_size),
            data: tail_of(self.data, self.chunk_size),
        }
    }

    /// All the chunks left, in order.
    pub open spec fn chunks(self) -> Seq<PayloadView>
        decreases opt_len(self.metadata) + opt_len(self.data),
    {
        if self.is_done() {
            Seq::empty()
        } else {
            seq![self.first()] + self.rest().chunks()
        }
    }

    /// There are as many chunks as `count` says.
    pub proof fn lemma_chunks_len(self)
        ensures
            self.chunks().len() == self.count(),
        decreases opt_len(self.metadata) + opt_len(self.data),
    {
        if !self.is_done() {
            self.rest().lemma_chunks_len();
            let n = self.chunk_size as int;
            let m = opt_len(self.metadata) as int;
            let d = opt_len(self.data) as int;
            let longer = if m >= d {
                m
            } else {
                d
            };
            if longer > n {
                assert((longer - n - 1) / n + 1 == (longer - 1) / n) by (nonlinear_arith)
                    requires
                        n > 0,
                        longer > n,
                ;
            } else {
                assert((longer - 1) / n == 0) by (nonlinear_arith)
                    requires
                        n > 0,
                        0 < longer <= n,
                ;
            }
        }
    }

    /// No chunk holds more than `chunk_size` bytes of metadata, or of data.
    pub proof fn lemma_chunks_fit(self, i: int)
        requires
            0 <= i < self.chunks().len(),
        ensures
            opt_len(self.chunks()[i].metadata) <= self.chunk_size,
            opt_len(self.chunks()[i].data) <= self.chunk_size,
        decreases opt_len(self.metadata) + opt_len(self.data),
    {
        if i > 0 {
            self.rest().lemma_chunks_fit(i - 1);
        }
    }

    /// No chunk holds more metadata, or more data, than is left.
    pub proof fn lemma_chunks_within(self, i: int)
        requires
            0 <= i < self.chunks().len(),
        ensures
            opt_len(self.chunks()[i].metadata) <= opt_len(self.metadata),
            opt_len(self.chunks()[i].data) <= opt_len(self.data),
        decreases opt_len(self.metadata) + opt_len(self.data),
    {
        if i > 0 {
            self.rest().lemma_chunks_within(i - 1);
        }
    }

    /// The metadata of the chunks, put together in order, is the metadata
    /// left, and their data is the data left.
    pub proof fn lemma_chunks_join(self)
        requires
            self.chunk_size > 0,
        ensures
            joined_metadata(self.chunks()) == opt_bytes(self.metadata),
            joined_data(self.chunks()) == opt_bytes(self.data),
        decreases opt_len(self.metadata) + opt_len(self.data),
    {
        if self.is_done() {
            assert(opt_bytes(self.metadata) =~= Seq::<u8>::empty());
            assert(opt_bytes(self.data) =~= Seq::<u8>::empty());
        } else {
            self.rest().lemma_chunks_join();
            let cs = self.chunks();
            assert(cs.skip(1) =~= self.rest().chunks());
            assert(cs[0] == self.first());
            assert(joined_metadata(cs) =~= opt_bytes(self.metadata));
            assert(joined_data(cs) =~= opt_bytes(self.data));
        }
    }
}

/// The metadata of the payloads, put together in order.
pub open spec fn joined_metadata(payloads: Seq<PayloadView>) -> Seq<u8>
    decreases payloads.len(),
{
    if payloads.len() == 0 {
        Seq::empty()
    } else {
        opt_bytes(payloads[0].metadata) + joined_metadata(payloads.skip(1))
    }
}

/// The data of the payloads, put together in order.
pub open spec fn joined_data(payloads: Seq<PayloadView>) -> Seq<u8>
    decreases payloads.len(),
{
    if payloads.len() == 0 {
        Seq::empty()
    } else {
        opt_bytes(payloads[0].data) + joined_data(payloads.skip(1))
    }
}

/// A payload that is handed out in chunks: `next` yields up to `chunk_size`
/// bytes of the metadata and of the data at a time.
#[derive(Debug)]
pub struct PayloadChunks {
    chunk_size: usize,
    metadata: Option<Bytes>,
    data: Option<Bytes>,
}

impl View for PayloadChunks {
    type V = PayloadChunksView;

    closed spec fn view(&self) -> PayloadChunksView {
        PayloadChunksView {
            chunk_size: self.chunk_size as nat,
            metadata: opt_contents(self.metadata),
            data: opt_contents(self.data),
        }
    }
}

/// Takes the first `n` bytes off a part of a payload, or all of it where it
/// has no more.
fn take_head(part: &mut Option<Bytes>, n: usize) -> (head: Option<Bytes>)
    ensures
        opt_contents(head) == head_of(opt_contents(*old(part)), n as nat),
        opt_contents(*final(part)) == tail_of(opt_contents(*old(part)), n as nat),
{
    match part.take() {
        Some(mut bytes) => {
            if n < bytes_len(&bytes) {
                let head = split_to(&mut bytes, n);
                *part = Some(bytes);
                Some(head)
            } else {
                Some(bytes)
            }
        },
        None => None,
    }
}

impl PayloadChunks {
    /// Returns the number of chunks in this `PayloadChunks`.
    pub fn len(&self) -> (n: usize)
        ensures
            n == self@.count(),
            n == self@.chunks().len(),
    {
        proof {
            self@.lemma_chunks_len();
        }
        if self.chunk_size == 0 {
            return 0;
        }
        let metadata_len = match &self.metadata {
            Some(bytes) => bytes_len(bytes),
            None => 0,
        };
        let data_len = match &self.data {
            Some(bytes) => bytes_len(bytes),
            None => 0,
        };
        let longer = if metadata_len >= data_len {
            metadata_len
        } else {
            data_len
        };
        if longer == 0 {
            0
        } else {
            assert((longer - 1) / (self.chunk_size as int) < usize::MAX) by (nonlinear_arith)
                requires
                    self.chunk_size > 0,
                    0 < longer <= usize::MAX,
            ;
            (longer - 1) / self.chunk_size + 1
        }
    }

    /// Returns true if this `PayloadChunks` is empty.
    pub fn is_empty(&self) -> (r: bool)
        ensures
            r == (self@.count() == 0),
            r == self@.is_done(),
    {
        let n = self.len();
        proof {
            let v = self@;
            let n = v.chunk_size as int;
            let longer = if opt_len(v.metadata) >= opt_len(v.data) {
                opt_len(v.metadata) as int
            } else {
                opt_len(v.data) as int
            };
            if longer > 0 && n > 0 {
                assert((longer - 1) / n >= 0) by (nonlinear_arith)
                    requires
                        n > 0,
                        longer > 0,
                ;
            }
        }
        n == 0
    }

    /// Hands out the next chunk, if any byte is left.
    pub fn next(&mut self) -> (r: Option<Payload>)
        ensures
            old(self)@.is_done() ==> r is None && final(self)@ == old(self)@,
            !old(self)@.is_done() ==> (r matches Some(p) && p@ == old(self)@.first()),
            !old(self)@.is_done() ==> final(self)@ == old(self)@.rest(),
            final(self)@.chunk_size == old(self)@.chunk_size,
    {
        let metadata_len = match &self.metadata {
            Some(bytes) => bytes_len(bytes),
            None => 0,
        };
        let data_len = match &self.data {
            Some(bytes) => bytes_len(bytes),
            None => 0,
        };
        if self.chunk_size == 0 || (metadata_len == 0 && data_len == 0) {
            return None;
        }
        let meta = take_head(&mut self.metadata, self.chunk_size);
        let data = take_head(&mut self.data, self.chunk_size);
        Some(Payload::new(meta, data))
    }
}

impl Encode for Payload {
    /// Metadata first, then data; no length goes with either.
    open spec fn wire(&self) -> Seq<u8> {
        self@.wire()
    }

    open spec fn encodable(&self) -> bool {
        true
    }

    fn encode(&self, buf: &mut BytesMut) {
        assert(self@.wire().len() == opt_len(self@.metadata) + opt_len(self@.data));
        assert(self.wire() == self@.wire());
        assert(written(*buf).len() + self.wire().len() <= isize::MAX);
        // Metadata is always put before data.
        if let Some(meta) = &self.metadata {
            assert(opt_len(self@.metadata) == contents(*meta).len());
            put_slice(buf, meta);
        }
        if let Some(data) = &self.data {
            assert(opt_len(self@.data) == contents(*data).len());
            put_slice(buf, data);
        }
        assert(written(*buf) =~= written(*old(buf)) + self@.wire());
    }

    fn encoded_len(&self) -> Option<usize> {
        assert(self.wire() == self@.wire());
        assert(self@.wire().len() == opt_len(self@.metadata) + opt_len(self@.data));
        add_within(Some(opt_bytes_len(&self.metadata)), opt_bytes_len(&self.data))
    }

    fn len(&self) -> usize {
        Payload::len(self)
    }
}

} // verus!
