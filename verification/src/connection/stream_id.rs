//! Stream IDs.
use dashmap::DashMap;
use std::sync::atomic::{AtomicI32, Ordering};
use vstd::prelude::*;

verus! {

#[verifier::external_type_specification]
#[verifier::external_body]
#[verifier::reject_recursive_types(K)]
#[verifier::reject_recursive_types(V)]
#[verifier::reject_recursive_types(S)]
pub struct ExDashMap<K, V, S>(dashmap::DashMap<K, V, S>);

/// `DashMap::contains_key`: whether the map holds the key at the moment of
/// the call. The map is shared between threads, so nothing is known of the
/// answer, nor of the map a moment later.
#[verifier::external_body]
fn store_contains<T>(store: &DashMap<u32, T>, stream_id: u32) -> bool {
    store.contains_key(&stream_id)
}

/// The bits of a stream ID: a stream ID has 31 bits.
pub const STREAM_ID_MASK: i32 = 0x7FFF_FFFF;

/// How many values of the counter one call of `next_stream_id` tries: once
/// round all the stream IDs of one side.
pub const MAX_TRIES: u32 = 0x4000_0000;

/// By how much every call advances the counter: the stream IDs of one side
/// lie 2 apart.
pub const STEP: i32 = 2;

/// The stream ID that a value of the counter stands for: its low 31 bits.
pub open spec fn stream_id_of(counter: i32) -> u32 {
    (counter & STREAM_ID_MASK) as u32
}

/// The value of a counter that started at `init` and was advanced `k`
/// times: each advance adds `STEP` and wraps round the 32-bit integers.
pub open spec fn counter_after(init: i32, k: nat) -> i32 {
    ((init + STEP * k + 0x8000_0000) % 0x1_0000_0000 - 0x8000_0000) as i32
}

/// The stream ID that the value of the counter stands for after `k`
/// advances from `init`.
pub open spec fn nth_stream_id(init: i32, k: nat) -> u32 {
    stream_id_of(counter_after(init, k))
}

/// The low 31 bits of a counter are the counter itself where it is not
/// negative, and the counter plus 2^31 where it is.
proof fn lemma_low_bits(counter: i32)
    by (bit_vector)
    ensures
        counter >= 0 ==> (counter & 0x7FFF_FFFFi32) == counter,
        counter < 0 ==> (counter & 0x7FFF_FFFFi32) as i64 == counter as i64 + 0x8000_0000i64,
        0 <= (counter & 0x7FFF_FFFFi32),
{
}

/// The stream ID that a counter stands for is the counter modulo 2^31.
pub proof fn lemma_stream_id_of(counter: i32)
    ensures
        stream_id_of(counter) == (counter as int) % 0x8000_0000,
        stream_id_of(counter) <= 0x7FFF_FFFF,
{
    lemma_low_bits(counter);
}

/// The stream ID after `k` advances from `init` is `init + 2 * k` modulo 2^31.
pub proof fn lemma_nth_stream_id(init: i32, k: nat)
    ensures
        nth_stream_id(init, k) == (init + 2 * k) % 0x8000_0000,
        nth_stream_id(init, k) % 2 == init % 2,
{
    let c = counter_after(init, k);
    lemma_stream_id_of(c);
    let x = init + 2 * k + 0x8000_0000;
    assert(c == x % 0x1_0000_0000 - 0x8000_0000);
    assert((x % 0x1_0000_0000 - 0x8000_0000) % 0x8000_0000 == (init + 2 * k) % 0x8000_0000);
}

/// A client's stream IDs are 1, 3, 5, and so on: the one after `k`
/// advances is `2 * k + 1`, for as long as that fits 31 bits.
pub proof fn lemma_client_stream_ids(k: nat)
    requires
        k < 0x4000_0000,
    ensures
        nth_stream_id(1, k) == 2 * k + 1,
{
    lemma_nth_stream_id(1, k);
}

/// A server's stream IDs are 2, 4, 6, and so on: the one after `k`
/// advances is `2 * k + 2`, for as long as that fits 31 bits.
pub proof fn lemma_server_stream_ids(k: nat)
    requires
        k < 0x3FFF_FFFF,
    ensures
        nth_stream_id(2, k) == 2 * k + 2,
{
    lemma_nth_stream_id(2, k);
}

/// After the greatest stream ID the IDs start again: a client's after
/// 2^31 - 1 is 1; a server's after 2^31 - 2 is 0, which is no stream ID
/// and is passed over, and then 2.
pub proof fn lemma_stream_ids_wrap()
    ensures
        nth_stream_id(0x7FFF_FFFF, 0) == 0x7FFF_FFFF,
        nth_stream_id(0x7FFF_FFFF, 1) == 1,
        nth_stream_id(-1i32, 0) == 0x7FFF_FFFF,
        nth_stream_id(-1i32, 1) == 1,
        nth_stream_id(1, 0x4000_0000) == 1,
        nth_stream_id(2, 0x3FFF_FFFF) == 0,
        nth_stream_id(2, 0x4000_0000) == 2,
{
    lemma_nth_stream_id(0x7FFF_FFFF, 0);
    lemma_nth_stream_id(0x7FFF_FFFF, 1);
    lemma_nth_stream_id(-1i32, 0);
    lemma_nth_stream_id(-1i32, 1);
    lemma_nth_stream_id(1, 0x4000_0000);
    lemma_nth_stream_id(2, 0x3FFF_FFFF);
    lemma_nth_stream_id(2, 0x4000_0000);
}

/// Two advances of one counter that lie less than 2^30 advances apart
/// stand for different stream IDs: no ID comes twice within one round.
pub proof fn lemma_stream_ids_differ(init: i32, i: nat, j: nat)
    requires
        i < j < i + 0x4000_0000,
    ensures
        nth_stream_id(init, i) != nth_stream_id(init, j),
{
    lemma_nth_stream_id(init, i);
    lemma_nth_stream_id(init, j);
    let a = init + 2 * i;
    let b = init + 2 * j;
    assert(0 < b - a < 0x8000_0000);
    if a % 0x8000_0000 == b % 0x8000_0000 {
        assert((b - a) % 0x8000_0000 == 0);
    }
}

/// Computes `stream_id_of`.
pub fn to_stream_id(counter: i32) -> (r: u32)
    ensures
        r == stream_id_of(counter),
        r <= 0x7FFF_FFFF,
{
    proof {
        lemma_low_bits(counter);
    }
    (counter & STREAM_ID_MASK) as u32
}

/// The stream ID that a value of the counter offers: the one that it stands
/// for, unless that is 0, which is the ID of no stream.
pub open spec fn offered(counter: i32) -> Option<u32> {
    if stream_id_of(counter) == 0 {
        None
    } else {
        Some(stream_id_of(counter))
    }
}

/// Computes `offered`. What is offered is above 0, fits 31 bits, and is odd
/// where the value of the counter is odd and even where it is even.
pub fn candidate(counter: i32) -> (r: Option<u32>)
    ensures
        r == offered(counter),
        r matches Some(sid) ==> 0 < sid <= 0x7FFF_FFFF,
        r matches Some(sid) ==> sid % 2 == counter % 2,
{
    proof {
        lemma_stream_id_of(counter);
    }
    let sid = to_stream_id(counter);
    if sid == 0 {
        None
    } else {
        Some(sid)
    }
}

/// What comes of an offer, once the store has said whether it holds the
/// stream ID offered: an ID that the store holds is in use and is passed
/// over, and an ID that it does not hold is handed out.
pub open spec fn settled(offer: Option<u32>, held: bool) -> Option<u32> {
    match offer {
        Some(sid) => if held {
            None
        } else {
            Some(sid)
        },
        None => None,
    }
}

/// Computes `settled`.
pub fn settle(offer: Option<u32>, held: bool) -> (r: Option<u32>)
    ensures
        r == settled(offer, held),
{
    match offer {
        Some(sid) => if held {
            None
        } else {
            Some(sid)
        },
        None => None,
    }
}

/// Whether a call that has tried `tried` values of the counter in vain
/// tries another: it gives up after `MAX_TRIES`.
pub open spec fn tries_on(tried: u32) -> bool {
    tried < MAX_TRIES
}

/// Computes `tries_on`.
pub fn goes_on(tried: u32) -> (r: bool)
    ensures
        r == tries_on(tried),
{
    tried < MAX_TRIES
}

/// Thread safe stream ID provider: a counter that every call advances by
/// `STEP`.
///
/// The counter is shared between threads: which value a call finds depends
/// on the calls of the others. The values that the calls find, taken
/// together, are the counter's values from its start on, each found once.
#[derive(Debug)]
pub struct StreamIdProvider(AtomicI32);

impl StreamIdProvider {
    /// Create a client-side `StreamIdProvider`: its counter starts at 1.
    pub fn new_for_client() -> StreamIdProvider {
        let sid = AtomicI32::new(1);
        StreamIdProvider(sid)
    }

    /// Create a server-side `StreamIdProvider`: its counter starts at 2.
    pub fn new_for_server() -> StreamIdProvider {
        let sid = AtomicI32::new(2);
        StreamIdProvider(sid)
    }

    /// Returns the next available stream ID.
    ///
    /// Each try advances the counter by `STEP` and takes the value that it
    /// found. `candidate` says which stream ID that value offers, the store
    /// is asked whether it holds that ID at that moment, and `settle` says
    /// what comes of the offer. The first ID that comes of an offer is
    /// returned. After `MAX_TRIES` tries in vain the call gives up and
    /// returns `None`: see `goes_on`.
    ///
    /// The counter and the store are shared between threads, so which ID is
    /// returned, and whether one is, is for them to decide.
    pub fn next_stream_id<T>(&self, store: &DashMap<u32, T>) -> (r: Option<u32>)
        ensures
            r matches Some(sid) ==> 0 < sid <= 0x7FFF_FFFF,
    {
        let mut tried: u32 = 0;
        while goes_on(tried)
            invariant
                tried <= MAX_TRIES,
            decreases MAX_TRIES - tried,
        {
            let offer = candidate(self.0.fetch_add(STEP, Ordering::Relaxed));
            let held = match offer {
                Some(sid) => store_contains(store, sid),
                None => false,
            };
            let found = settle(offer, held);
            if found.is_some() {
                return found;
            }
            tried = tried + 1;
        }
        None
    }

    /// Create a `StreamIdProvider` whose counter starts at `init`.
    pub fn _new(init: i32) -> StreamIdProvider {
        let sid = AtomicI32::new(init);
        StreamIdProvider(sid)
    }
}

} // verus!
