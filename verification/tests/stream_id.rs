use binate::connection::stream_id::{
    candidate, goes_on, settle, to_stream_id, MAX_TRIES, STEP, STREAM_ID_MASK,
};
use binate::connection::StreamIdProvider;
use dashmap::DashMap;
use loom::sync::Arc;

fn assert_send<T: Send>() {}

fn assert_sync<T: Sync>() {}

#[test]
fn stream_id_assert_send_sync() {
    assert_send::<StreamIdProvider>();
    assert_sync::<StreamIdProvider>();
}

#[test]
fn first_client_stream_id() {
    let store: DashMap<u32, ()> = DashMap::new();
    let gen = StreamIdProvider::new_for_client();
    assert_eq!(gen.next_stream_id(&store), Some(1));
    assert_eq!(gen.next_stream_id(&store), Some(3));
}

#[test]
fn first_server_stream_id() {
    let store: DashMap<u32, ()> = DashMap::new();
    let gen = StreamIdProvider::new_for_server();
    assert_eq!(gen.next_stream_id(&store), Some(2));
    assert_eq!(gen.next_stream_id(&store), Some(4));
}

#[test]
fn skip_existing_one() {
    let store: DashMap<u32, ()> = DashMap::new();
    store.insert(3, ());
    let gen = StreamIdProvider::new_for_client();
    assert_eq!(gen.next_stream_id(&store), Some(1));
    assert_eq!(gen.next_stream_id(&store), Some(5));
}

#[test]
fn wraps_around_on_overflow() {
    let store: DashMap<u32, ()> = DashMap::new();
    let gen = StreamIdProvider::_new(i32::MAX);
    assert_eq!(gen.next_stream_id(&store), Some(STREAM_ID_MASK as u32));
    assert_eq!(gen.next_stream_id(&store), Some(1));

    let store: DashMap<u32, ()> = DashMap::new();
    let gen = StreamIdProvider::_new(-1);
    assert_eq!(gen.next_stream_id(&store), Some(STREAM_ID_MASK as u32));
    assert_eq!(gen.next_stream_id(&store), Some(1));
}

#[test]
fn assert_thread_safe() {
    loom::model(|| {
        let gen = Arc::new(StreamIdProvider::new_for_server());
        let store: Arc<DashMap<u32, ()>> = Arc::new(DashMap::new());
        store.insert(4, ());
        store.insert(8, ());

        let threads: Vec<_> = (0..2)
            .map(|_| {
                let gen = gen.clone();
                let store = store.clone();
                loom::thread::spawn(move || {
                    gen.next_stream_id(&store);
                })
            })
            .collect();

        gen.next_stream_id(&store);
        gen.next_stream_id(&store);

        for th in threads {
            th.join().unwrap()
        }

        // (2 + 2 + 2 + 1) * 2
        assert_eq!(gen.next_stream_id(&store), Some(14));
    })
}

#[test]
fn client_ids_are_odd_and_in_order() {
    let store: DashMap<u32, ()> = DashMap::new();
    let gen = StreamIdProvider::new_for_client();
    for k in 0..100u32 {
        assert_eq!(gen.next_stream_id(&store), Some(2 * k + 1));
    }
}

#[test]
fn server_ids_are_even_and_in_order() {
    let store: DashMap<u32, ()> = DashMap::new();
    let gen = StreamIdProvider::new_for_server();
    for k in 0..100u32 {
        assert_eq!(gen.next_stream_id(&store), Some(2 * k + 2));
    }
}

#[test]
fn reserved_ids_are_passed_over() {
    let store: DashMap<u32, ()> = DashMap::new();
    store.insert(3, ());
    let gen = StreamIdProvider::new_for_client();
    assert_eq!(gen.next_stream_id(&store), Some(1));
    assert_eq!(gen.next_stream_id(&store), Some(5));
    assert_eq!(gen.next_stream_id(&store), Some(7));
}

#[test]
fn server_passes_over_zero_when_it_wraps() {
    let store: DashMap<u32, ()> = DashMap::new();
    let gen = StreamIdProvider::_new(0x7FFF_FFFE);
    assert_eq!(gen.next_stream_id(&store), Some(0x7FFF_FFFE));
    assert_eq!(gen.next_stream_id(&store), Some(2));
}

#[test]
fn stream_id_is_the_low_31_bits() {
    assert_eq!(to_stream_id(1), 1);
    assert_eq!(to_stream_id(i32::MAX), 0x7FFF_FFFF);
    assert_eq!(to_stream_id(i32::MIN), 0);
    assert_eq!(to_stream_id(i32::MIN + 1), 1);
    assert_eq!(to_stream_id(-1), 0x7FFF_FFFF);
    assert_eq!(MAX_TRIES, 1 << 30);
    assert_eq!(candidate(3), Some(3));
    assert_eq!(candidate(-1), Some(0x7FFF_FFFF));
    assert_eq!(candidate(0), None);
    assert_eq!(candidate(i32::MIN), None);
}

#[test]
fn an_offer_is_settled_by_the_store() {
    assert_eq!(settle(Some(3), false), Some(3));
    assert_eq!(settle(Some(3), true), None);
    assert_eq!(settle(None, false), None);
    assert_eq!(settle(None, true), None);
    assert_eq!(settle(candidate(5), false), Some(5));
    assert_eq!(settle(candidate(0), false), None);
    assert_eq!(STEP, 2);
    assert!(goes_on(0));
    assert!(goes_on(MAX_TRIES - 1));
    assert!(!goes_on(MAX_TRIES));
    assert!(!goes_on(u32::MAX));
}

#[test]
fn ids_keep_the_parity_of_their_side() {
    for counter in [1, 3, 0x7FFF_FFFF, -1, i32::MIN + 1, -0x7FFF_FFFD] {
        assert_eq!(candidate(counter).map(|sid| sid % 2), Some(1));
    }
    for counter in [2, 4, 0x7FFF_FFFE, -2, i32::MIN + 2] {
        assert_eq!(candidate(counter).map(|sid| sid % 2), Some(0));
    }
    let store: DashMap<u32, ()> = DashMap::new();
    store.insert(2, ());
    store.insert(6, ());
    let client = StreamIdProvider::new_for_client();
    let server = StreamIdProvider::new_for_server();
    for _ in 0..20 {
        assert_eq!(client.next_stream_id(&store).unwrap() % 2, 1);
        let id = server.next_stream_id(&store).unwrap();
        assert_eq!(id % 2, 0);
        assert!(!store.contains_key(&id));
    }
    // The store is asked, not changed.
    assert_eq!(store.len(), 2);
}

#[test]
fn ids_given_in_turn_by_many_callers_differ() {
    let store: DashMap<u32, ()> = DashMap::new();
    let gen = StreamIdProvider::new_for_client();
    let mut seen = std::collections::HashSet::new();
    for _caller in 0..8 {
        for _ in 0..50 {
            let id = gen.next_stream_id(&store).unwrap();
            assert!(seen.insert(id));
        }
    }
    assert_eq!(seen.len(), 8 * 50);
}
