use trace_storage::{run_script, InMemStorage, Op, Storage, StorageError, TraceEvent, TraceStorage};

#[test]
fn absent_chat_has_no_record() {
    let store: InMemStorage<String> = InMemStorage::new();
    assert_eq!(store.get_dialogue(42), Ok(None));
    let traced = TraceStorage::new(InMemStorage::<String>::new());
    assert_eq!(traced.get_dialogue(-1), Ok(None));
}

#[test]
fn update_and_remove_return_previous_values() {
    let mut store = InMemStorage::new();
    assert_eq!(store.update_dialogue(5, "v1".to_string()), Ok(None));
    assert_eq!(store.update_dialogue(5, "v2".to_string()), Ok(Some("v1".to_string())));
    assert_eq!(store.get_dialogue(5), Ok(Some("v2".to_string())));
    assert_eq!(store.remove_dialogue(5), Ok(Some("v2".to_string())));
    assert_eq!(store.remove_dialogue(5), Ok(None));
    assert_eq!(store.get_dialogue(5), Ok(None));
}

#[test]
fn updates_of_one_chat_form_a_chain() {
    let mut store = InMemStorage::new();
    let values: Vec<u32> = vec![3, 1, 4, 1, 5];
    let mut previous = None;
    for v in values.iter() {
        assert_eq!(store.update_dialogue(9, *v), Ok(previous));
        previous = Some(*v);
    }
    assert_eq!(store.get_dialogue(9), Ok(Some(5)));
}

#[test]
fn chats_do_not_interact() {
    let mut store = InMemStorage::new();
    assert_eq!(store.update_dialogue(1, 10u8), Ok(None));
    assert_eq!(store.update_dialogue(2, 20u8), Ok(None));
    assert_eq!(store.remove_dialogue(1), Ok(Some(10)));
    assert_eq!(store.get_dialogue(2), Ok(Some(20)));
    assert_eq!(store.update_dialogue(1, 11u8), Ok(None));
    assert_eq!(store.get_dialogue(2), Ok(Some(20)));
}

#[test]
fn closed_store_refuses_and_keeps_records() {
    let mut store = InMemStorage::new();
    assert_eq!(store.update_dialogue(1, 7i64), Ok(None));
    assert!(!store.is_closed());
    store.close();
    assert!(store.is_closed());
    assert_eq!(store.get_dialogue(1), Err(StorageError::Closed));
    assert_eq!(store.update_dialogue(1, 8i64), Err(StorageError::Closed));
    assert_eq!(store.remove_dialogue(1), Err(StorageError::Closed));
}

fn script() -> Vec<Op<u32>> {
    vec![
        Op::Update(1, 100),
        Op::Update(2, 200),
        Op::Update(1, 101),
        Op::Remove(2),
        Op::Remove(3),
        Op::Update(3, 300),
        Op::Remove(1),
        Op::Remove(1),
    ]
}

#[test]
fn run_script_returns_each_previous_value() {
    let mut store = InMemStorage::new();
    let results = run_script(&mut store, script());
    assert_eq!(
        results,
        Ok(vec![None, None, Some(100), Some(200), None, None, Some(101), None])
    );
    assert_eq!(store.get_dialogue(3), Ok(Some(300)));
}

#[test]
fn traced_store_returns_what_the_bare_store_returns() {
    let mut bare = InMemStorage::new();
    let mut traced = TraceStorage::new(InMemStorage::new());
    traced.set_tracing(true);
    let from_bare = run_script(&mut bare, script());
    let from_traced = run_script(&mut traced, script());
    assert_eq!(from_bare, from_traced);
    for chat in 0..4 {
        assert_eq!(bare.get_dialogue(chat), traced.get_dialogue(chat));
    }
    let mut quiet = TraceStorage::new(InMemStorage::new());
    assert_eq!(run_script(&mut quiet, script()), from_bare);
    assert!(quiet.take_events().is_empty());
}

#[test]
fn traced_store_passes_errors_through() {
    let mut inner = InMemStorage::new();
    assert_eq!(inner.update_dialogue(4, 1u16), Ok(None));
    let mut traced = TraceStorage::new(inner);
    traced.set_tracing(true);
    assert_eq!(traced.update_dialogue(4, 2u16), Ok(Some(1)));
    let mut inner = traced.into_inner();
    inner.close();
    let mut traced = TraceStorage::new(inner);
    traced.set_tracing(true);
    assert_eq!(traced.update_dialogue(4, 3u16), Err(StorageError::Closed));
    assert_eq!(traced.remove_dialogue(4), Err(StorageError::Closed));
    assert_eq!(traced.get_dialogue(4), Err(StorageError::Closed));
    assert_eq!(traced.take_events(), vec![TraceEvent::Removing { chat_id: 4 }]);
    let mut inner = traced.into_inner();
    assert!(inner.is_closed());
    assert_eq!(inner.remove_dialogue(4), Err(StorageError::Closed));
}

#[test]
fn tracing_records_removals_and_updates() {
    let mut traced = TraceStorage::new(InMemStorage::new());
    assert!(!traced.is_tracing());
    assert_eq!(traced.update_dialogue(8, 1u8), Ok(None));
    assert!(traced.take_events().is_empty());
    traced.set_tracing(true);
    assert!(traced.is_tracing());
    assert_eq!(traced.update_dialogue(8, 2u8), Ok(Some(1)));
    assert_eq!(traced.remove_dialogue(8), Ok(Some(2)));
    let events = traced.take_events();
    assert_eq!(
        events,
        vec![
            TraceEvent::Updated {
                chat_id: 8,
                from: "Some(\n    1,\n)".to_string(),
                to: "2".to_string(),
            },
            TraceEvent::Removing { chat_id: 8 },
        ]
    );
    assert!(traced.take_events().is_empty());
    assert_eq!(traced.inner().get_dialogue(8), Ok(None));
}

#[test]
fn shard_index_is_the_non_negative_remainder() {
    assert_eq!(trace_storage::shard_index(0, 4), 0);
    assert_eq!(trace_storage::shard_index(7, 4), 3);
    assert_eq!(trace_storage::shard_index(-1, 4), 3);
    assert_eq!(trace_storage::shard_index(-8, 4), 0);
    assert_eq!(trace_storage::shard_index(i64::MIN, 3), 1);
    assert_eq!(trace_storage::shard_index(i64::MAX, 1), 0);
    assert_eq!(trace_storage::shard_index(-5, usize::MAX), usize::MAX - 5);
}

#[test]
fn failure_surfaces_through_two_traced_layers() {
    let mut inner = InMemStorage::new();
    assert_eq!(inner.update_dialogue(6, 'a'), Ok(None));
    let mut chain = TraceStorage::new(TraceStorage::new(inner));
    chain.set_tracing(true);
    assert_eq!(chain.update_dialogue(6, 'b'), Ok(Some('a')));
    assert_eq!(chain.remove_dialogue(6), Ok(Some('b')));
    let mut inner = chain.into_inner().into_inner();
    inner.close();
    let mut chain = TraceStorage::new(TraceStorage::new(inner));
    assert_eq!(chain.update_dialogue(6, 'c'), Err(StorageError::Closed));
    assert_eq!(chain.remove_dialogue(6), Err(StorageError::Closed));
    let mut bare = chain.into_inner().into_inner();
    assert_eq!(bare.update_dialogue(6, 'c'), Err(StorageError::Closed));
}

#[test]
fn tracing_on_or_off_gives_the_same_result() {
    let mut on = TraceStorage::new(InMemStorage::new());
    let mut off = TraceStorage::new(InMemStorage::new());
    on.set_tracing(true);
    for (k, v) in [(1i64, 5u8), (1, 6), (2, 7)] {
        assert_eq!(on.update_dialogue(k, v), off.update_dialogue(k, v));
    }
    assert_eq!(on.remove_dialogue(1), off.remove_dialogue(1));
    assert_eq!(on.take_events().len(), 4);
    assert!(off.take_events().is_empty());
}

#[test]
fn failing_script_stops_at_the_failure() {
    let mut store = InMemStorage::new();
    store.close();
    assert_eq!(run_script(&mut store, script()), Err(StorageError::Closed));
    let mut traced = TraceStorage::new(store);
    assert_eq!(run_script(&mut traced, script()), Err(StorageError::Closed));
}
