use std::collections::BTreeMap;

use rocksdict::cursor::{CursorCall, RdictItems, WalkStep, Yield};
use rocksdict::engine::{
    finish_contains, finish_get, finish_get_batch, finish_ingest, finish_write, EngineCall,
    EngineFailure,
};
use rocksdict::error::StoreError;
use rocksdict::key_codec::{decode_key, encode_key};
use rocksdict::options::{FlushOptionsPy, ReadOptionsPy, WriteOptionsPy};
use rocksdict::registry::{plan_open, OpenCall, Rdict, Registry};
use rocksdict::value::{Kind, TypedValue};
use rocksdict::value_codec::encode_value;

/// A stand-in for the engine: an ordered map per partition.
struct Shelf {
    entries: BTreeMap<(Option<usize>, Vec<u8>), Vec<u8>>,
    log: Vec<EngineCall>,
}

impl Shelf {
    fn new() -> Shelf {
        Shelf { entries: BTreeMap::new(), log: Vec::new() }
    }

    fn write(&mut self, call: EngineCall) -> Result<(), EngineFailure> {
        self.log.push(call.clone());
        match call {
            EngineCall::Put { partition, key, value } => {
                self.entries.insert((partition, key), value);
            }
            EngineCall::Delete { partition, key } => {
                self.entries.remove(&(partition, key));
            }
            _ => {}
        }
        Ok(())
    }

    fn read(&self, call: &EngineCall) -> Result<Option<Vec<u8>>, EngineFailure> {
        match call {
            EngineCall::Get { partition, key } => {
                Ok(self.entries.get(&(*partition, key.clone())).cloned())
            }
            _ => panic!("not a read"),
        }
    }

    fn read_many(&self, call: &EngineCall) -> Vec<Result<Option<Vec<u8>>, EngineFailure>> {
        match call {
            EngineCall::MultiGet { partition, keys } => keys
                .iter()
                .map(|k| Ok(self.entries.get(&(*partition, k.clone())).cloned()))
                .collect(),
            _ => panic!("not a batch read"),
        }
    }

    fn snapshot(&self, partition: Option<usize>) -> Vec<(Vec<u8>, Vec<u8>)> {
        self.entries
            .iter()
            .filter(|((p, _), _)| *p == partition)
            .map(|((_, k), v)| (k.clone(), v.clone()))
            .collect()
    }
}

/// A stand-in for the engine's cursor over a snapshot.
struct Needle {
    rows: Vec<(Vec<u8>, Vec<u8>)>,
    at: Option<usize>,
}

impl Needle {
    fn apply(&mut self, call: &CursorCall) {
        let n = self.rows.len();
        self.at = match call {
            CursorCall::SeekToFirst => if n > 0 { Some(0) } else { None },
            CursorCall::SeekToLast => if n > 0 { Some(n - 1) } else { None },
            CursorCall::Seek(k) => self.rows.iter().position(|(rk, _)| rk >= k),
            CursorCall::SeekForPrev(k) => self.rows.iter().rposition(|(rk, _)| rk <= k),
            CursorCall::Next => match self.at {
                Some(i) if i + 1 < n => Some(i + 1),
                _ => None,
            },
            CursorCall::Prev => match self.at {
                Some(i) if i > 0 => Some(i - 1),
                _ => None,
            },
        };
    }

    fn entry(&self) -> Option<(Vec<u8>, Vec<u8>)> {
        self.at.map(|i| self.rows[i].clone())
    }
}

fn open_store(partitions: Option<Vec<String>>) -> Registry {
    Registry::opened(partitions, Ok(())).unwrap()
}

fn failure(incomplete: bool, message: &str) -> EngineFailure {
    EngineFailure { incomplete, message: message.to_string() }
}

fn put(reg: &Registry, shelf: &mut Shelf, view: &Rdict, k: TypedValue, v: TypedValue) {
    let call = reg.put(view, &k, &v).unwrap();
    finish_write(shelf.write(call)).unwrap();
}

fn get(reg: &Registry, shelf: &Shelf, view: &Rdict, k: TypedValue) -> Option<TypedValue> {
    let call = reg.get(view, &k).unwrap();
    finish_get(shelf.read(&call)).unwrap()
}

fn collect(shelf: &Shelf, partition: Option<usize>, walk: &mut RdictItems) -> Vec<(Option<Vec<u8>>, Option<TypedValue>)> {
    let mut needle = Needle { rows: shelf.snapshot(partition), at: None };
    needle.apply(&walk.start());
    let mut out = Vec::new();
    loop {
        match walk.step(needle.entry()) {
            WalkStep::Entry { key, value, then } => {
                out.push((key, value));
                needle.apply(&then);
            }
            WalkStep::Corrupt => panic!("corrupt entry"),
            WalkStep::Done => break,
        }
    }
    out
}

#[test]
fn open_plan_follows_the_wishes() {
    assert_eq!(plan_open(&None, false, true, 0), Ok(OpenCall::Plain { with_partitions: false }));
    assert_eq!(
        plan_open(&None, false, true, 30),
        Ok(OpenCall::WithTtl { with_partitions: false, ttl: 30 })
    );
    assert_eq!(
        plan_open(&None, true, false, 30),
        Ok(OpenCall::ReadOnly { with_partitions: false, error_if_log_file_exist: false })
    );
    let names = Some(vec!["a".to_string(), "b".to_string()]);
    assert_eq!(plan_open(&names, false, true, 0), Ok(OpenCall::Plain { with_partitions: true }));
    assert_eq!(
        plan_open(&names, false, true, 7),
        Ok(OpenCall::WithTtl { with_partitions: true, ttl: 7 })
    );
    assert_eq!(
        plan_open(&names, true, true, 0),
        Ok(OpenCall::ReadOnly { with_partitions: true, error_if_log_file_exist: true })
    );
}

#[test]
fn a_partition_declared_twice_is_refused() {
    let names = Some(vec!["a".to_string(), "b".to_string(), "a".to_string()]);
    assert_eq!(plan_open(&names, false, true, 0), Err(StoreError::PartitionExists));
    assert!(matches!(Registry::opened(names, Ok(())), Err(StoreError::PartitionExists)));
}

#[test]
fn a_failed_open_carries_the_engine_message() {
    let r = Registry::opened(None, Err(failure(false, "lock held")));
    assert!(matches!(r, Err(StoreError::EngineOpenError(m)) if m == "lock held"));
}

#[test]
fn declared_partitions_are_live_after_open() {
    let reg = open_store(Some(vec!["a".to_string(), "b".to_string()]));
    assert!(reg.is_open());
    assert_eq!(reg.partition_slots(), 2);
    assert!(reg.partition_live(0) && reg.partition_live(1) && !reg.partition_live(2));
    let root = reg.default_view();
    assert_eq!(root.get_column_family(&reg, "b").unwrap().partition, Some(1));
    assert_eq!(root.get_column_family(&reg, "c"), Err(StoreError::PartitionNotFound));
}

#[test]
fn the_default_view_starts_with_plain_options() {
    let reg = open_store(None);
    let view = reg.default_view();
    assert_eq!(view.partition, None);
    assert_eq!(view.write_opt, WriteOptionsPy::new());
    assert_eq!(view.read_opt, ReadOptionsPy::default());
    assert_eq!(view.flush_opt, FlushOptionsPy { wait: true });
}

#[test]
fn plans_carry_the_encoded_key_and_value() {
    let reg = open_store(None);
    let view = reg.default_view();
    let k = TypedValue::Signed(3);
    let v = TypedValue::Text("x".to_string());
    assert_eq!(
        reg.get(&view, &k),
        Ok(EngineCall::Get { partition: None, key: encode_key(&k).unwrap() })
    );
    assert_eq!(
        reg.put(&view, &k, &v),
        Ok(EngineCall::Put { partition: None, key: vec![0x80, 0, 0, 0, 0, 0, 0, 3], value: vec![5, b'x'] })
    );
    assert_eq!(
        reg.delete(&view, &k),
        Ok(EngineCall::Delete { partition: None, key: encode_key(&k).unwrap() })
    );
    assert_eq!(
        reg.contains(&view, &k),
        Ok(EngineCall::KeyMayExist { partition: None, key: encode_key(&k).unwrap() })
    );
    assert_eq!(reg.flush(&view, false), Ok(EngineCall::Flush { partition: None, wait: false }));
    assert_eq!(
        reg.ingest_external_file(&view, vec!["a.sst".to_string()]),
        Ok(EngineCall::Ingest { partition: None, paths: vec!["a.sst".to_string()] })
    );
}

#[test]
fn an_opaque_key_is_refused_by_every_keyed_plan() {
    let reg = open_store(None);
    let view = reg.default_view();
    let k = TypedValue::Opaque(vec![1]);
    let v = TypedValue::Unsigned(1);
    assert_eq!(reg.get(&view, &k), Err(StoreError::UnsupportedKeyType));
    assert_eq!(reg.put(&view, &k, &v), Err(StoreError::UnsupportedKeyType));
    assert_eq!(reg.delete(&view, &k), Err(StoreError::UnsupportedKeyType));
    assert_eq!(reg.contains(&view, &k), Err(StoreError::UnsupportedKeyType));
    assert_eq!(reg.contains_lookup(&view, &k, true), Err(StoreError::UnsupportedKeyType));
    assert_eq!(
        reg.get_batch(&view, &vec![TypedValue::Unsigned(1), k.clone()]),
        Err(StoreError::UnsupportedKeyType)
    );
    assert!(matches!(reg.items(&view, false, Some(&k), &ReadOptionsPy::default()), Err(StoreError::UnsupportedKeyType)));
}

#[test]
fn an_opaque_value_can_be_stored() {
    let reg = open_store(None);
    let view = reg.default_view();
    let mut shelf = Shelf::new();
    put(&reg, &mut shelf, &view, TypedValue::Unsigned(1), TypedValue::Opaque(vec![0x80, 4]));
    assert_eq!(get(&reg, &shelf, &view, TypedValue::Unsigned(1)), Some(TypedValue::Opaque(vec![0x80, 4])));
}

#[test]
fn after_close_every_operation_fails_with_handle_closed() {
    let mut reg = open_store(Some(vec!["a".to_string()]));
    let root = reg.default_view();
    let part = root.get_column_family(&reg, "a").unwrap();
    let plan = reg.close(&root);
    assert!(!plan.is_empty());
    assert!(!reg.is_open());
    let k = TypedValue::Unsigned(1);
    for view in [&root, &part] {
        assert_eq!(reg.get(view, &k), Err(StoreError::HandleClosed));
        assert_eq!(reg.get_batch(view, &vec![k.clone()]), Err(StoreError::HandleClosed));
        assert_eq!(reg.put(view, &k, &k), Err(StoreError::HandleClosed));
        assert_eq!(reg.delete(view, &k), Err(StoreError::HandleClosed));
        assert_eq!(reg.contains(view, &k), Err(StoreError::HandleClosed));
        assert_eq!(reg.contains_lookup(view, &k, false), Err(StoreError::HandleClosed));
        assert_eq!(reg.flush(view, true), Err(StoreError::HandleClosed));
        assert_eq!(reg.ingest_external_file(view, vec![]), Err(StoreError::HandleClosed));
        assert_eq!(reg.iter(view, &ReadOptionsPy::default()), Err(StoreError::HandleClosed));
        assert!(matches!(reg.items(view, false, None, &ReadOptionsPy::default()), Err(StoreError::HandleClosed)));
        assert!(matches!(reg.keys(view, false, None, &ReadOptionsPy::default()), Err(StoreError::HandleClosed)));
        assert!(matches!(reg.values(view, true, None, &ReadOptionsPy::default()), Err(StoreError::HandleClosed)));
        assert_eq!(view.get_column_family(&reg, "a"), Err(StoreError::HandleClosed));
        assert_eq!(reg.check(view.partition), Err(StoreError::HandleClosed));
    }
    assert_eq!(reg.create_column_family("b"), Err(StoreError::HandleClosed));
    assert_eq!(reg.drop_column_family("a"), Err(StoreError::HandleClosed));
    assert_eq!(reg.finish_create_column_family(&root, "b", Ok(())), Err(StoreError::HandleClosed));
    assert_eq!(reg.finish_drop_column_family("a", Ok(())), Err(StoreError::HandleClosed));
}

#[test]
fn closing_twice_asks_nothing_more() {
    let mut reg = open_store(None);
    let root = reg.default_view();
    let first = reg.close(&root);
    assert_eq!(first, vec![EngineCall::Flush { partition: None, wait: true }, EngineCall::ReleaseEngine]);
    let second = reg.close(&root);
    assert!(second.is_empty());
    assert!(!reg.is_open());
}

#[test]
fn teardown_releases_partitions_before_the_engine() {
    let mut reg = open_store(Some(vec!["a".to_string(), "b".to_string(), "c".to_string()]));
    let root = reg.default_view();
    reg.finish_drop_column_family("b", Ok(())).unwrap();
    let mut view = root.get_column_family(&reg, "c").unwrap();
    view.flush_opt.set_wait(false);
    let plan = reg.close(&view);
    assert_eq!(
        plan,
        vec![
            EngineCall::Flush { partition: Some(2), wait: false },
            EngineCall::ReleasePartition { slot: 0 },
            EngineCall::ReleasePartition { slot: 2 },
            EngineCall::ReleaseEngine,
        ]
    );
    assert!(!reg.partition_live(0) && !reg.partition_live(2));
    assert_eq!(reg.partition_slots(), 3);
}

#[test]
fn closing_through_a_view_of_a_dropped_partition_flushes_the_default_store() {
    let mut reg = open_store(Some(vec!["a".to_string()]));
    let root = reg.default_view();
    let view = root.get_column_family(&reg, "a").unwrap();
    reg.finish_drop_column_family("a", Ok(())).unwrap();
    assert_eq!(
        reg.close(&view),
        vec![EngineCall::Flush { partition: None, wait: true }, EngineCall::ReleaseEngine]
    );
}

#[test]
fn partitions_are_created_found_and_dropped() {
    let mut reg = open_store(None);
    let root = reg.default_view();
    assert_eq!(root.get_column_family(&reg, "a"), Err(StoreError::PartitionNotFound));
    assert_eq!(reg.drop_column_family("a"), Err(StoreError::PartitionNotFound));
    assert_eq!(reg.create_column_family("a"), Ok(EngineCall::CreatePartition { name: "a".to_string() }));
    let a = reg.finish_create_column_family(&root, "a", Ok(())).unwrap();
    assert_eq!(a.partition, Some(0));
    assert_eq!(reg.create_column_family("a"), Err(StoreError::PartitionExists));
    assert_eq!(reg.finish_create_column_family(&root, "a", Ok(())), Err(StoreError::PartitionExists));
    assert_eq!(root.get_column_family(&reg, "a"), Ok(a.clone()));
    assert_eq!(reg.drop_column_family("a"), Ok(EngineCall::DropPartition { slot: 0, name: "a".to_string() }));
    assert_eq!(reg.finish_drop_column_family("a", Ok(())), Ok(()));
    assert_eq!(reg.get(&a, &TypedValue::Unsigned(1)), Err(StoreError::PartitionNotFound));
    assert_eq!(root.get_column_family(&reg, "a"), Err(StoreError::PartitionNotFound));
    assert_eq!(reg.finish_drop_column_family("a", Ok(())), Err(StoreError::PartitionNotFound));
    let again = reg.finish_create_column_family(&root, "a", Ok(())).unwrap();
    assert_eq!(again.partition, Some(1));
    assert_eq!(reg.get(&a, &TypedValue::Unsigned(1)), Err(StoreError::PartitionNotFound));
    assert!(reg.get(&again, &TypedValue::Unsigned(1)).is_ok());
}

#[test]
fn an_engine_failure_leaves_the_partitions_as_they_were() {
    let mut reg = open_store(Some(vec!["a".to_string()]));
    let root = reg.default_view();
    assert_eq!(
        reg.finish_create_column_family(&root, "b", Err(failure(false, "no space"))),
        Err(StoreError::EngineError("no space".to_string()))
    );
    assert_eq!(root.get_column_family(&reg, "b"), Err(StoreError::PartitionNotFound));
    assert_eq!(reg.partition_slots(), 1);
    assert_eq!(
        reg.finish_drop_column_family("a", Err(failure(false, "busy"))),
        Err(StoreError::EngineError("busy".to_string()))
    );
    assert!(reg.partition_live(0));
}

#[test]
fn a_new_view_inherits_the_options() {
    let mut reg = open_store(None);
    let mut root = reg.default_view();
    let mut w = WriteOptionsPy::new();
    w.set_sync(true);
    w.set_no_slowdown(true);
    root.set_write_options(&w);
    let mut r = ReadOptionsPy::default();
    r.set_tailing(true);
    r.set_iterate_upper_bound(&TypedValue::Unsigned(9)).unwrap();
    root.set_read_options(&r);
    let a = reg.finish_create_column_family(&root, "a", Ok(())).unwrap();
    assert_eq!(a.write_opt, w);
    assert_eq!(a.read_opt, r);
    let b = a.get_column_family(&reg, "a").unwrap();
    assert_eq!(b.write_opt, w);
    assert_eq!(b.read_opt, r);
    assert_eq!(b.partition, Some(0));
}

#[test]
fn outcomes_of_reads() {
    assert_eq!(finish_get(Ok(None)), Ok(None));
    assert_eq!(
        finish_get(Ok(Some(encode_value(&TypedValue::Signed(-7))))),
        Ok(Some(TypedValue::Signed(-7)))
    );
    assert_eq!(finish_get(Ok(Some(vec![9, 9]))), Err(StoreError::CorruptEncoding));
    assert_eq!(finish_get(Err(failure(false, "io"))), Err(StoreError::EngineError("io".to_string())));
    assert_eq!(finish_get(Err(failure(true, "busy"))), Err(StoreError::OperationIncomplete));
}

#[test]
fn outcomes_of_writes() {
    assert_eq!(finish_write(Ok(())), Ok(()));
    assert_eq!(finish_write(Err(failure(true, "stall"))), Err(StoreError::OperationIncomplete));
    assert_eq!(finish_write(Err(failure(false, "io"))), Err(StoreError::EngineError("io".to_string())));
    assert_eq!(finish_ingest(Ok(())), Ok(()));
    assert_eq!(
        finish_ingest(Err(failure(false, "overlap"))),
        Err(StoreError::IngestError("overlap".to_string()))
    );
}

#[test]
fn outcomes_of_batch_reads() {
    let one = encode_value(&TypedValue::Unsigned(1));
    assert_eq!(
        finish_get_batch(vec![Ok(Some(one.clone())), Ok(None)]),
        Ok(vec![Some(TypedValue::Unsigned(1)), None])
    );
    assert_eq!(finish_get_batch(vec![]), Ok(vec![]));
    assert_eq!(
        finish_get_batch(vec![Ok(None), Ok(Some(vec![0])), Err(failure(false, "late"))]),
        Err(StoreError::CorruptEncoding)
    );
    assert_eq!(
        finish_get_batch(vec![Ok(Some(one)), Err(failure(false, "first")), Ok(Some(vec![0]))]),
        Err(StoreError::EngineError("first".to_string()))
    );
}

#[test]
fn membership_in_two_steps() {
    let reg = open_store(None);
    let view = reg.default_view();
    let k = TypedValue::Text("k".to_string());
    assert_eq!(reg.contains_lookup(&view, &k, false), Ok(None));
    assert_eq!(
        reg.contains_lookup(&view, &k, true),
        Ok(Some(EngineCall::Get { partition: None, key: b"k".to_vec() }))
    );
    assert_eq!(finish_contains(Ok(None)), Ok(false));
    assert_eq!(finish_contains(Ok(Some(vec![0xee]))), Ok(true));
    assert_eq!(finish_contains(Err(failure(false, "io"))), Err(StoreError::EngineError("io".to_string())));
}

#[test]
fn batch_plan_keeps_the_order_of_the_keys() {
    let reg = open_store(Some(vec!["a".to_string()]));
    let view = reg.default_view().get_column_family(&reg, "a").unwrap();
    let keys = vec![TypedValue::Unsigned(2), TypedValue::Bool(true), TypedValue::Bytes(vec![7])];
    assert_eq!(
        reg.get_batch(&view, &keys),
        Ok(EngineCall::MultiGet {
            partition: Some(0),
            keys: vec![vec![0, 0, 0, 0, 0, 0, 0, 2], vec![1], vec![7]],
        })
    );
}

#[test]
fn partitions_are_isolated() {
    let reg = open_store(Some(vec!["a".to_string(), "b".to_string()]));
    let root = reg.default_view();
    let a = root.get_column_family(&reg, "a").unwrap();
    let b = root.get_column_family(&reg, "b").unwrap();
    let mut shelf = Shelf::new();
    let k = TypedValue::Text("k".to_string());
    put(&reg, &mut shelf, &a, k.clone(), TypedValue::Unsigned(1));
    put(&reg, &mut shelf, &b, k.clone(), TypedValue::Unsigned(2));
    assert_eq!(get(&reg, &shelf, &a, k.clone()), Some(TypedValue::Unsigned(1)));
    assert_eq!(get(&reg, &shelf, &b, k.clone()), Some(TypedValue::Unsigned(2)));
    assert_eq!(get(&reg, &shelf, &root, k.clone()), None);
    let call = reg.get_batch(&a, &vec![k.clone(), TypedValue::Text("z".to_string())]).unwrap();
    assert_eq!(
        finish_get_batch(shelf.read_many(&call)),
        Ok(vec![Some(TypedValue::Unsigned(1)), None])
    );
    let call = reg.delete(&a, &k).unwrap();
    finish_write(shelf.write(call)).unwrap();
    assert_eq!(get(&reg, &shelf, &a, k.clone()), None);
    assert_eq!(get(&reg, &shelf, &b, k), Some(TypedValue::Unsigned(2)));
}

#[test]
fn end_to_end_walk_over_squares() {
    let reg = open_store(None);
    let view = reg.default_view();
    let mut shelf = Shelf::new();
    for i in 0..50i64 {
        put(&reg, &mut shelf, &view, TypedValue::Signed(i), TypedValue::Signed(i * i));
    }
    let cursor = reg.iter(&view, &ReadOptionsPy::default()).unwrap();
    let mut needle = Needle { rows: shelf.snapshot(cursor.partition), at: None };
    needle.apply(&cursor.seek_to_first());
    let mut j = 0i64;
    while let Some((k, v)) = needle.entry() {
        assert_eq!(decode_key(Kind::Signed, &k), Ok(TypedValue::Signed(j)));
        assert_eq!(cursor.value(&v), Ok(TypedValue::Signed(j * j)));
        needle.apply(&cursor.next());
        j += 1;
    }
    assert_eq!(j, 50);
    needle.apply(&cursor.seek(&TypedValue::Signed(25)).unwrap());
    let (k, v) = needle.entry().unwrap();
    assert_eq!(decode_key(Kind::Signed, &k), Ok(TypedValue::Signed(25)));
    assert_eq!(cursor.value(&v), Ok(TypedValue::Signed(625)));
    needle.apply(&cursor.seek_to_last());
    needle.apply(&cursor.prev());
    assert_eq!(needle.entry().unwrap().0, encode_key(&TypedValue::Signed(48)).unwrap());
    needle.apply(&cursor.seek_for_prev(&TypedValue::Signed(100)).unwrap());
    assert_eq!(needle.entry().unwrap().0, encode_key(&TypedValue::Signed(49)).unwrap());
}

#[test]
fn negative_keys_walk_before_positive_ones() {
    let reg = open_store(None);
    let view = reg.default_view();
    let mut shelf = Shelf::new();
    for i in [3i64, -2, 0, -7, 5] {
        put(&reg, &mut shelf, &view, TypedValue::Signed(i), TypedValue::Signed(i));
    }
    let (cursor, mut walk) = reg.values(&view, false, None, &ReadOptionsPy::default()).unwrap();
    let got: Vec<TypedValue> = collect(&shelf, cursor.partition, &mut walk).into_iter().map(|(_, v)| v.unwrap()).collect();
    let want: Vec<TypedValue> = [-7i64, -2, 0, 3, 5].iter().map(|i| TypedValue::Signed(*i)).collect();
    assert_eq!(got, want);
}

#[test]
fn walks_start_where_they_are_told() {
    assert_eq!(RdictItems::new(Yield::Items, false, None).unwrap().start(), CursorCall::SeekToFirst);
    assert_eq!(RdictItems::new(Yield::Items, true, None).unwrap().start(), CursorCall::SeekToLast);
    let k = TypedValue::Unsigned(5);
    assert_eq!(
        RdictItems::new(Yield::Keys, false, Some(&k)).unwrap().start(),
        CursorCall::Seek(vec![0, 0, 0, 0, 0, 0, 0, 5])
    );
    assert_eq!(
        RdictItems::new(Yield::Keys, true, Some(&k)).unwrap().start(),
        CursorCall::SeekForPrev(vec![0, 0, 0, 0, 0, 0, 0, 5])
    );
    assert_eq!(
        RdictItems::new(Yield::Values, true, Some(&TypedValue::Opaque(vec![]))),
        Err(StoreError::UnsupportedKeyType)
    );
}

#[test]
fn walks_in_both_directions_and_from_a_key() {
    let reg = open_store(None);
    let view = reg.default_view();
    let mut shelf = Shelf::new();
    for i in [10u64, 20, 30, 40] {
        put(&reg, &mut shelf, &view, TypedValue::Unsigned(i), TypedValue::Unsigned(i + 1));
    }
    let opts = ReadOptionsPy::default();
    let key_of = |i: u64| Some(encode_key(&TypedValue::Unsigned(i)).unwrap());
    let val_of = |i: u64| Some(TypedValue::Unsigned(i + 1));

    let (c, mut w) = reg.items(&view, false, None, &opts).unwrap();
    assert_eq!(
        collect(&shelf, c.partition, &mut w),
        vec![(key_of(10), val_of(10)), (key_of(20), val_of(20)), (key_of(30), val_of(30)), (key_of(40), val_of(40))]
    );
    assert!(w.finished);
    assert_eq!(w.step(Some((vec![1], vec![4, 1]))), WalkStep::Done);

    let (c, mut w) = reg.keys(&view, true, None, &opts).unwrap();
    assert_eq!(
        collect(&shelf, c.partition, &mut w),
        vec![(key_of(40), None), (key_of(30), None), (key_of(20), None), (key_of(10), None)]
    );

    let from = TypedValue::Unsigned(25);
    let (c, mut w) = reg.values(&view, false, Some(&from), &opts).unwrap();
    assert_eq!(collect(&shelf, c.partition, &mut w), vec![(None, val_of(30)), (None, val_of(40))]);

    let (c, mut w) = reg.values(&view, true, Some(&from), &opts).unwrap();
    assert_eq!(collect(&shelf, c.partition, &mut w), vec![(None, val_of(20)), (None, val_of(10))]);

    let exact = TypedValue::Unsigned(20);
    let (c, mut w) = reg.keys(&view, false, Some(&exact), &opts).unwrap();
    assert_eq!(
        collect(&shelf, c.partition, &mut w),
        vec![(key_of(20), None), (key_of(30), None), (key_of(40), None)]
    );
}

#[test]
fn a_walk_stops_on_corrupt_bytes_unless_it_reads_keys_only() {
    let mut items = RdictItems::new(Yield::Items, false, None).unwrap();
    assert_eq!(items.step(Some((vec![1], vec![0xee]))), WalkStep::Corrupt);
    assert!(items.finished);
    assert_eq!(items.step(Some((vec![1], vec![4, 1]))), WalkStep::Done);
    let mut keys = RdictItems::new(Yield::Keys, true, None).unwrap();
    assert_eq!(
        keys.step(Some((vec![1], vec![0xee]))),
        WalkStep::Entry { key: Some(vec![1]), value: None, then: CursorCall::Prev }
    );
    assert!(!keys.finished);
    assert_eq!(keys.step(None), WalkStep::Done);
    assert!(keys.finished);
}

#[test]
fn a_cursor_keeps_the_options_it_was_opened_with() {
    let reg = open_store(None);
    let view = reg.default_view();
    let mut opts = ReadOptionsPy::default();
    opts.set_tailing(true);
    let cursor = reg.iter(&view, &opts).unwrap();
    opts.set_tailing(false);
    assert!(cursor.read_opt.tailing);
    assert_eq!(cursor.partition, None);
}

#[test]
fn write_options_setters() {
    let mut w = WriteOptionsPy::new();
    assert_eq!(
        w,
        WriteOptionsPy {
            sync: false,
            disable_wal: false,
            ignore_missing_column_families: false,
            no_slowdown: false,
            low_pri: false,
            memtable_insert_hint_per_batch: false,
        }
    );
    w.set_sync(true);
    w.disable_wal(true);
    w.set_ignore_missing_column_families(true);
    w.set_no_slowdown(true);
    w.set_low_pri(true);
    w.set_memtable_insert_hint_per_batch(true);
    assert_eq!(
        w,
        WriteOptionsPy {
            sync: true,
            disable_wal: true,
            ignore_missing_column_families: true,
            no_slowdown: true,
            low_pri: true,
            memtable_insert_hint_per_batch: true,
        }
    );
    let mut f = FlushOptionsPy::new();
    assert!(f.wait);
    f.set_wait(false);
    assert!(!f.wait);
}

#[test]
fn read_options_setters() {
    let mut r = ReadOptionsPy::default();
    assert!(r.fill_cache && r.verify_checksums && !r.tailing && !r.pin_data);
    assert_eq!(r.iterate_upper_bound, None);
    assert_eq!(r.readahead_size, 0);
    r.fill_cache(false);
    r.set_prefix_same_as_start(true);
    r.set_total_order_seek(true);
    r.set_max_skippable_internal_keys(9);
    r.set_background_purge_on_interator_cleanup(true);
    r.set_ignore_range_deletions(true);
    r.set_verify_checksums(false);
    r.set_readahead_size(4_194_304);
    r.set_tailing(true);
    r.set_pin_data(true);
    assert_eq!(r.set_iterate_upper_bound(&TypedValue::Signed(5)), Ok(()));
    assert_eq!(r.set_iterate_lower_bound(&TypedValue::Signed(-5)), Ok(()));
    assert_eq!(r.set_iterate_lower_bound(&TypedValue::Opaque(vec![1])), Err(StoreError::UnsupportedKeyType));
    assert_eq!(
        r,
        ReadOptionsPy {
            fill_cache: false,
            iterate_upper_bound: Some(vec![0x80, 0, 0, 0, 0, 0, 0, 5]),
            iterate_lower_bound: Some(vec![0x7f, 0xff, 0xff, 0xff, 0xff, 0xff, 0xff, 0xfb]),
            prefix_same_as_start: true,
            total_order_seek: true,
            max_skippable_internal_keys: 9,
            background_purge_on_interator_cleanup: true,
            ignore_range_deletions: true,
            verify_checksums: false,
            readahead_size: 4_194_304,
            tailing: true,
            pin_data: true,
        }
    );
    assert_eq!(r.snapshot(), r);
}
