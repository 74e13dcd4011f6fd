use rocksdb::batch::BatchOp;
use rocksdb::c_string::is_c_string;
use rocksdb::cf_map::CfMap;
use rocksdb::error::{error_message, status, text_of};
use rocksdb::property::parse_decimal;
use rocksdb::{
    Call, DBCFHandle, DBIterator, DBVector, Fetched, Handle, OpenCall, Options, ReadOptions,
    SeekKey, Snapshot, UnsafeSnap, Writable, WriteBatch, WriteOptions, DB,
};

fn handle(addr: usize) -> Handle {
    Handle::new(addr).unwrap()
}

fn cf(addr: usize) -> DBCFHandle {
    DBCFHandle::new(addr).unwrap()
}

fn opts() -> Options {
    Options::new(handle(0x10))
}

fn call_for<'a>(path: &'a str, cfs: &[&'a str]) -> OpenCall<'a> {
    let o = opts();
    let each: Vec<&Options> = cfs.iter().map(|_| &o).collect();
    DB::open_cf(&o, path, cfs, &each).unwrap().directory_made(Ok(())).unwrap()
}

fn open_db(path: &str) -> DB {
    let call = call_for(path, &[]);
    DB::opened(&call, None, 0x100, &[0x200]).unwrap()
}

#[test]
fn a_null_address_makes_no_handle() {
    assert!(Handle::new(0).is_none());
    assert!(DBCFHandle::new(0).is_none());
    assert_eq!(Handle::new(0x40).unwrap().addr(), 0x40);
    assert_eq!(DBCFHandle::new(usize::MAX).unwrap().addr(), usize::MAX);
    assert_eq!(handle(8), handle(8));
    assert_ne!(cf(8), cf(16));
}

#[test]
fn a_value_is_text_when_it_is_utf8() {
    assert_eq!(DBVector::from_c(b"v1111".to_vec()).to_utf8(), Some("v1111"));
    assert_eq!(DBVector::from_c(Vec::new()).to_utf8(), Some(""));
    assert_eq!(DBVector::from_c("gr\u{fc}n \u{20ac}".as_bytes().to_vec()).to_utf8(), Some("gr\u{fc}n \u{20ac}"));
    assert_eq!(DBVector::from_c(vec![0x76, 0xff]).to_utf8(), None);
    assert_eq!(DBVector::from_c(vec![0xc3]).to_utf8(), None);
    assert_eq!(DBVector::from_c(vec![0xed, 0xa0, 0x80]).to_utf8(), None);
    assert_eq!(DBVector::from_c(vec![0xc0, 0x80]).to_utf8(), None);
    let v = DBVector::from_c(vec![1, 2, 3]);
    assert_eq!(v.as_bytes(), &[1, 2, 3]);
    assert_eq!(v.len(), 3);
    assert_eq!(text_of(b"abc"), Some("abc"));
    assert_eq!(text_of(&[0x80]), None);
}

#[test]
fn the_engine_message_becomes_the_error() {
    assert_eq!(status(None), Ok(()));
    assert_eq!(
        status(Some(b"IO error: lock /tmp/x/LOCK: No locks available")),
        Err("IO error: lock /tmp/x/LOCK: No locks available".to_string())
    );
    assert_eq!(status(Some(b"")), Err(String::new()));
    assert_eq!(error_message("Corruption: \u{2713}".as_bytes()), "Corruption: \u{2713}");
}

#[test]
fn a_decimal_text_is_a_number() {
    assert_eq!(parse_decimal(b"0"), Some(0));
    assert_eq!(parse_decimal(b"7"), Some(7));
    assert_eq!(parse_decimal(b"007"), Some(7));
    assert_eq!(parse_decimal(b"+5"), Some(5));
    assert_eq!(parse_decimal(b"1234567890"), Some(1234567890));
    assert_eq!(parse_decimal(b"18446744073709551615"), Some(u64::MAX));
    assert_eq!(parse_decimal(b"18446744073709551616"), None);
    assert_eq!(parse_decimal(b"99999999999999999999"), None);
    assert_eq!(parse_decimal(b"000018446744073709551615"), Some(u64::MAX));
    assert_eq!(parse_decimal(b""), None);
    assert_eq!(parse_decimal(b"+"), None);
    assert_eq!(parse_decimal(b"-"), None);
    assert_eq!(parse_decimal(b"-1"), None);
    assert_eq!(parse_decimal(b"++1"), None);
    assert_eq!(parse_decimal(b"1+"), None);
    assert_eq!(parse_decimal(b"12a"), None);
    assert_eq!(parse_decimal(b" 1"), None);
    assert_eq!(parse_decimal(b"1 "), None);
    assert_eq!(parse_decimal(b"1_000"), None);
    assert_eq!(parse_decimal(b"0x10"), None);
    assert_eq!(parse_decimal(b"/"), None);
    assert_eq!(parse_decimal(b":"), None);
}

#[test]
fn a_decimal_text_is_read_as_the_standard_library_reads_it() {
    let texts = [
        "", "0", "+0", "-0", "+", "-", "1", "+1", "-1", "42", "0042", "4 2", "١٢٣", "1e3",
        "18446744073709551615", "18446744073709551616", "+18446744073709551615",
        "184467440737095516150", "28446744073709551615", "1.0", "abc", "9", "09", "\u{ff11}",
    ];
    for text in texts {
        assert_eq!(parse_decimal(text.as_bytes()), text.parse::<u64>().ok(), "{:?}", text);
    }
    assert_eq!(DB::property_int(None), None);
    assert_eq!(DB::property_int(Some(b"8192")), Some(8192));
    assert_eq!(DB::property_value(Some(b"8192")), Some("8192".to_string()));
    assert_eq!(DB::property_int(Some(b"8192 bytes")), None);
    assert_eq!(DB::property_value(Some(b"8192 bytes")), Some("8192 bytes".to_string()));
    assert_eq!(DB::property_value(None), None);
}

#[test]
fn text_with_a_zero_byte_is_no_c_string() {
    assert!(is_c_string(""));
    assert!(is_c_string("/tmp/db"));
    assert!(is_c_string("d\u{e9}j\u{e0}"));
    assert!(!is_c_string("\0"));
    assert!(!is_c_string("/tmp/\0db"));
    assert!(!is_c_string("db\0"));
}

#[test]
fn a_path_with_a_zero_byte_is_refused() {
    let o = opts();
    let r = DB::open_cf(&o, "bad\0path", &[], &[]);
    assert_eq!(r.unwrap_err(), "Failed to convert path to CString when opening rocksdb");
    let r = DB::open(&o, "\0");
    assert_eq!(r.unwrap_err(), "Failed to convert path to CString when opening rocksdb");
    let r = DB::open_default(&o, "a\0");
    assert_eq!(r.unwrap_err(), "Failed to convert path to CString when opening rocksdb");
    assert!(DB::open(&o, "good").is_ok());
}

#[test]
fn a_directory_that_cannot_be_made_ends_the_opening() {
    let o = opts();
    let opening = DB::open_cf(&o, "/proc/nope", &["a"], &[]).unwrap();
    let r = opening.directory_made(Err("Os { code: 13, kind: PermissionDenied }".to_string()));
    assert_eq!(
        r.unwrap_err(),
        "Failed to create rocksdb directory: Os { code: 13, kind: PermissionDenied }"
    );
}

#[test]
fn names_and_options_have_to_be_equally_many() {
    let o = opts();
    let r = DB::open_cf(&o, "p", &["a", "b"], &[&o]).unwrap().directory_made(Ok(()));
    assert_eq!(r.unwrap_err(), "cfs.len() and cf_opts.len() not match.");
    let r = DB::open_cf(&o, "p", &[], &[&o]).unwrap().directory_made(Ok(()));
    assert_eq!(r.unwrap_err(), "cfs.len() and cf_opts.len() not match.");
    let r = DB::open_cf(&o, "p", &["default"], &[]).unwrap().directory_made(Ok(()));
    assert_eq!(r.unwrap_err(), "cfs.len() and cf_opts.len() not match.");
}

#[test]
fn the_default_column_family_is_always_opened() {
    let db_opts = Options::new(handle(0x10));
    let a = Options::new(handle(0x20));
    let b = Options::new(handle(0x30));

    let call = DB::open(&db_opts, "p").unwrap().directory_made(Ok(())).unwrap();
    assert_eq!(call.names(), &["default"]);
    assert_eq!(call.cf_opts().len(), 1);
    assert_eq!(call.cf_opts()[0].inner, handle(0x10));
    assert_eq!(call.count(), 1);
    assert_eq!(call.path(), "p");
    assert_eq!(call.opts().inner, handle(0x10));
    assert!(!call.create_if_missing());
    let call = DB::open_default(&db_opts, "p").unwrap().directory_made(Ok(())).unwrap();
    assert!(call.create_if_missing());
    assert_eq!(call.names(), &["default"]);
    assert_eq!(call.cf_opts()[0].inner, handle(0x10));

    let call = DB::open_cf(&db_opts, "p", &["a", "b"], &[&a, &b])
        .unwrap()
        .directory_made(Ok(()))
        .unwrap();
    assert_eq!(call.names(), &["a", "b", "default"]);
    let got: Vec<Handle> = call.cf_opts().iter().map(|o| o.inner).collect();
    assert_eq!(got, vec![handle(0x20), handle(0x30), handle(0x10)]);
    assert_eq!(call.count(), 3);

    let call = DB::open_cf(&db_opts, "p", &["a", "default", "b"], &[&a, &b, &a])
        .unwrap()
        .directory_made(Ok(()))
        .unwrap();
    assert_eq!(call.names(), &["a", "default", "b"]);
    let got: Vec<Handle> = call.cf_opts().iter().map(|o| o.inner).collect();
    assert_eq!(got, vec![handle(0x20), handle(0x30), handle(0x20)]);

    let call = DB::open_cf(&db_opts, "p", &["Default"], &[&a])
        .unwrap()
        .directory_made(Ok(()))
        .unwrap();
    assert_eq!(call.names(), &["Default", "default"]);
}

#[test]
fn the_answer_to_opening_is_checked_in_order() {
    let call = call_for("some/path", &["b", "a"]);
    assert_eq!(call.names(), &["b", "a", "default"]);

    let r = DB::opened(&call, Some(b"Invalid argument: no such family"), 0, &[0, 0, 0]);
    assert_eq!(r.unwrap_err(), "Invalid argument: no such family");
    let r = DB::opened(&call, Some(b"oops"), 0x100, &[1, 2, 3]);
    assert_eq!(r.unwrap_err(), "oops");

    let r = DB::opened(&call, None, 0x100, &[1, 0, 3]);
    assert_eq!(r.unwrap_err(), "Received null column family handle from DB.");
    let r = DB::opened(&call, None, 0, &[1, 2, 0]);
    assert_eq!(r.unwrap_err(), "Received null column family handle from DB.");

    let r = DB::opened(&call, None, 0, &[1, 2, 3]);
    assert_eq!(r.unwrap_err(), "Could not initialize database.");

    let db = DB::opened(&call, None, 0x100, &[1, 2, 3]).unwrap();
    assert_eq!(db.path(), "some/path");
    assert_eq!(db.inner(), handle(0x100));
    assert_eq!(db.cf_names(), vec!["a", "b", "default"]);
    assert_eq!(db.cf_handle("a"), Some(&cf(2)));
    assert_eq!(db.cf_handle("b"), Some(&cf(1)));
    assert_eq!(db.cf_handle("default"), Some(&cf(3)));
    assert_eq!(db.cf_handle("c"), None);
    assert_eq!(db.cf_handle(""), None);
}

#[test]
fn of_a_name_opened_twice_the_later_handle_counts() {
    let call = call_for("p", &["x", "default", "x"]);
    let db = DB::opened(&call, None, 0x100, &[1, 2, 3]).unwrap();
    assert_eq!(db.cf_names(), vec!["default", "x"]);
    assert_eq!(db.cf_handle("x"), Some(&cf(3)));
    assert_eq!(db.cf_handle("default"), Some(&cf(2)));
}

#[test]
fn column_families_are_kept_by_name_in_byte_order() {
    let mut map = CfMap::new();
    assert_eq!(map.len(), 0);
    assert!(map.get("default").is_none());
    map.insert("m".to_string(), cf(1));
    map.insert("z".to_string(), cf(2));
    map.insert("a".to_string(), cf(3));
    map.insert("\u{e9}".to_string(), cf(4));
    map.insert("Z".to_string(), cf(5));
    map.insert("".to_string(), cf(6));
    map.insert("ma".to_string(), cf(7));
    assert_eq!(map.names_vec(), vec!["", "Z", "a", "m", "ma", "z", "\u{e9}"]);
    assert_eq!(map.handles_vec(), vec![cf(6), cf(5), cf(3), cf(1), cf(7), cf(2), cf(4)]);
    assert_eq!(map.len(), 7);
    map.insert("m".to_string(), cf(8));
    assert_eq!(map.len(), 7);
    assert_eq!(map.get("m"), Some(&cf(8)));
    assert_eq!(map.get("ma"), Some(&cf(7)));
    assert_eq!(map.get("\u{e9}"), Some(&cf(4)));
    assert_eq!(map.get("e"), None);
    assert_eq!(map.get(""), Some(&cf(6)));
}

#[test]
fn a_column_family_joins_only_when_it_was_made() {
    let mut db = open_db("p");
    let o = opts();
    let r = db.create_cf("bad\0name", &o);
    assert_eq!(r.unwrap_err(), "Failed to convert path to CString when opening rocksdb");
    match db.create_cf("new", &o).unwrap() {
        Call::CreateColumnFamily { db: d, opts: given, name } => {
            assert_eq!(d, handle(0x100));
            assert_eq!(given.inner, handle(0x10));
            assert_eq!(name, "new");
        }
        other => panic!("{:?}", other),
    }
    let r = db.cf_created("new", Some(b"Invalid argument: Column family already exists"), 0x300);
    assert_eq!(r.unwrap_err(), "Invalid argument: Column family already exists");
    assert_eq!(db.cf_names(), vec!["default"]);
    let r = db.cf_created("new", None, 0);
    assert_eq!(r.unwrap_err(), "Received null column family handle from DB.");
    assert_eq!(db.cf_names(), vec!["default"]);
    let r = db.cf_created("new", None, 0x300);
    assert_eq!(r, Ok(cf(0x300)));
    assert_eq!(db.cf_names(), vec!["default", "new"]);
    assert_eq!(db.cf_handle("new"), Some(&cf(0x300)));
    assert_eq!(db.cf_handle("default"), Some(&cf(0x200)));
    assert_eq!(db.path(), "p");
}

#[test]
fn an_unknown_column_family_cannot_be_dropped() {
    let mut db = open_db("p");
    db.cf_created("new", None, 0x300).unwrap();
    let r = db.drop_cf("nope");
    assert_eq!(r.unwrap_err(), "Invalid column family: nope");
    match db.drop_cf("new").unwrap() {
        Call::DropColumnFamily { db: d, handle: h } => {
            assert_eq!(d, handle(0x100));
            assert_eq!(h, cf(0x300));
        }
        other => panic!("{:?}", other),
    }
    assert_eq!(db.cf_names(), vec!["default", "new"]);
}

#[test]
fn closing_gives_the_column_families_back_first() {
    let call = call_for("p", &["b", "a"]);
    let db = DB::opened(&call, None, 0x100, &[0x201, 0x202, 0x203]).unwrap();
    let calls = db.close();
    assert_eq!(calls.len(), 4);
    let mut given_back = Vec::new();
    for c in &calls[..3] {
        match c {
            Call::ColumnFamilyHandleDestroy { handle } => given_back.push(handle.addr()),
            other => panic!("{:?}", other),
        }
    }
    assert_eq!(given_back, vec![0x202, 0x201, 0x203]);
    assert!(matches!(calls[3], Call::Close { db } if db == handle(0x100)));
}

#[test]
fn a_point_read_looks_at_the_error_first() {
    let r = DB::fetched(Fetched::NoReadOptions);
    assert_eq!(
        r.unwrap_err(),
        "Unable to create rocksdb read options.  This is a fairly trivial call, and its failure \
         may be indicative of a mis-compiled or mis-loaded rocksdb library."
    );
    let r = DB::fetched(Fetched::Answer { err: Some(b"Corruption: bad block"), value: None });
    assert_eq!(r.unwrap_err(), "Corruption: bad block");
    let r = DB::fetched(Fetched::Answer { err: Some(b"late"), value: Some(b"v".to_vec()) });
    assert_eq!(r.unwrap_err(), "late");
    let r = DB::fetched(Fetched::Answer { err: None, value: None });
    assert!(r.unwrap().is_none());
    let r = DB::fetched(Fetched::Answer { err: None, value: Some(b"v1111".to_vec()) });
    assert_eq!(r.unwrap().unwrap().as_bytes(), b"v1111");
    let r = DB::fetched(Fetched::Answer { err: None, value: Some(Vec::new()) });
    assert_eq!(r.unwrap().unwrap().len(), 0);
}

#[test]
fn the_writes_of_a_database_name_their_routine() {
    let db = open_db("p");
    let mut wo = WriteOptions::new();
    wo.set_sync(true);
    match db.put_opt(b"k", b"v", &wo) {
        Call::Put { db: d, writeopts, cf: None, key, value } => {
            assert_eq!(d, handle(0x100));
            assert_eq!(writeopts.sync, Some(true));
            assert_eq!(writeopts.disable_wal, None);
            assert_eq!((key, value), (&b"k"[..], &b"v"[..]));
        }
        other => panic!("{:?}", other),
    }
    assert!(matches!(db.put(b"k", b"v"),
        Call::Put { cf: None, key: b"k", value: b"v", writeopts, .. }
            if writeopts.sync.is_none() && writeopts.disable_wal.is_none()));
    assert!(matches!(db.put_cf(cf(9), b"k", b"v"),
        Call::Put { cf: Some(c), key: b"k", value: b"v", .. } if c == cf(9)));
    assert!(matches!(db.put_cf_opt(cf(9), b"k", b"v", &wo),
        Call::Put { cf: Some(c), writeopts, .. } if c == cf(9) && writeopts.sync == Some(true)));
    assert!(matches!(db.merge(b"k", b"v"), Call::Merge { cf: None, key: b"k", value: b"v", .. }));
    assert!(matches!(db.merge_opt(b"k", b"v", &wo),
        Call::Merge { cf: None, writeopts, .. } if writeopts.sync == Some(true)));
    assert!(matches!(db.merge_cf(cf(9), b"k", b"v"),
        Call::Merge { cf: Some(c), key: b"k", value: b"v", .. } if c == cf(9)));
    assert!(matches!(db.merge_cf_opt(cf(9), b"k", b"v", &wo),
        Call::Merge { cf: Some(c), writeopts, .. } if c == cf(9) && writeopts.sync == Some(true)));
    assert!(matches!(db.delete(b"k"), Call::Delete { cf: None, key: b"k", .. }));
    assert!(matches!(db.delete_opt(b"k", &wo),
        Call::Delete { cf: None, writeopts, .. } if writeopts.sync == Some(true)));
    assert!(matches!(db.delete_cf(cf(9), b"k"),
        Call::Delete { cf: Some(c), key: b"k", .. } if c == cf(9)));
    assert!(matches!(db.delete_cf_opt(cf(9), b"k", &wo),
        Call::Delete { cf: Some(c), writeopts, .. } if c == cf(9) && writeopts.sync == Some(true)));
    assert!(matches!(db.flush(true), Call::Flush { wait: true, .. }));
    assert!(matches!(db.flush(false), Call::Flush { wait: false, .. }));
    assert!(matches!(db.delete_file_in_range(b"a", b"b"),
        Call::DeleteFileInRange { cf: None, start_key: b"a", end_key: b"b", .. }));
    assert!(matches!(db.delete_file_in_range_cf(cf(9), b"a", b"b"),
        Call::DeleteFileInRange { cf: Some(c), start_key: b"a", end_key: b"b", .. } if c == cf(9)));
    assert!(matches!(db.get_property_value_cf(cf(9), "rocksdb.stats"),
        Call::PropertyValue { cf: Some(c), name: "rocksdb.stats", .. } if c == cf(9)));
    assert!(matches!(db.get_property_int_cf(cf(9), "rocksdb.stats"),
        Call::PropertyValue { cf: Some(c), name: "rocksdb.stats", .. } if c == cf(9)));
    assert!(matches!(DB::repair(opts(), "p"), Call::RepairDb { path: "p", .. }));
    assert!(matches!(DB::destroy(&opts(), "p"), Call::DestroyDb { path: "p", .. }));
}

#[test]
fn a_batch_is_committed_with_or_without_the_log() {
    let db = open_db("p");
    let mut batch = WriteBatch::new();
    batch.put(b"k1", b"v1111").unwrap();
    match db.write_without_wal(batch) {
        Call::Write { db: d, writeopts, batch } => {
            assert_eq!(d, handle(0x100));
            assert_eq!(writeopts.disable_wal, Some(true));
            assert_eq!(writeopts.sync, None);
            assert_eq!(batch.count(), 1);
        }
        other => panic!("{:?}", other),
    }
    match db.write(WriteBatch::new()) {
        Call::Write { writeopts, batch, .. } => {
            assert_eq!(writeopts.disable_wal, None);
            assert!(batch.is_empty());
        }
        other => panic!("{:?}", other),
    }
    let mut wo = WriteOptions::new();
    wo.disable_wal(false);
    match db.write_opt(WriteBatch::default(), &wo) {
        Call::Write { writeopts, .. } => assert_eq!(writeopts.disable_wal, Some(false)),
        other => panic!("{:?}", other),
    }
}

#[test]
fn a_batch_keeps_its_writes_in_order() {
    let mut batch = WriteBatch::new();
    assert_eq!(batch.count(), 0);
    assert!(batch.is_empty());
    assert!(batch.put(b"k1", b"v1").is_ok());
    assert!(batch.put_cf(cf(7), b"k2", b"v2").is_ok());
    assert!(batch.merge(b"k3", b"v3").is_ok());
    assert!(batch.merge_cf(cf(7), b"k4", b"v4").is_ok());
    assert!(batch.delete(b"k5").is_ok());
    assert!(batch.delete_cf(cf(7), b"k6").is_ok());
    assert!(batch.put(b"k1", b"again").is_ok());
    assert_eq!(batch.count(), 7);
    assert!(!batch.is_empty());
    let ops = batch.ops();
    assert!(matches!(&ops[0], BatchOp::Put { cf: None, key, value } if key == b"k1" && value == b"v1"));
    assert!(matches!(&ops[1], BatchOp::Put { cf: Some(c), key, value }
        if *c == cf(7) && key == b"k2" && value == b"v2"));
    assert!(matches!(&ops[2], BatchOp::Merge { cf: None, key, value } if key == b"k3" && value == b"v3"));
    assert!(matches!(&ops[3], BatchOp::Merge { cf: Some(c), key, value }
        if *c == cf(7) && key == b"k4" && value == b"v4"));
    assert!(matches!(&ops[4], BatchOp::Delete { cf: None, key } if key == b"k5"));
    assert!(matches!(&ops[5], BatchOp::Delete { cf: Some(c), key } if *c == cf(7) && key == b"k6"));
    assert!(matches!(&ops[6], BatchOp::Put { cf: None, key, value } if key == b"k1" && value == b"again"));
    for n in 0..50usize {
        let mut batch = WriteBatch::new();
        for i in 0..n {
            batch.put(&[i as u8], b"").unwrap();
        }
        assert_eq!(batch.count(), n);
        assert_eq!(batch.is_empty(), n == 0);
    }
}

#[test]
fn read_options_keep_what_was_set() {
    let mut ro = ReadOptions::new();
    assert_eq!(ro.fill_cache, None);
    assert!(ro.snapshot.is_none());
    ro.fill_cache(false);
    assert_eq!(ro.fill_cache, Some(false));
    ro.set_snapshot(&UnsafeSnap::new(handle(0x500)));
    assert_eq!(ro.snapshot, Some(handle(0x500)));
    assert_eq!(ro.fill_cache, Some(false));
    ro.fill_cache(true);
    assert_eq!(ro.fill_cache, Some(true));
    assert_eq!(ro.snapshot, Some(handle(0x500)));
    let db = open_db("p");
    assert!(matches!(db.get_opt(b"k", &ro),
        Call::Get { readopts, cf: None, key: b"k", .. }
            if readopts.fill_cache == Some(true) && readopts.snapshot == Some(handle(0x500))));
    assert!(matches!(db.get_cf_opt(cf(9), b"k", &ro),
        Call::Get { readopts, cf: Some(c), key: b"k", .. }
            if c == cf(9) && readopts.snapshot == Some(handle(0x500))));
    assert!(matches!(db.get(b"k"),
        Call::Get { readopts, cf: None, .. } if readopts.snapshot.is_none()));
    assert!(matches!(db.iter_opt(&ro),
        Call::CreateIterator { readopts, cf: None, .. } if readopts.snapshot == Some(handle(0x500))));
    assert!(matches!(db.iter_cf(cf(9)),
        Call::CreateIterator { readopts, cf: Some(c), .. } if c == cf(9) && readopts.snapshot.is_none()));
    assert!(matches!(DBIterator::new(&db, &ro),
        Call::CreateIterator { readopts, cf: None, .. } if readopts.fill_cache == Some(true)));
    assert!(matches!(DBIterator::new_cf(&db, cf(9), &ro),
        Call::CreateIterator { cf: Some(c), .. } if c == cf(9)));
}

#[test]
fn every_read_through_a_snapshot_is_bound_to_it() {
    let db = open_db("p");
    assert!(Snapshot::taken(&db, 0).is_none());
    assert!(matches!(Snapshot::new(&db), Call::CreateSnapshot { db: d } if d == handle(0x100)));
    assert!(matches!(db.unsafe_snap(), Call::CreateSnapshot { db: d } if d == handle(0x100)));
    let snap = Snapshot::taken(&db, 0x500).unwrap();
    assert!(matches!(snap.get(b"k1"),
        Call::Get { db: d, readopts, cf: None, key: b"k1" }
            if d == handle(0x100) && readopts.snapshot == Some(handle(0x500))));
    assert!(matches!(snap.get_cf(cf(9), b"k1"),
        Call::Get { readopts, cf: Some(c), .. }
            if c == cf(9) && readopts.snapshot == Some(handle(0x500))));
    assert!(matches!(snap.iter(),
        Call::CreateIterator { readopts, cf: None, .. }
            if readopts.snapshot == Some(handle(0x500)) && readopts.fill_cache.is_none()));
    let mut ro = ReadOptions::new();
    ro.fill_cache(false);
    ro.set_snapshot(&UnsafeSnap::new(handle(0x600)));
    assert!(matches!(snap.iter_opt(ro),
        Call::CreateIterator { readopts, .. }
            if readopts.snapshot == Some(handle(0x500)) && readopts.fill_cache == Some(false)));
    assert!(matches!(db.release_snap(&UnsafeSnap::new(handle(0x500))),
        Call::ReleaseSnapshot { db: d, snap: s } if d == handle(0x100) && s == handle(0x500)));
    assert!(matches!(snap.release(),
        Call::ReleaseSnapshot { db: d, snap: s } if d == handle(0x100) && s == handle(0x500)));
}

#[test]
fn an_iterator_stands_where_the_engine_put_it() {
    let db = open_db("p");
    assert!(DBIterator::created(&db, 0).is_none());
    let mut it = DBIterator::created(&db, 0x700).unwrap();
    assert!(!it.valid());
    assert!(it.kv().is_none());
    assert!(it.pull().is_none());
    assert!(matches!(it.seek(SeekKey::Start), Call::IterSeekToFirst { iter } if iter == handle(0x700)));
    assert!(matches!(it.seek(SeekKey::End), Call::IterSeekToLast { iter } if iter == handle(0x700)));
    assert!(matches!(it.seek(SeekKey::Key(b"k2")),
        Call::IterSeek { iter, key: b"k2" } if iter == handle(0x700)));
    assert!(matches!(it.seek(b"k2"[..].into()), Call::IterSeek { key: b"k2", .. }));
    assert!(it.landed(Some((b"k2".to_vec(), b"v2222".to_vec()))));
    assert!(it.valid());
    assert_eq!(it.key(), b"k2");
    assert_eq!(it.value(), b"v2222");
    assert_eq!(it.kv(), Some((b"k2".to_vec(), b"v2222".to_vec())));
    assert!(matches!(it.next(), Call::IterNext { iter } if iter == handle(0x700)));
    assert!(!it.valid());
    assert!(it.landed(Some((b"k3".to_vec(), b"v3333".to_vec()))));
    let (kv, call) = it.pull().unwrap();
    assert_eq!(kv, (b"k3".to_vec(), b"v3333".to_vec()));
    assert!(matches!(call, Call::IterNext { iter } if iter == handle(0x700)));
    assert!(!it.valid());
    assert!(!it.landed(None));
    assert!(it.pull().is_none());
    assert!(matches!(it.prev(), Call::IterPrev { iter } if iter == handle(0x700)));
    assert!(matches!(it.destroy(), Call::IterDestroy { iter } if iter == handle(0x700)));
}
