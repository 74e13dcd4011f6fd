//! The database: its column families, the calls that its operations make,
//! and what their answers mean.

use vstd::prelude::*;
use vstd::string::*;
use vstd::utf8::*;
use crate::batch::WriteBatch;
use crate::c_string::{is_c_string, zero_free};
use crate::call::Call;
use crate::cf_map::{ascending, CfMap};
use crate::error::{
    error_message, invalid_cf, no_database, no_read_options, null_cf_handle, path_not_c_string,
};
use crate::handle::{DBCFHandle, Handle};
use crate::open::{all_c_strings, default_name, texts, OpenCall, Opening};
use crate::options::{Options, ReadOptions, UnsafeSnap, WriteOptions};
use crate::property::{decimal, parse_decimal};
use crate::range::{marshal, Range};
use crate::vector::DBVector;

verus! {

/// The column families of a database that was opened with `names`, when the
/// engine answered with the addresses `addrs`: the first `n` names, each with
/// the handle at its place. Of a name that stands twice the later place
/// counts.
pub open spec fn opened_cfs(names: Seq<Seq<char>>, addrs: Seq<usize>, n: int) -> Map<
    Seq<char>,
    DBCFHandle,
>
    decreases n,
{
    if n <= 0 {
        Map::empty()
    } else {
        opened_cfs(names, addrs, n - 1).insert(names[n - 1], DBCFHandle::at(addrs[n - 1]))
    }
}

/// Every name that was opened is a column family of the database.
pub proof fn lemma_opened_has(names: Seq<Seq<char>>, addrs: Seq<usize>, n: int, i: int)
    requires
        0 <= i < n,
    ensures
        opened_cfs(names, addrs, n).contains_key(names[i]),
    decreases n,
{
    if i < n - 1 {
        lemma_opened_has(names, addrs, n - 1, i);
    }
}

/// What a point read brought back.
#[derive(Debug)]
pub enum Fetched<'a> {
    /// The engine could not make read options, and was not asked for the key.
    NoReadOptions,
    /// The engine was asked: `err` is the message it left, if any, and
    /// `value` what it found under the key, if anything.
    Answer { err: Option<&'a [u8]>, value: Option<Vec<u8>> },
}

/// What a point read returns for what it brought back: the error comes
/// first, then the value.
pub open spec fn fetched_result(reply: Fetched<'_>) -> Result<Option<Seq<u8>>, Seq<char>> {
    match reply {
        Fetched::NoReadOptions => Err(no_read_options()),
        Fetched::Answer { err: Some(m), value } => Err(decode_utf8(m@)),
        Fetched::Answer { err: None, value: Some(v) } => Ok(Some(v@)),
        Fetched::Answer { err: None, value: None } => Ok(None),
    }
}

/// The text of a property, from the bytes that the engine returned for it.
pub open spec fn property_text(value: Option<&[u8]>) -> Option<Seq<char>> {
    match value {
        Some(bytes) => Some(decode_utf8(bytes@)),
        None => None,
    }
}

/// The number of a property: what its text writes in decimal.
pub open spec fn property_number(value: Option<&[u8]>) -> Option<u64> {
    match property_text(value) {
        Some(text) => decimal(encode_utf8(text)),
        None => None,
    }
}

/// An open database: the engine's handle for it, its column families by
/// name, and the path it lies at.
#[derive(Debug)]
pub struct DB {
    inner: Handle,
    cfs: CfMap,
    path: String,
}

impl DB {
    /// The database is in order: its column families are, and the default
    /// one is among them.
    pub closed spec fn wf(self) -> bool {
        &&& self.cfs.wf()
        &&& self.cfs@.contains_key(default_name())
    }

    /// The engine's handle for the database.
    pub closed spec fn spec_inner(self) -> Handle {
        self.inner
    }

    /// The column families, by name.
    pub closed spec fn spec_cfs(self) -> Map<Seq<char>, DBCFHandle> {
        self.cfs@
    }

    /// The names of the column families, ascending by their bytes.
    pub closed spec fn spec_cf_names(self) -> Seq<Seq<char>> {
        self.cfs.names()
    }

    /// The handles of the column families, in the order of their names.
    pub closed spec fn spec_cf_handles(self) -> Seq<DBCFHandle> {
        self.cfs.handles()
    }

    /// The path that the database lies at.
    pub closed spec fn spec_path(self) -> Seq<char> {
        self.path@
    }

    /// A database in order has the default column family, and lists its
    /// column families as its map holds them.
    pub proof fn lemma_wf(self)
        requires
            self.wf(),
        ensures
            self.spec_cfs().contains_key(default_name()),
            self.spec_cf_names().contains(default_name()),
            ascending(self.spec_cf_names()),
            self.spec_cf_handles().len() == self.spec_cf_names().len(),
            forall|name: Seq<char>|
                self.spec_cfs().contains_key(name) <==> self.spec_cf_names().contains(name),
            forall|i: int|
                0 <= i < self.spec_cf_names().len() ==> self.spec_cfs()[#[trigger] self.spec_cf_names()[i]]
                    == self.spec_cf_handles()[i],
    {
        self.cfs.lemma_listed();
    }

    /// Begins to open the database at `path` with the column families `cfs`
    /// and their options `cf_opts`. The path has to be one that can go to the
    /// engine; the rest of the way is [`Opening::directory_made`] and then
    /// [`DB::opened`].
    pub fn open_cf<'a>(
        opts: &Options,
        path: &'a str,
        cfs: &[&'a str],
        cf_opts: &[&Options],
    ) -> (r: Result<Opening<'a>, String>)
        requires
            cfs@.len() < i32::MAX,
            all_c_strings(texts(cfs@)),
        ensures
            r.is_ok() <==> zero_free(encode_utf8(path@)),
            r matches Err(e) ==> e@ == path_not_c_string(),
            r matches Ok(o) ==> {
                &&& o.spec_opts() == *opts
                &&& !o.spec_create_if_missing()
                &&& o.spec_path() == path@
                &&& o.spec_cfs() == texts(cfs@)
                &&& o.spec_cf_opts() == cf_opts@.map_values(|o: &Options| *o)
            },
    {
        Opening::new(opts, false, path, cfs, cf_opts)
    }

    /// Begins to open the database at `path` with its default column family
    /// alone, and has it made where there is none yet: `opts` are options
    /// fresh from the engine, and the call that opens the database says that
    /// they are to create what is missing.
    pub fn open_default<'a>(opts: &Options, path: &'a str) -> (r: Result<Opening<'a>, String>)
        ensures
            r.is_ok() <==> zero_free(encode_utf8(path@)),
            r matches Err(e) ==> e@ == path_not_c_string(),
            r matches Ok(o) ==> {
                &&& o.spec_opts() == *opts
                &&& o.spec_create_if_missing()
                &&& o.spec_path() == path@
                &&& o.spec_cfs() == Seq::<Seq<char>>::empty()
                &&& o.spec_cf_opts() == Seq::<Options>::empty()
            },
    {
        let cfs: Vec<&'a str> = Vec::new();
        let cf_opts: Vec<&Options> = Vec::new();
        let r = Opening::new(opts, true, path, cfs.as_slice(), cf_opts.as_slice());
        proof {
            assert(texts(cfs@) =~= Seq::<Seq<char>>::empty());
            assert(cf_opts@.map_values(|o: &Options| *o) =~= Seq::<Options>::empty());
        }
        r
    }

    /// Begins to open the database at `path` with its default column family
    /// alone.
    pub fn open<'a>(opts: &Options, path: &'a str) -> (r: Result<Opening<'a>, String>)
        ensures
            r.is_ok() <==> zero_free(encode_utf8(path@)),
            r matches Err(e) ==> e@ == path_not_c_string(),
            r matches Ok(o) ==> {
                &&& o.spec_opts() == *opts
                &&& !o.spec_create_if_missing()
                &&& o.spec_path() == path@
                &&& o.spec_cfs() == Seq::<Seq<char>>::empty()
                &&& o.spec_cf_opts() == Seq::<Options>::empty()
            },
    {
        let cfs: Vec<&'a str> = Vec::new();
        let cf_opts: Vec<&Options> = Vec::new();
        let r = Opening::new(opts, false, path, cfs.as_slice(), cf_opts.as_slice());
        proof {
            assert(texts(cfs@) =~= Seq::<Seq<char>>::empty());
            assert(cf_opts@.map_values(|o: &Options| *o) =~= Seq::<Options>::empty());
        }
        r
    }

    /// The last step of opening a database: what the engine answered to
    /// `call`. `err` is the message it left, if any, `db` the address of the
    /// database and `handles` the addresses of the column families, one for
    /// each name of the call. The message is looked at first; then no column
    /// family may be null, and the database may not be.
    pub fn opened(call: &OpenCall<'_>, err: Option<&[u8]>, db: usize, handles: &[usize]) -> (r:
        Result<DB, String>)
        requires
            handles@.len() == call.spec_names().len(),
            err matches Some(m) ==> valid_utf8(m@),
        ensures
            match err {
                Some(m) => r matches Err(e) && e@ == decode_utf8(m@),
                None => if exists|i: int| 0 <= i < handles@.len() && handles@[i] == 0 {
                    r matches Err(e) && e@ == null_cf_handle()
                } else if db == 0 {
                    r matches Err(e) && e@ == no_database()
                } else {
                    r matches Ok(d) && {
                        &&& d.wf()
                        &&& d.spec_inner() == Handle::at(db)
                        &&& d.spec_path() == call.spec_path()
                        &&& d.spec_cfs() == opened_cfs(
                            call.spec_names(),
                            handles@,
                            handles@.len() as int,
                        )
                    }
                },
            },
    {
        if let Some(m) = err {
            return Err(error_message(m));
        }
        let mut i: usize = 0;
        while i < handles.len()
            invariant
                err.is_none(),
                i <= handles@.len(),
                forall|j: int| 0 <= j < i ==> handles@[j] != 0,
            decreases handles@.len() - i,
        {
            if handles[i] == 0 {
                return Err("Received null column family handle from DB.".to_owned());
            }
            i += 1;
        }
        let names = call.names();
        let ghost opened = call.spec_names();
        let mut cfs = CfMap::new();
        let mut i: usize = 0;
        while i < names.len()
            invariant
                i <= names@.len(),
                names@.len() == handles@.len(),
                texts(names@) == opened,
                forall|j: int| 0 <= j < handles@.len() ==> handles@[j] != 0,
                cfs.wf(),
                cfs@ == opened_cfs(opened, handles@, i as int),
            decreases names@.len() - i,
        {
            if let Some(handle) = DBCFHandle::new(handles[i]) {
                assert(opened[i as int] == names@[i as int]@);
                cfs.insert(String::from_str(names[i]), handle);
            }
            i += 1;
        }
        proof {
            let at = choose|k: int| 0 <= k < opened.len() && opened[k] == default_name();
            lemma_opened_has(opened, handles@, handles@.len() as int, at);
        }
        match Handle::new(db) {
            None => Err("Could not initialize database.".to_owned()),
            Some(inner) => Ok(DB { inner, cfs, path: String::from_str(call.path()) }),
        }
    }

    /// The call that destroys the database at `path`. What comes back goes
    /// to [`crate::error::status`].
    pub fn destroy<'a>(opts: &Options, path: &'a str) -> (r: Call<'a>)
        requires
            zero_free(encode_utf8(path@)),
        ensures
            r == (Call::DestroyDb { opts: *opts, path }),
    {
        Call::DestroyDb { opts: *opts, path }
    }

    /// The call that repairs the database at `path`. What comes back goes to
    /// [`crate::error::status`].
    pub fn repair<'a>(opts: Options, path: &'a str) -> (r: Call<'a>)
        requires
            zero_free(encode_utf8(path@)),
        ensures
            r == (Call::RepairDb { opts, path }),
    {
        Call::RepairDb { opts, path }
    }

    /// The path that the database lies at.
    pub fn path(&self) -> (r: &str)
        ensures
            r@ == self.spec_path(),
    {
        self.path.as_str()
    }

    /// The engine's handle for the database.
    pub fn inner(&self) -> (r: Handle)
        ensures
            r == self.spec_inner(),
    {
        self.inner
    }

    /// The call that commits `batch` with the write options `writeopts`. The
    /// batch is given away with it.
    pub fn write_opt(&self, batch: WriteBatch, writeopts: &WriteOptions) -> (r: Call<'static>)
        ensures
            r == (Call::Write { db: self.spec_inner(), writeopts: *writeopts, batch }),
    {
        Call::Write { db: self.inner, writeopts: *writeopts, batch }
    }

    /// The call that commits `batch` with the engine's own write options.
    pub fn write(&self, batch: WriteBatch) -> (r: Call<'static>)
        ensures
            r == (Call::Write {
                db: self.spec_inner(),
                writeopts: WriteOptions { disable_wal: None, sync: None },
                batch,
            }),
    {
        self.write_opt(batch, &WriteOptions::new())
    }

    /// The call that commits `batch` past the write-ahead log.
    pub fn write_without_wal(&self, batch: WriteBatch) -> (r: Call<'static>)
        ensures
            r == (Call::Write {
                db: self.spec_inner(),
                writeopts: WriteOptions { disable_wal: Some(true), sync: None },
                batch,
            }),
    {
        let mut wo = WriteOptions::new();
        wo.disable_wal(true);
        self.write_opt(batch, &wo)
    }

    /// The call that reads `key` in the default column family with the read
    /// options `readopts`. What comes back goes to [`DB::fetched`].
    pub fn get_opt<'a>(&self, key: &'a [u8], readopts: &ReadOptions) -> (r: Call<'a>)
        ensures
            r == (Call::Get { db: self.spec_inner(), readopts: *readopts, cf: None, key }),
    {
        Call::Get { db: self.inner, readopts: *readopts, cf: None, key }
    }

    /// The call that reads `key` in the default column family of the live
    /// database.
    pub fn get<'a>(&self, key: &'a [u8]) -> (r: Call<'a>)
        ensures
            r == (Call::Get {
                db: self.spec_inner(),
                readopts: ReadOptions { fill_cache: None, snapshot: None },
                cf: None,
                key,
            }),
    {
        self.get_opt(key, &ReadOptions::new())
    }

    /// The call that reads `key` in the column family `cf` with the read
    /// options `readopts`. What comes back goes to [`DB::fetched`].
    pub fn get_cf_opt<'a>(&self, cf: DBCFHandle, key: &'a [u8], readopts: &ReadOptions) -> (r:
        Call<'a>)
        ensures
            r == (Call::Get { db: self.spec_inner(), readopts: *readopts, cf: Some(cf), key }),
    {
        Call::Get { db: self.inner, readopts: *readopts, cf: Some(cf), key }
    }

    /// The call that reads `key` in the column family `cf` of the live
    /// database.
    pub fn get_cf<'a>(&self, cf: DBCFHandle, key: &'a [u8]) -> (r: Call<'a>)
        ensures
            r == (Call::Get {
                db: self.spec_inner(),
                readopts: ReadOptions { fill_cache: None, snapshot: None },
                cf: Some(cf),
                key,
            }),
    {
        self.get_cf_opt(cf, key, &ReadOptions::new())
    }

    /// What a point read returns: the engine's error if it left one, else
    /// the value under the key, or nothing where the key has none.
    pub fn fetched(reply: Fetched<'_>) -> (r: Result<Option<DBVector>, String>)
        requires
            reply matches Fetched::Answer { err: Some(m), .. } ==> valid_utf8(m@),
        ensures
            match fetched_result(reply) {
                Err(text) => r matches Err(e) && e@ == text,
                Ok(None) => r matches Ok(None),
                Ok(Some(bytes)) => r matches Ok(Some(v)) && v@ == bytes,
            },
    {
        match reply {
            Fetched::NoReadOptions => Err(
                "Unable to create rocksdb read options.  This is a fairly trivial call, and its failure may be indicative of a mis-compiled or mis-loaded rocksdb library.".to_owned(),
            ),
            Fetched::Answer { err: Some(m), value: _ } => Err(error_message(m)),
            Fetched::Answer { err: None, value: Some(v) } => Ok(Some(DBVector::from_c(v))),
            Fetched::Answer { err: None, value: None } => Ok(None),
        }
    }

    /// The call that makes the column family `name`, unless the name cannot
    /// go to the engine. What comes back goes to [`DB::cf_created`].
    pub fn create_cf<'a>(&self, name: &'a str, opts: &Options) -> (r: Result<Call<'a>, String>)
        ensures
            r.is_ok() <==> zero_free(encode_utf8(name@)),
            r matches Err(e) ==> e@ == path_not_c_string(),
            r matches Ok(call) ==> call == (Call::CreateColumnFamily {
                db: self.spec_inner(),
                opts: *opts,
                name,
            }),
    {
        if !is_c_string(name) {
            return Err("Failed to convert path to CString when opening rocksdb".to_owned());
        }
        Ok(Call::CreateColumnFamily { db: self.inner, opts: *opts, name })
    }

    /// What the engine answered when it was asked for the column family
    /// `name`: `err` is the message it left, if any, and `handle` the address
    /// it returned. The message is looked at first, and a null address is an
    /// error too; only a column family that was made joins the others.
    pub fn cf_created(&mut self, name: &str, err: Option<&[u8]>, handle: usize) -> (r: Result<
        DBCFHandle,
        String,
    >)
        requires
            old(self).wf(),
            err matches Some(m) ==> valid_utf8(m@),
        ensures
            final(self).wf(),
            final(self).spec_inner() == old(self).spec_inner(),
            final(self).spec_path() == old(self).spec_path(),
            match err {
                Some(m) => r matches Err(e) && e@ == decode_utf8(m@) && final(self).spec_cfs()
                    == old(self).spec_cfs(),
                None => if handle == 0 {
                    r matches Err(e) && e@ == null_cf_handle() && final(self).spec_cfs() == old(
                        self,
                    ).spec_cfs()
                } else {
                    r == Ok::<DBCFHandle, String>(DBCFHandle::at(handle)) && final(self).spec_cfs()
                        == old(self).spec_cfs().insert(name@, DBCFHandle::at(handle))
                },
            },
    {
        if let Some(m) = err {
            return Err(error_message(m));
        }
        match DBCFHandle::new(handle) {
            None => Err("Received null column family handle from DB.".to_owned()),
            Some(cf) => {
                self.cfs.insert(String::from_str(name), cf);
                Ok(cf)
            },
        }
    }

    /// The call that drops the column family `name`, unless the database has
    /// none of that name. What comes back goes to [`crate::error::status`].
    /// The handle stays with the database, which gives it back to the engine
    /// when it is closed.
    pub fn drop_cf(&mut self, name: &str) -> (r: Result<Call<'static>, String>)
        requires
            old(self).wf(),
        ensures
            *final(self) == *old(self),
            r.is_ok() <==> old(self).spec_cfs().contains_key(name@),
            r matches Err(e) ==> e@ == invalid_cf() + name@,
            r matches Ok(call) ==> call == (Call::DropColumnFamily {
                db: old(self).spec_inner(),
                handle: old(self).spec_cfs()[name@],
            }),
    {
        match self.cfs.get(name) {
            None => Err(String::from_str("Invalid column family: ").concat(name)),
            Some(cf) => Ok(Call::DropColumnFamily { db: self.inner, handle: *cf }),
        }
    }

    /// The handle of the column family `name`, if the database has one of
    /// that name.
    pub fn cf_handle(&self, name: &str) -> (r: Option<&DBCFHandle>)
        requires
            self.wf(),
        ensures
            r.is_some() <==> self.spec_cfs().contains_key(name@),
            r matches Some(h) ==> *h == self.spec_cfs()[name@],
    {
        self.cfs.get(name)
    }

    /// The names of all column families, the default one among them,
    /// ascending by their bytes.
    pub fn cf_names(&self) -> (r: Vec<&str>)
        requires
            self.wf(),
        ensures
            texts(r@) == self.spec_cf_names(),
            ascending(texts(r@)),
            forall|name: Seq<char>| texts(r@).contains(name) <==> self.spec_cfs().contains_key(name),
    {
        let r = self.cfs.names_vec();
        assert(texts(r@) =~= self.spec_cf_names());
        r
    }

    /// The call that makes an iterator over the default column family of
    /// the live database.
    pub fn iter(&self) -> (r: Call<'static>)
        ensures
            r == (Call::CreateIterator {
                db: self.spec_inner(),
                readopts: ReadOptions { fill_cache: None, snapshot: None },
                cf: None,
            }),
    {
        let opts = ReadOptions::new();
        self.iter_opt(&opts)
    }

    /// The call that makes an iterator over the default column family with
    /// the read options `opt`.
    pub fn iter_opt(&self, opt: &ReadOptions) -> (r: Call<'static>)
        ensures
            r == (Call::CreateIterator { db: self.spec_inner(), readopts: *opt, cf: None }),
    {
        Call::CreateIterator { db: self.inner, readopts: *opt, cf: None }
    }

    /// The call that makes an iterator over the column family `cf_handle` of
    /// the live database.
    pub fn iter_cf(&self, cf_handle: DBCFHandle) -> (r: Call<'static>)
        ensures
            r == (Call::CreateIterator {
                db: self.spec_inner(),
                readopts: ReadOptions { fill_cache: None, snapshot: None },
                cf: Some(cf_handle),
            }),
    {
        Call::CreateIterator { db: self.inner, readopts: ReadOptions::new(), cf: Some(cf_handle) }
    }

    /// The call that takes a snapshot of the database.
    pub fn snapshot(&self) -> (r: Call<'static>)
        ensures
            r == (Call::CreateSnapshot { db: self.spec_inner() }),
    {
        self.unsafe_snap()
    }

    /// The call that takes a snapshot of the database. Whoever takes it this
    /// way has to give it back with [`DB::release_snap`].
    pub fn unsafe_snap(&self) -> (r: Call<'static>)
        ensures
            r == (Call::CreateSnapshot { db: self.spec_inner() }),
    {
        Call::CreateSnapshot { db: self.inner }
    }

    /// The call that gives the snapshot `snap` back to the database.
    pub fn release_snap(&self, snap: &UnsafeSnap) -> (r: Call<'static>)
        ensures
            r == (Call::ReleaseSnapshot { db: self.spec_inner(), snap: snap.inner }),
    {
        Call::ReleaseSnapshot { db: self.inner, snap: snap.inner }
    }

    /// The call that puts `value` under `key` in the default column family.
    pub fn put_opt<'a>(&self, key: &'a [u8], value: &'a [u8], writeopts: &WriteOptions) -> (r:
        Call<'a>)
        ensures
            r == (Call::Put {
                db: self.spec_inner(),
                writeopts: *writeopts,
                cf: None,
                key,
                value,
            }),
    {
        Call::Put { db: self.inner, writeopts: *writeopts, cf: None, key, value }
    }

    /// The call that puts `value` under `key` in the column family `cf`.
    pub fn put_cf_opt<'a>(
        &self,
        cf: DBCFHandle,
        key: &'a [u8],
        value: &'a [u8],
        writeopts: &WriteOptions,
    ) -> (r: Call<'a>)
        ensures
            r == (Call::Put {
                db: self.spec_inner(),
                writeopts: *writeopts,
                cf: Some(cf),
                key,
                value,
            }),
    {
        Call::Put { db: self.inner, writeopts: *writeopts, cf: Some(cf), key, value }
    }

    /// The call that merges `value` into what `key` holds in the default
    /// column family.
    pub fn merge_opt<'a>(&self, key: &'a [u8], value: &'a [u8], writeopts: &WriteOptions) -> (r:
        Call<'a>)
        ensures
            r == (Call::Merge {
                db: self.spec_inner(),
                writeopts: *writeopts,
                cf: None,
                key,
                value,
            }),
    {
        Call::Merge { db: self.inner, writeopts: *writeopts, cf: None, key, value }
    }

    /// The call that merges `value` into what `key` holds in the column
    /// family `cf`.
    pub fn merge_cf_opt<'a>(
        &self,
        cf: DBCFHandle,
        key: &'a [u8],
        value: &'a [u8],
        writeopts: &WriteOptions,
    ) -> (r: Call<'a>)
        ensures
            r == (Call::Merge {
                db: self.spec_inner(),
                writeopts: *writeopts,
                cf: Some(cf),
                key,
                value,
            }),
    {
        Call::Merge { db: self.inner, writeopts: *writeopts, cf: Some(cf), key, value }
    }

    /// The call that deletes `key` from the default column family.
    pub fn delete_opt<'a>(&self, key: &'a [u8], writeopts: &WriteOptions) -> (r: Call<'a>)
        ensures
            r == (Call::Delete { db: self.spec_inner(), writeopts: *writeopts, cf: None, key }),
    {
        Call::Delete { db: self.inner, writeopts: *writeopts, cf: None, key }
    }

    /// The call that deletes `key` from the column family `cf`.
    pub fn delete_cf_opt<'a>(&self, cf: DBCFHandle, key: &'a [u8], writeopts: &WriteOptions) -> (r:
        Call<'a>)
        ensures
            r == (Call::Delete {
                db: self.spec_inner(),
                writeopts: *writeopts,
                cf: Some(cf),
                key,
            }),
    {
        Call::Delete { db: self.inner, writeopts: *writeopts, cf: Some(cf), key }
    }

    /// The call that puts `value` under `key` in the default column family,
    /// with the engine's own write options.
    pub fn put<'a>(&self, key: &'a [u8], value: &'a [u8]) -> (r: Call<'a>)
        ensures
            r == (Call::Put {
                db: self.spec_inner(),
                writeopts: WriteOptions { disable_wal: None, sync: None },
                cf: None,
                key,
                value,
            }),
    {
        self.put_opt(key, value, &WriteOptions::new())
    }

    /// The call that puts `value` under `key` in the column family `cf`,
    /// with the engine's own write options.
    pub fn put_cf<'a>(&self, cf: DBCFHandle, key: &'a [u8], value: &'a [u8]) -> (r: Call<'a>)
        ensures
            r == (Call::Put {
                db: self.spec_inner(),
                writeopts: WriteOptions { disable_wal: None, sync: None },
                cf: Some(cf),
                key,
                value,
            }),
    {
        self.put_cf_opt(cf, key, value, &WriteOptions::new())
    }

    /// The call that merges `value` into what `key` holds in the default
    /// column family, with the engine's own write options.
    pub fn merge<'a>(&self, key: &'a [u8], value: &'a [u8]) -> (r: Call<'a>)
        ensures
            r == (Call::Merge {
                db: self.spec_inner(),
                writeopts: WriteOptions { disable_wal: None, sync: None },
                cf: None,
                key,
                value,
            }),
    {
        self.merge_opt(key, value, &WriteOptions::new())
    }

    /// The call that merges `value` into what `key` holds in the column
    /// family `cf`, with the engine's own write options.
    pub fn merge_cf<'a>(&self, cf: DBCFHandle, key: &'a [u8], value: &'a [u8]) -> (r: Call<'a>)
        ensures
            r == (Call::Merge {
                db: self.spec_inner(),
                writeopts: WriteOptions { disable_wal: None, sync: None },
                cf: Some(cf),
                key,
                value,
            }),
    {
        self.merge_cf_opt(cf, key, value, &WriteOptions::new())
    }

    /// The call that deletes `key` from the default column family, with the
    /// engine's own write options.
    pub fn delete<'a>(&self, key: &'a [u8]) -> (r: Call<'a>)
        ensures
            r == (Call::Delete {
                db: self.spec_inner(),
                writeopts: WriteOptions { disable_wal: None, sync: None },
                cf: None,
                key,
            }),
    {
        self.delete_opt(key, &WriteOptions::new())
    }

    /// The call that deletes `key` from the column family `cf`, with the
    /// engine's own write options.
    pub fn delete_cf<'a>(&self, cf: DBCFHandle, key: &'a [u8]) -> (r: Call<'a>)
        ensures
            r == (Call::Delete {
                db: self.spec_inner(),
                writeopts: WriteOptions { disable_wal: None, sync: None },
                cf: Some(cf),
                key,
            }),
    {
        self.delete_cf_opt(cf, key, &WriteOptions::new())
    }

    /// The call that flushes the write buffers of the default column family
    /// to disk. With `sync` the engine returns when the flush is done.
    pub fn flush(&self, sync: bool) -> (r: Call<'static>)
        ensures
            r == (Call::Flush { db: self.spec_inner(), wait: sync }),
    {
        Call::Flush { db: self.inner, wait: sync }
    }

    /// The call that asks how much room on disk the keys of each range of
    /// `ranges` take in the default column family. The engine fills in the
    /// sizes of the call, one for each range.
    pub fn get_approximate_sizes<'a>(&self, ranges: &[Range<'a>]) -> (r: Call<'a>)
        requires
            ranges@.len() <= i32::MAX,
        ensures
            r matches Call::ApproximateSizes { db, cf, ranges: arrays } && db == self.spec_inner()
                && cf.is_none() && arrays.lays_out(ranges@),
    {
        self.get_approximate_sizes_cfopt(None, ranges)
    }

    /// The call that asks how much room on disk the keys of each range of
    /// `ranges` take in the column family `cf`.
    pub fn get_approximate_sizes_cf<'a>(&self, cf: DBCFHandle, ranges: &[Range<'a>]) -> (r: Call<
        'a,
    >)
        requires
            ranges@.len() <= i32::MAX,
        ensures
            r matches Call::ApproximateSizes { db, cf: family, ranges: arrays } && db
                == self.spec_inner() && family == Some(cf) && arrays.lays_out(ranges@),
    {
        self.get_approximate_sizes_cfopt(Some(cf), ranges)
    }

    /// The call that asks how much room on disk the keys of each range of
    /// `ranges` take, in the column family `cf` or, without one, in the
    /// default column family. The ranges are laid out as the engine takes
    /// them.
    pub fn get_approximate_sizes_cfopt<'a>(&self, cf: Option<DBCFHandle>, ranges: &[Range<'a>]) -> (r:
        Call<'a>)
        requires
            ranges@.len() <= i32::MAX,
        ensures
            r matches Call::ApproximateSizes { db, cf: family, ranges: arrays } && db
                == self.spec_inner() && family == cf && arrays.lays_out(ranges@),
    {
        Call::ApproximateSizes { db: self.inner, cf, ranges: marshal(ranges) }
    }

    /// The call that deletes the files of the default column family whose
    /// keys all lie from `start_key` up to `end_key`.
    pub fn delete_file_in_range<'a>(&self, start_key: &'a [u8], end_key: &'a [u8]) -> (r: Call<
        'a,
    >)
        ensures
            r == (Call::DeleteFileInRange { db: self.spec_inner(), cf: None, start_key, end_key }),
    {
        Call::DeleteFileInRange { db: self.inner, cf: None, start_key, end_key }
    }

    /// The call that deletes the files of the column family `cf` whose keys
    /// all lie from `start_key` up to `end_key`.
    pub fn delete_file_in_range_cf<'a>(
        &self,
        cf: DBCFHandle,
        start_key: &'a [u8],
        end_key: &'a [u8],
    ) -> (r: Call<'a>)
        ensures
            r == (Call::DeleteFileInRange {
                db: self.spec_inner(),
                cf: Some(cf),
                start_key,
                end_key,
            }),
    {
        Call::DeleteFileInRange { db: self.inner, cf: Some(cf), start_key, end_key }
    }

    /// The call that asks for the property `name` of the default column
    /// family. What comes back goes to [`DB::property_value`].
    pub fn get_property_value<'a>(&self, name: &'a str) -> (r: Call<'a>)
        requires
            zero_free(encode_utf8(name@)),
        ensures
            r == (Call::PropertyValue { db: self.spec_inner(), cf: None, name }),
    {
        self.get_property_value_cf_opt(None, name)
    }

    /// The call that asks for the property `name` of the column family `cf`.
    pub fn get_property_value_cf<'a>(&self, cf: DBCFHandle, name: &'a str) -> (r: Call<'a>)
        requires
            zero_free(encode_utf8(name@)),
        ensures
            r == (Call::PropertyValue { db: self.spec_inner(), cf: Some(cf), name }),
    {
        self.get_property_value_cf_opt(Some(cf), name)
    }

    /// The call that asks for the property `name` of the default column
    /// family. What comes back goes to [`DB::property_int`].
    pub fn get_property_int<'a>(&self, name: &'a str) -> (r: Call<'a>)
        requires
            zero_free(encode_utf8(name@)),
        ensures
            r == (Call::PropertyValue { db: self.spec_inner(), cf: None, name }),
    {
        self.get_property_int_cf_opt(None, name)
    }

    /// The call that asks for the property `name` of the column family `cf`.
    /// What comes back goes to [`DB::property_int`].
    pub fn get_property_int_cf<'a>(&self, cf: DBCFHandle, name: &'a str) -> (r: Call<'a>)
        requires
            zero_free(encode_utf8(name@)),
        ensures
            r == (Call::PropertyValue { db: self.spec_inner(), cf: Some(cf), name }),
    {
        self.get_property_int_cf_opt(Some(cf), name)
    }

    /// The call that asks for the property `name`, of the column family `cf`
    /// or, without one, of the default column family.
    pub fn get_property_value_cf_opt<'a>(&self, cf: Option<DBCFHandle>, name: &'a str) -> (r: Call<
        'a,
    >)
        requires
            zero_free(encode_utf8(name@)),
        ensures
            r == (Call::PropertyValue { db: self.spec_inner(), cf, name }),
    {
        Call::PropertyValue { db: self.inner, cf, name }
    }

    /// The call that asks for the property `name`, to be read as a number.
    pub fn get_property_int_cf_opt<'a>(&self, cf: Option<DBCFHandle>, name: &'a str) -> (r: Call<
        'a,
    >)
        requires
            zero_free(encode_utf8(name@)),
        ensures
            r == (Call::PropertyValue { db: self.spec_inner(), cf, name }),
    {
        self.get_property_value_cf_opt(cf, name)
    }

    /// The property that the engine returned, as text: nothing where the
    /// engine knows no such property. The engine answers in UTF-8.
    pub fn property_value(value: Option<&[u8]>) -> (r: Option<String>)
        requires
            value matches Some(bytes) ==> valid_utf8(bytes@),
        ensures
            r.is_some() <==> value.is_some(),
            r matches Some(s) ==> Some(s@) == property_text(value),
    {
        match value {
            None => None,
            Some(bytes) => Some(error_message(bytes)),
        }
    }

    /// The property that the engine returned, as a number: nothing where
    /// the engine knows no such property, or where its text writes no number
    /// of 64 bits. This is the number that the text of
    /// [`DB::property_value`] writes in decimal.
    pub fn property_int(value: Option<&[u8]>) -> (r: Option<u64>)
        requires
            value matches Some(bytes) ==> valid_utf8(bytes@),
        ensures
            r == property_number(value),
            value matches Some(bytes) ==> r == decimal(bytes@),
            value.is_none() ==> r.is_none(),
    {
        match value {
            None => None,
            Some(bytes) => {
                proof {
                    decode_utf8_encode_utf8(bytes@);
                }
                parse_decimal(bytes)
            },
        }
    }

    /// Closes the database: the calls that give everything back to the
    /// engine, in the order in which they have to be made. Every column
    /// family goes first, the database last.
    pub fn close(self) -> (r: Vec<Call<'static>>)
        requires
            self.wf(),
        ensures
            r@.len() == self.spec_cf_handles().len() + 1,
            forall|i: int|
                0 <= i < self.spec_cf_handles().len() ==> #[trigger] r@[i]
                    == (Call::ColumnFamilyHandleDestroy { handle: self.spec_cf_handles()[i] }),
            r@[self.spec_cf_handles().len() as int] == (Call::Close { db: self.spec_inner() }),
    {
        let handles = self.cfs.handles_vec();
        let mut calls: Vec<Call<'static>> = Vec::new();
        let mut i: usize = 0;
        while i < handles.len()
            invariant
                i <= handles@.len(),
                calls@.len() == i,
                forall|j: int|
                    0 <= j < i ==> #[trigger] calls@[j] == (Call::ColumnFamilyHandleDestroy {
                        handle: handles@[j],
                    }),
            decreases handles@.len() - i,
        {
            calls.push(Call::ColumnFamilyHandleDestroy { handle: handles[i] });
            i += 1;
        }
        calls.push(Call::Close { db: self.inner });
        calls
    }
}

} // verus!
