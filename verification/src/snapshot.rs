//! Snapshots: a database as it was at one moment.

use vstd::prelude::*;
use crate::call::Call;
use crate::db::DB;
use crate::handle::{DBCFHandle, Handle};
use crate::options::{ReadOptions, UnsafeSnap};

verus! {

/// A snapshot of a database. It cannot outlive the database, and every read
/// made through it sees the database as it was when the snapshot was taken.
#[derive(Debug)]
pub struct Snapshot<'a> {
    db: &'a DB,
    snap: UnsafeSnap,
}

impl<'a> Snapshot<'a> {
    /// The database that the snapshot was taken of.
    pub closed spec fn spec_db(self) -> &'a DB {
        self.db
    }

    /// The engine's handle for the snapshot.
    pub closed spec fn spec_snap(self) -> Handle {
        self.snap.inner
    }

    /// The call that takes a snapshot of `db`. What comes back goes to
    /// [`Snapshot::taken`].
    pub fn new(db: &'a DB) -> (r: Call<'static>)
        ensures
            r == (Call::CreateSnapshot { db: db.spec_inner() }),
    {
        db.unsafe_snap()
    }

    /// The snapshot that the engine took of `db`, at the address `snap`,
    /// unless the address is null.
    pub fn taken(db: &'a DB, snap: usize) -> (r: Option<Snapshot<'a>>)
        ensures
            r.is_some() <==> snap != 0,
            r matches Some(s) ==> s.spec_db() == db && s.spec_snap() == Handle::at(snap),
    {
        match Handle::new(snap) {
            None => None,
            Some(inner) => Some(Snapshot { db, snap: UnsafeSnap::new(inner) }),
        }
    }

    /// The call that makes an iterator over the default column family as the
    /// snapshot holds it.
    pub fn iter(&self) -> (r: Call<'static>)
        ensures
            r == (Call::CreateIterator {
                db: self.spec_db().spec_inner(),
                readopts: ReadOptions { fill_cache: None, snapshot: Some(self.spec_snap()) },
                cf: None,
            }),
    {
        let readopts = ReadOptions::new();
        self.iter_opt(readopts)
    }

    /// The call that makes an iterator over the default column family as the
    /// snapshot holds it, with the other settings of `opt`.
    pub fn iter_opt(&self, opt: ReadOptions) -> (r: Call<'static>)
        ensures
            r == (Call::CreateIterator {
                db: self.spec_db().spec_inner(),
                readopts: ReadOptions {
                    fill_cache: opt.fill_cache,
                    snapshot: Some(self.spec_snap()),
                },
                cf: None,
            }),
    {
        let mut opt = opt;
        opt.set_snapshot(&self.snap);
        self.db.iter_opt(&opt)
    }

    /// The call that reads `key` in the default column family as the
    /// snapshot holds it. What comes back goes to [`DB::fetched`].
    pub fn get<'k>(&self, key: &'k [u8]) -> (r: Call<'k>)
        ensures
            r == (Call::Get {
                db: self.spec_db().spec_inner(),
                readopts: ReadOptions { fill_cache: None, snapshot: Some(self.spec_snap()) },
                cf: None,
                key,
            }),
    {
        let mut readopts = ReadOptions::new();
        readopts.set_snapshot(&self.snap);
        self.db.get_opt(key, &readopts)
    }

    /// The call that reads `key` in the column family `cf` as the snapshot
    /// holds it. What comes back goes to [`DB::fetched`].
    pub fn get_cf<'k>(&self, cf: DBCFHandle, key: &'k [u8]) -> (r: Call<'k>)
        ensures
            r == (Call::Get {
                db: self.spec_db().spec_inner(),
                readopts: ReadOptions { fill_cache: None, snapshot: Some(self.spec_snap()) },
                cf: Some(cf),
                key,
            }),
    {
        let mut readopts = ReadOptions::new();
        readopts.set_snapshot(&self.snap);
        self.db.get_cf_opt(cf, key, &readopts)
    }

    /// The call that gives the snapshot back to its database.
    pub fn release(self) -> (r: Call<'static>)
        ensures
            r == (Call::ReleaseSnapshot {
                db: self.spec_db().spec_inner(),
                snap: self.spec_snap(),
            }),
    {
        self.db.release_snap(&self.snap)
    }
}

} // verus!
