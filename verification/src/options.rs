//! What a caller can ask of a read or a write.

use vstd::prelude::*;
use crate::handle::Handle;

verus! {

/// The engine's options for a database or a column family. The library
/// carries them and never looks inside.
#[derive(Clone, Copy, Debug)]
pub struct Options {
    pub inner: Handle,
}

impl Options {
    /// The options object at `inner`.
    pub fn new(inner: Handle) -> (r: Options)
        ensures
            r.inner == inner,
    {
        Options { inner }
    }
}

/// The settings of a write. A setting that was never made is left to the
/// engine.
#[derive(Clone, Copy, Debug)]
pub struct WriteOptions {
    pub disable_wal: Option<bool>,
    pub sync: Option<bool>,
}

impl WriteOptions {
    /// Write options with no setting made.
    pub fn new() -> (r: WriteOptions)
        ensures
            r.disable_wal.is_none(),
            r.sync.is_none(),
    {
        WriteOptions { disable_wal: None, sync: None }
    }

    /// Says whether the write skips the write-ahead log.
    pub fn disable_wal(&mut self, disable: bool)
        ensures
            final(self).disable_wal == Some(disable),
            final(self).sync == old(self).sync,
    {
        self.disable_wal = Some(disable);
    }

    /// Says whether the write waits until the log is on stable storage.
    pub fn set_sync(&mut self, sync: bool)
        ensures
            final(self).sync == Some(sync),
            final(self).disable_wal == old(self).disable_wal,
    {
        self.sync = Some(sync);
    }
}

/// The snapshot of a database, as the engine knows it. Whoever holds one has
/// to give it back to the database that made it.
#[derive(Clone, Copy, Debug)]
pub struct UnsafeSnap {
    pub inner: Handle,
}

impl UnsafeSnap {
    /// The snapshot at `inner`.
    pub fn new(inner: Handle) -> (r: UnsafeSnap)
        ensures
            r.inner == inner,
    {
        UnsafeSnap { inner }
    }
}

/// The settings of a read. A setting that was never made is left to the
/// engine.
#[derive(Clone, Copy, Debug)]
pub struct ReadOptions {
    pub fill_cache: Option<bool>,
    pub snapshot: Option<Handle>,
}

impl Default for ReadOptions {
    fn default() -> (r: ReadOptions)
        ensures
            r.fill_cache.is_none(),
            r.snapshot.is_none(),
    {
        ReadOptions { fill_cache: None, snapshot: None }
    }
}

impl ReadOptions {
    /// Read options with no setting made: the read sees the live database.
    pub fn new() -> (r: ReadOptions)
        ensures
            r.fill_cache.is_none(),
            r.snapshot.is_none(),
    {
        ReadOptions { fill_cache: None, snapshot: None }
    }

    /// Says whether blocks that the read touches go to the block cache.
    pub fn fill_cache(&mut self, v: bool)
        ensures
            final(self).fill_cache == Some(v),
            final(self).snapshot == old(self).snapshot,
    {
        self.fill_cache = Some(v);
    }

    /// Makes the read see the database as `snapshot` holds it. The snapshot
    /// has to live as long as any read made with these options.
    pub fn set_snapshot(&mut self, snapshot: &UnsafeSnap)
        ensures
            final(self).snapshot == Some(snapshot.inner),
            final(self).fill_cache == old(self).fill_cache,
    {
        self.snapshot = Some(snapshot.inner);
    }
}

} // verus!
