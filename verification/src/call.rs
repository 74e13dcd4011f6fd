//! The engine's routines, as values.

use vstd::prelude::*;
use crate::batch::WriteBatch;
use crate::handle::{DBCFHandle, Handle};
use crate::options::{Options, ReadOptions, WriteOptions};
use crate::range::RangeArrays;

verus! {

/// One call of an engine routine: which routine, and with which arguments.
/// Where a routine exists with and without a column family, `cf` tells the
/// two apart.
#[derive(Debug)]
pub enum Call<'a> {
    DestroyDb { opts: Options, path: &'a str },
    RepairDb { opts: Options, path: &'a str },
    Close { db: Handle },
    CreateColumnFamily { db: Handle, opts: Options, name: &'a str },
    DropColumnFamily { db: Handle, handle: DBCFHandle },
    ColumnFamilyHandleDestroy { handle: DBCFHandle },
    Put { db: Handle, writeopts: WriteOptions, cf: Option<DBCFHandle>, key: &'a [u8], value: &'a [u8] },
    Merge { db: Handle, writeopts: WriteOptions, cf: Option<DBCFHandle>, key: &'a [u8], value: &'a [u8] },
    Delete { db: Handle, writeopts: WriteOptions, cf: Option<DBCFHandle>, key: &'a [u8] },
    Get { db: Handle, readopts: ReadOptions, cf: Option<DBCFHandle>, key: &'a [u8] },
    Write { db: Handle, writeopts: WriteOptions, batch: WriteBatch },
    Flush { db: Handle, wait: bool },
    ApproximateSizes { db: Handle, cf: Option<DBCFHandle>, ranges: RangeArrays<'a> },
    DeleteFileInRange {
        db: Handle,
        cf: Option<DBCFHandle>,
        start_key: &'a [u8],
        end_key: &'a [u8],
    },
    PropertyValue { db: Handle, cf: Option<DBCFHandle>, name: &'a str },
    CreateIterator { db: Handle, readopts: ReadOptions, cf: Option<DBCFHandle> },
    IterSeekToFirst { iter: Handle },
    IterSeekToLast { iter: Handle },
    IterSeek { iter: Handle, key: &'a [u8] },
    IterNext { iter: Handle },
    IterPrev { iter: Handle },
    IterDestroy { iter: Handle },
    CreateSnapshot { db: Handle },
    ReleaseSnapshot { db: Handle, snap: Handle },
}

} // verus!
