//! Write batches: writes that are gathered first and committed together.

use vstd::prelude::*;
use vstd::slice::slice_to_vec;
use crate::handle::DBCFHandle;

verus! {

/// One write of a batch, as the batch keeps it. Without a column family it
/// goes to the default one.
#[derive(Debug)]
pub enum BatchOp {
    Put { cf: Option<DBCFHandle>, key: Vec<u8>, value: Vec<u8> },
    Merge { cf: Option<DBCFHandle>, key: Vec<u8>, value: Vec<u8> },
    Delete { cf: Option<DBCFHandle>, key: Vec<u8> },
}

/// One write of a batch, as contracts speak of it.
pub enum Op {
    Put { cf: Option<DBCFHandle>, key: Seq<u8>, value: Seq<u8> },
    Merge { cf: Option<DBCFHandle>, key: Seq<u8>, value: Seq<u8> },
    Delete { cf: Option<DBCFHandle>, key: Seq<u8> },
}

impl View for BatchOp {
    type V = Op;

    open spec fn view(&self) -> Op {
        match *self {
            BatchOp::Put { cf, key, value } => Op::Put { cf, key: key@, value: value@ },
            BatchOp::Merge { cf, key, value } => Op::Merge { cf, key: key@, value: value@ },
            BatchOp::Delete { cf, key } => Op::Delete { cf, key: key@ },
        }
    }
}

/// What a batch holds after `ops` were added to `batch` one after another.
pub open spec fn after(batch: Seq<Op>, ops: Seq<Op>) -> Seq<Op>
    decreases ops.len(),
{
    if ops.len() == 0 {
        batch
    } else {
        after(batch.push(ops[0]), ops.skip(1))
    }
}

/// A batch holds every write that was added to it, in the order of the
/// additions.
pub proof fn lemma_after_appends(batch: Seq<Op>, ops: Seq<Op>)
    ensures
        after(batch, ops) == batch + ops,
    decreases ops.len(),
{
    if ops.len() == 0 {
        assert(batch + ops =~= batch);
    } else {
        lemma_after_appends(batch.push(ops[0]), ops.skip(1));
        assert(batch.push(ops[0]) + ops.skip(1) =~= batch + ops);
    }
}

/// A batch that starts empty counts as many writes as were added to it, and
/// it is empty exactly when none was.
pub proof fn lemma_count_of_batch(ops: Seq<Op>)
    ensures
        after(Seq::empty(), ops).len() == ops.len(),
        after(Seq::empty(), ops).len() == 0 <==> ops.len() == 0,
{
    lemma_after_appends(Seq::empty(), ops);
}

/// An ordered list of writes. Adding to it touches no database; the whole
/// list is committed at once when the batch is handed to one.
#[derive(Debug)]
pub struct WriteBatch {
    ops: Vec<BatchOp>,
}

impl View for WriteBatch {
    type V = Seq<Op>;

    closed spec fn view(&self) -> Seq<Op> {
        self.ops@.map_values(|op: BatchOp| op@)
    }
}

/// The writes that a database and a batch both take.
pub trait Writable {
    fn put(&mut self, key: &[u8], value: &[u8]) -> Result<(), String>;

    fn put_cf(&mut self, cf: DBCFHandle, key: &[u8], value: &[u8]) -> Result<(), String>;

    fn merge(&mut self, key: &[u8], value: &[u8]) -> Result<(), String>;

    fn merge_cf(&mut self, cf: DBCFHandle, key: &[u8], value: &[u8]) -> Result<(), String>;

    fn delete(&mut self, key: &[u8]) -> Result<(), String>;

    fn delete_cf(&mut self, cf: DBCFHandle, key: &[u8]) -> Result<(), String>;
}

impl WriteBatch {
    /// An empty batch.
    pub fn new() -> (r: WriteBatch)
        ensures
            r@ == Seq::<Op>::empty(),
    {
        let r = WriteBatch { ops: Vec::new() };
        assert(r@ =~= Seq::<Op>::empty());
        r
    }

    /// The number of writes in the batch.
    pub fn count(&self) -> (r: usize)
        ensures
            r == self@.len(),
    {
        self.ops.len()
    }

    /// Whether the batch holds no write.
    pub fn is_empty(&self) -> (r: bool)
        ensures
            r <==> self@.len() == 0,
    {
        self.count() == 0
    }

    /// The writes of the batch, in the order in which they are to be applied.
    pub fn ops(&self) -> (r: &[BatchOp])
        ensures
            r@.len() == self@.len(),
            forall|i: int| 0 <= i < r@.len() ==> (#[trigger] r@[i])@ == self@[i],
    {
        self.ops.as_slice()
    }

    fn record(&mut self, op: BatchOp)
        ensures
            final(self)@ == old(self)@.push(op@),
    {
        self.ops.push(op);
        assert(self@ =~= old(self)@.push(op@));
    }
}

impl Default for WriteBatch {
    fn default() -> (r: WriteBatch)
        ensures
            r@ == Seq::<Op>::empty(),
    {
        WriteBatch::new()
    }
}

impl Writable for WriteBatch {
    /// Adds a put to the default column family. This cannot fail.
    fn put(&mut self, key: &[u8], value: &[u8]) -> (r: Result<(), String>)
        ensures
            r.is_ok(),
            final(self)@ == old(self)@.push(Op::Put { cf: None, key: key@, value: value@ }),
    {
        self.record(BatchOp::Put { cf: None, key: slice_to_vec(key), value: slice_to_vec(value) });
        Ok(())
    }

    /// Adds a put to the column family `cf`. This cannot fail.
    fn put_cf(&mut self, cf: DBCFHandle, key: &[u8], value: &[u8]) -> (r: Result<(), String>)
        ensures
            r.is_ok(),
            final(self)@ == old(self)@.push(Op::Put { cf: Some(cf), key: key@, value: value@ }),
    {
        self.record(
            BatchOp::Put { cf: Some(cf), key: slice_to_vec(key), value: slice_to_vec(value) },
        );
        Ok(())
    }

    /// Adds a merge to the default column family. This cannot fail.
    fn merge(&mut self, key: &[u8], value: &[u8]) -> (r: Result<(), String>)
        ensures
            r.is_ok(),
            final(self)@ == old(self)@.push(Op::Merge { cf: None, key: key@, value: value@ }),
    {
        self.record(
            BatchOp::Merge { cf: None, key: slice_to_vec(key), value: slice_to_vec(value) },
        );
        Ok(())
    }

    /// Adds a merge to the column family `cf`. This cannot fail.
    fn merge_cf(&mut self, cf: DBCFHandle, key: &[u8], value: &[u8]) -> (r: Result<(), String>)
        ensures
            r.is_ok(),
            final(self)@ == old(self)@.push(Op::Merge { cf: Some(cf), key: key@, value: value@ }),
    {
        self.record(
            BatchOp::Merge { cf: Some(cf), key: slice_to_vec(key), value: slice_to_vec(value) },
        );
        Ok(())
    }

    /// Adds a delete to the default column family. This cannot fail.
    fn delete(&mut self, key: &[u8]) -> (r: Result<(), String>)
        ensures
            r.is_ok(),
            final(self)@ == old(self)@.push(Op::Delete { cf: None, key: key@ }),
    {
        self.record(BatchOp::Delete { cf: None, key: slice_to_vec(key) });
        Ok(())
    }

    /// Adds a delete to the column family `cf`. This cannot fail.
    fn delete_cf(&mut self, cf: DBCFHandle, key: &[u8]) -> (r: Result<(), String>)
        ensures
            r.is_ok(),
            final(self)@ == old(self)@.push(Op::Delete { cf: Some(cf), key: key@ }),
    {
        self.record(BatchOp::Delete { cf: Some(cf), key: slice_to_vec(key) });
        Ok(())
    }
}

} // verus!
