//! Iterators: the walk over the keys of a column family, and where it
//! stands.

use vstd::prelude::*;
use vstd::slice::slice_to_vec;
use crate::call::Call;
use crate::db::DB;
use crate::handle::{DBCFHandle, Handle};
use crate::options::ReadOptions;

verus! {

/// Where an iterator is sent: to the first key, to the last key, or to the
/// first key that does not sort before the given one.
#[derive(Clone, Copy, Debug)]
pub enum SeekKey<'a> {
    Start,
    End,
    Key(&'a [u8]),
}

impl<'a> From<&'a [u8]> for SeekKey<'a> {
    fn from(bs: &'a [u8]) -> (r: SeekKey<'a>) {
        SeekKey::Key(bs)
    }
}

impl<'a> vstd::std_specs::convert::FromSpecImpl<&'a [u8]> for SeekKey<'a> {
    open spec fn obeys_from_spec() -> bool {
        true
    }

    open spec fn from_spec(bs: &'a [u8]) -> SeekKey<'a> {
        SeekKey::Key(bs)
    }
}

/// A key with its value, owned by the caller.
pub type Kv = (Vec<u8>, Vec<u8>);

/// Where an iterator stands, as the iterator keeps it.
#[derive(Debug)]
pub enum Position {
    Unpositioned,
    Valid { key: Vec<u8>, value: Vec<u8> },
    Invalid,
}

/// Where an iterator stands: nowhere yet, at a key with its value, or off
/// the keys.
pub enum State {
    Unpositioned,
    Valid { key: Seq<u8>, value: Seq<u8> },
    Invalid,
}

impl View for Position {
    type V = State;

    open spec fn view(&self) -> State {
        match *self {
            Position::Unpositioned => State::Unpositioned,
            Position::Valid { key, value } => State::Valid { key: key@, value: value@ },
            Position::Invalid => State::Invalid,
        }
    }
}

/// Where an iterator stands after the engine moved it: `at` is the key and
/// the value that the engine shows, or nothing when it shows none.
pub open spec fn landing(at: Option<Kv>) -> State {
    match at {
        Some(kv) => State::Valid { key: kv.0@, value: kv.1@ },
        None => State::Invalid,
    }
}

/// An iterator over a column family of a database. It cannot outlive the
/// database, and it keeps the key and the value at which it stands.
#[derive(Debug)]
pub struct DBIterator<'a> {
    db: &'a DB,
    inner: Handle,
    at: Position,
}

impl<'a> DBIterator<'a> {
    /// The database that the iterator walks.
    pub closed spec fn spec_db(self) -> &'a DB {
        self.db
    }

    /// The engine's handle for the iterator.
    pub closed spec fn spec_inner(self) -> Handle {
        self.inner
    }

    /// Where the iterator stands.
    pub closed spec fn state(self) -> State {
        self.at@
    }

    /// The call that makes an iterator over the default column family of
    /// `db` with the read options `readopts`. What comes back goes to
    /// [`DBIterator::created`].
    pub fn new(db: &'a DB, readopts: &ReadOptions) -> (r: Call<'static>)
        ensures
            r == (Call::CreateIterator { db: db.spec_inner(), readopts: *readopts, cf: None }),
    {
        Call::CreateIterator { db: db.inner(), readopts: *readopts, cf: None }
    }

    /// The call that makes an iterator over the column family `cf_handle`
    /// of `db` with the read options `readopts`.
    pub fn new_cf(db: &'a DB, cf_handle: DBCFHandle, readopts: &ReadOptions) -> (r: Call<'static>)
        ensures
            r == (Call::CreateIterator {
                db: db.spec_inner(),
                readopts: *readopts,
                cf: Some(cf_handle),
            }),
    {
        Call::CreateIterator { db: db.inner(), readopts: *readopts, cf: Some(cf_handle) }
    }

    /// The iterator that the engine made at the address `inner`, unless the
    /// address is null. It stands nowhere yet.
    pub fn created(db: &'a DB, inner: usize) -> (r: Option<DBIterator<'a>>)
        ensures
            r.is_some() <==> inner != 0,
            r matches Some(it) ==> {
                &&& it.spec_db() == db
                &&& it.spec_inner() == Handle::at(inner)
                &&& it.state() == State::Unpositioned
            },
    {
        match Handle::new(inner) {
            None => None,
            Some(inner) => Some(DBIterator { db, inner, at: Position::Unpositioned }),
        }
    }

    /// The call that sends the iterator where `key` says. Until the engine's
    /// answer is handed to [`DBIterator::landed`] the iterator stands at no
    /// key.
    pub fn seek<'k>(&mut self, key: SeekKey<'k>) -> (r: Call<'k>)
        ensures
            final(self).spec_db() == old(self).spec_db(),
            final(self).spec_inner() == old(self).spec_inner(),
            final(self).state() == State::Invalid,
            r == match key {
                SeekKey::Start => Call::IterSeekToFirst { iter: old(self).spec_inner() },
                SeekKey::End => Call::IterSeekToLast { iter: old(self).spec_inner() },
                SeekKey::Key(k) => Call::IterSeek { iter: old(self).spec_inner(), key: k },
            },
    {
        self.at = Position::Invalid;
        match key {
            SeekKey::Start => Call::IterSeekToFirst { iter: self.inner },
            SeekKey::End => Call::IterSeekToLast { iter: self.inner },
            SeekKey::Key(k) => Call::IterSeek { iter: self.inner, key: k },
        }
    }

    /// The call that moves the iterator one key back. Until the engine's
    /// answer is handed to [`DBIterator::landed`] the iterator stands at no
    /// key.
    pub fn prev(&mut self) -> (r: Call<'static>)
        ensures
            final(self).spec_db() == old(self).spec_db(),
            final(self).spec_inner() == old(self).spec_inner(),
            final(self).state() == State::Invalid,
            r == (Call::IterPrev { iter: old(self).spec_inner() }),
    {
        self.at = Position::Invalid;
        Call::IterPrev { iter: self.inner }
    }

    /// The call that moves the iterator one key on. Until the engine's
    /// answer is handed to [`DBIterator::landed`] the iterator stands at no
    /// key.
    pub fn next(&mut self) -> (r: Call<'static>)
        ensures
            final(self).spec_db() == old(self).spec_db(),
            final(self).spec_inner() == old(self).spec_inner(),
            final(self).state() == State::Invalid,
            r == (Call::IterNext { iter: old(self).spec_inner() }),
    {
        self.at = Position::Invalid;
        Call::IterNext { iter: self.inner }
    }

    /// Takes in where the engine put the iterator: at the key and the value
    /// of `at`, or off the keys. Returns whether it stands at a key.
    pub fn landed(&mut self, at: Option<Kv>) -> (r: bool)
        ensures
            final(self).spec_db() == old(self).spec_db(),
            final(self).spec_inner() == old(self).spec_inner(),
            final(self).state() == landing(at),
            r == at.is_some(),
    {
        match at {
            Some(kv) => {
                self.at = Position::Valid { key: kv.0, value: kv.1 };
                true
            },
            None => {
                self.at = Position::Invalid;
                false
            },
        }
    }

    /// Whether the iterator stands at a key.
    pub fn valid(&self) -> (r: bool)
        ensures
            r <==> self.state() is Valid,
    {
        match self.at {
            Position::Valid { .. } => true,
            _ => false,
        }
    }

    /// The key at which the iterator stands. It can be read until the
    /// iterator is moved.
    pub fn key(&self) -> (r: &[u8])
        requires
            self.state() is Valid,
        ensures
            self.state() matches State::Valid { key, .. } && r@ == key,
    {
        match &self.at {
            Position::Valid { key, .. } => key.as_slice(),
            _ => unreached(),
        }
    }

    /// The value at which the iterator stands. It can be read until the
    /// iterator is moved.
    pub fn value(&self) -> (r: &[u8])
        requires
            self.state() is Valid,
        ensures
            self.state() matches State::Valid { value, .. } && r@ == value,
    {
        match &self.at {
            Position::Valid { value, .. } => value.as_slice(),
            _ => unreached(),
        }
    }

    /// A copy of the key and the value at which the iterator stands, or
    /// nothing where it stands at none.
    pub fn kv(&self) -> (r: Option<Kv>)
        ensures
            match self.state() {
                State::Valid { key, value } => r matches Some(kv) && kv.0@ == key && kv.1@
                    == value,
                _ => r.is_none(),
            },
    {
        if self.valid() {
            Some((slice_to_vec(self.key()), slice_to_vec(self.value())))
        } else {
            None
        }
    }

    /// One step of reading the keys in a row: a copy of the key and the
    /// value at which the iterator stands, with the call that moves it on;
    /// or nothing, where it stands at no key, and then the row has ended.
    pub fn pull(&mut self) -> (r: Option<(Kv, Call<'static>)>)
        ensures
            final(self).spec_db() == old(self).spec_db(),
            final(self).spec_inner() == old(self).spec_inner(),
            match old(self).state() {
                State::Valid { key, value } => {
                    &&& r matches Some(step)
                    &&& step.0.0@ == key
                    &&& step.0.1@ == value
                    &&& step.1 == (Call::IterNext { iter: old(self).spec_inner() })
                    &&& final(self).state() == State::Invalid
                },
                _ => r.is_none() && final(self).state() == old(self).state(),
            },
    {
        match self.kv() {
            Some(kv) => {
                let call = self.next();
                Some((kv, call))
            },
            None => None,
        }
    }

    /// The call that gives the iterator back to the engine.
    pub fn destroy(self) -> (r: Call<'static>)
        ensures
            r == (Call::IterDestroy { iter: self.spec_inner() }),
    {
        Call::IterDestroy { iter: self.inner }
    }
}

} // verus!
