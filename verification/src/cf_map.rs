//! The column families of an open database, by name.

use vstd::prelude::*;
use vstd::string::*;
use vstd::utf8::*;
use crate::bytes::{lemma_lt_asymmetric, lemma_lt_transitive, lex_lt, order, Order};
use crate::handle::DBCFHandle;

verus! {

/// The name `a` sorts before the name `b`: names are ordered by the bytes of
/// their UTF-8 form.
pub open spec fn name_lt(a: Seq<char>, b: Seq<char>) -> bool {
    lex_lt(encode_utf8(a), encode_utf8(b))
}

/// Every name of the list sorts before those behind it.
pub open spec fn ascending(names: Seq<Seq<char>>) -> bool {
    forall|i: int, j: int| 0 <= i < j < names.len() ==> name_lt(names[i], names[j])
}

/// Two names with the same bytes are the same name.
pub proof fn lemma_name_of_bytes(a: Seq<char>, b: Seq<char>)
    requires
        encode_utf8(a) == encode_utf8(b),
    ensures
        a == b,
{
    encode_utf8_decode_utf8(a);
    encode_utf8_decode_utf8(b);
}

/// One column family: its name and the handle that the engine gave for it.
#[derive(Debug)]
pub struct CfEntry {
    pub name: String,
    pub handle: DBCFHandle,
}

/// The names of a list of entries, in the order of the list.
pub open spec fn names_of(entries: Seq<CfEntry>) -> Seq<Seq<char>> {
    entries.map_values(|e: CfEntry| e.name@)
}

/// The entry of the list that holds `name`, where there is one.
pub open spec fn place_of(entries: Seq<CfEntry>, name: Seq<char>) -> int {
    choose|i: int| 0 <= i < entries.len() && entries[i].name@ == name
}

/// The list read as a map from names to handles.
pub open spec fn map_of(entries: Seq<CfEntry>) -> Map<Seq<char>, DBCFHandle> {
    Map::new(
        |name: Seq<char>| exists|i: int| 0 <= i < entries.len() && entries[i].name@ == name,
        |name: Seq<char>| entries[place_of(entries, name)].handle,
    )
}

/// In an ascending list a name stands at one place only, and the map gives
/// the handle that stands there.
pub proof fn lemma_entry_in_map(entries: Seq<CfEntry>, i: int)
    requires
        ascending(names_of(entries)),
        0 <= i < entries.len(),
    ensures
        map_of(entries).contains_key(entries[i].name@),
        map_of(entries)[entries[i].name@] == entries[i].handle,
        place_of(entries, entries[i].name@) == i,
{
    let name = entries[i].name@;
    let names = names_of(entries);
    assert(0 <= i < entries.len() && entries[i].name@ == name);
    let j = place_of(entries, name);
    assert(names[i] == name);
    assert(names[j] == name);
    if i < j {
        assert(name_lt(names[i], names[j]));
        lemma_lt_asymmetric(encode_utf8(name), encode_utf8(name));
    } else if j < i {
        assert(name_lt(names[j], names[i]));
        lemma_lt_asymmetric(encode_utf8(name), encode_utf8(name));
    }
}

/// The column families of a database: each name once, in ascending order of
/// the names.
#[derive(Debug)]
pub struct CfMap {
    entries: Vec<CfEntry>,
}

impl View for CfMap {
    type V = Map<Seq<char>, DBCFHandle>;

    closed spec fn view(&self) -> Map<Seq<char>, DBCFHandle> {
        map_of(self.entries@)
    }
}

impl CfMap {
    /// The map is in order: no name stands in it twice, and the names ascend.
    pub closed spec fn wf(self) -> bool {
        ascending(names_of(self.entries@))
    }

    /// The names of the column families, ascending.
    pub closed spec fn names(self) -> Seq<Seq<char>> {
        names_of(self.entries@)
    }

    /// The handles of the column families, in the order of their names.
    pub closed spec fn handles(self) -> Seq<DBCFHandle> {
        self.entries@.map_values(|e: CfEntry| e.handle)
    }

    /// The listing and the map say the same: the names are ascending, they
    /// are the keys of the map, and each handle stands at the place of its
    /// name.
    pub open spec fn listed(self) -> bool {
        &&& self.wf()
        &&& ascending(self.names())
        &&& self.handles().len() == self.names().len()
        &&& forall|name: Seq<char>| self@.contains_key(name) <==> self.names().contains(name)
        &&& forall|i: int|
            0 <= i < self.names().len() ==> self@[#[trigger] self.names()[i]] == self.handles()[i]
    }

    /// A map in order lists its names as it holds them.
    pub proof fn lemma_listed(self)
        requires
            self.wf(),
        ensures
            self.listed(),
    {
        let entries = self.entries@;
        assert forall|name: Seq<char>| self@.contains_key(name) <==> self.names().contains(
            name,
        ) by {
            if self@.contains_key(name) {
                let i = place_of(entries, name);
                assert(self.names()[i] == name);
            }
            if self.names().contains(name) {
                let i = choose|i: int| 0 <= i < self.names().len() && self.names()[i] == name;
                assert(entries[i].name@ == name);
            }
        }
        assert forall|i: int| 0 <= i < self.names().len() implies self@[#[trigger] self.names()[i]]
            == self.handles()[i] by {
            lemma_entry_in_map(entries, i);
        }
    }

    /// A map without any column family.
    pub fn new() -> (r: CfMap)
        ensures
            r@ == Map::<Seq<char>, DBCFHandle>::empty(),
            r.names().len() == 0,
            r.listed(),
    {
        let r = CfMap { entries: Vec::new() };
        proof {
            assert(r@ =~= Map::<Seq<char>, DBCFHandle>::empty());
            r.lemma_listed();
        }
        r
    }

    /// The number of column families.
    pub fn len(&self) -> (r: usize)
        requires
            self.wf(),
        ensures
            r == self.names().len(),
            self.listed(),
    {
        proof {
            self.lemma_listed();
        }
        self.entries.len()
    }

    /// The handle of the column family `name`, if there is one.
    pub fn get(&self, name: &str) -> (r: Option<&DBCFHandle>)
        requires
            self.wf(),
        ensures
            r.is_some() <==> self@.contains_key(name@),
            r matches Some(h) ==> *h == self@[name@],
    {
        let mut i: usize = 0;
        while i < self.entries.len()
            invariant
                i <= self.entries@.len(),
                ascending(names_of(self.entries@)),
                forall|j: int| 0 <= j < i ==> self.entries@[j].name@ != name@,
            decreases self.entries@.len() - i,
        {
            match order(self.entries[i].name.as_str().as_bytes(), name.as_bytes()) {
                Order::Equal => {
                    proof {
                        lemma_name_of_bytes(self.entries@[i as int].name@, name@);
                        lemma_entry_in_map(self.entries@, i as int);
                    }
                    return Some(&self.entries[i].handle);
                },
                _ => {},
            }
            i += 1;
        }
        None
    }

    /// Puts the column family `name` into the map with `handle`, in place of
    /// the handle that the name had, if it had one.
    pub fn insert(&mut self, name: String, handle: DBCFHandle)
        requires
            old(self).wf(),
        ensures
            final(self)@ == old(self)@.insert(name@, handle),
            final(self).listed(),
    {
        let ghost before = self.entries@;
        let ghost key = name@;
        let mut i: usize = 0;
        let mut found = false;
        while i < self.entries.len()
            invariant_except_break
                !found,
            invariant
                i <= self.entries@.len(),
                self.entries@ == before,
                name@ == key,
                ascending(names_of(before)),
                forall|j: int| 0 <= j < i ==> name_lt(before[j].name@, key),
            ensures
                i <= self.entries@.len(),
                self.entries@ == before,
                name@ == key,
                forall|j: int| 0 <= j < i ==> name_lt(before[j].name@, key),
                found ==> i < before.len() && before[i as int].name@ == key,
                !found ==> forall|j: int| i <= j < before.len() ==> name_lt(key, before[j].name@),
            decreases self.entries@.len() - i,
        {
            match order(self.entries[i].name.as_str().as_bytes(), name.as_str().as_bytes()) {
                Order::Less => {},
                Order::Equal => {
                    proof {
                        lemma_name_of_bytes(before[i as int].name@, key);
                    }
                    found = true;
                    break ;
                },
                Order::Greater => {
                    proof {
                        assert forall|j: int| i <= j < before.len() implies name_lt(
                            key,
                            before[j].name@,
                        ) by {
                            if i < j {
                                assert(name_lt(names_of(before)[i as int], names_of(before)[j]));
                                lemma_lt_transitive(
                                    encode_utf8(key),
                                    encode_utf8(before[i as int].name@),
                                    encode_utf8(before[j].name@),
                                );
                            }
                        }
                    }
                    break ;
                },
            }
            i += 1;
        }
        let entry = CfEntry { name, handle };
        if found {
            proof {
                Self::lemma_replaced(before, i as int, entry);
            }
            self.entries.set(i, entry);
        } else {
            proof {
                Self::lemma_inserted(before, i as int, entry);
            }
            self.entries.insert(i, entry);
        }
        proof {
            self.lemma_listed();
        }
    }

    proof fn lemma_replaced(before: Seq<CfEntry>, i: int, entry: CfEntry)
        requires
            ascending(names_of(before)),
            0 <= i < before.len(),
            before[i].name@ == entry.name@,
        ensures
            ascending(names_of(before.update(i, entry))),
            map_of(before.update(i, entry)) == map_of(before).insert(entry.name@, entry.handle),
    {
        let after = before.update(i, entry);
        assert(names_of(after) =~= names_of(before));
        assert forall|name: Seq<char>|
            map_of(after).contains_key(name) <==> map_of(before).insert(
                entry.name@,
                entry.handle,
            ).contains_key(name) by {
            if map_of(after).contains_key(name) {
                let j = place_of(after, name);
                assert(before[j].name@ == name);
            }
            if map_of(before).contains_key(name) {
                let j = place_of(before, name);
                assert(after[j].name@ == name);
            }
            if name == entry.name@ {
                assert(after[i].name@ == name);
            }
        }
        assert forall|name: Seq<char>| map_of(after).contains_key(name) implies map_of(after)[name]
            == map_of(before).insert(entry.name@, entry.handle)[name] by {
            let j = place_of(after, name);
            lemma_entry_in_map(after, j);
            lemma_entry_in_map(before, j);
            lemma_entry_in_map(before, i);
        }
        assert(map_of(after) =~= map_of(before).insert(entry.name@, entry.handle));
    }

    proof fn lemma_inserted(before: Seq<CfEntry>, i: int, entry: CfEntry)
        requires
            ascending(names_of(before)),
            0 <= i <= before.len(),
            forall|j: int| 0 <= j < i ==> name_lt(before[j].name@, entry.name@),
            forall|j: int| i <= j < before.len() ==> name_lt(entry.name@, before[j].name@),
        ensures
            ascending(names_of(before.insert(i, entry))),
            map_of(before.insert(i, entry)) == map_of(before).insert(entry.name@, entry.handle),
    {
        let after = before.insert(i, entry);
        assert forall|a: int, b: int| 0 <= a < b < names_of(after).len() implies name_lt(
            names_of(after)[a],
            names_of(after)[b],
        ) by {
            let a0 = if a < i { a } else { a - 1 };
            let b0 = if b < i { b } else { b - 1 };
            if a != i && b != i {
                assert(name_lt(names_of(before)[a0], names_of(before)[b0]));
            }
        }
        assert forall|name: Seq<char>|
            map_of(after).contains_key(name) <==> map_of(before).insert(
                entry.name@,
                entry.handle,
            ).contains_key(name) by {
            if map_of(after).contains_key(name) {
                let j = place_of(after, name);
                if j < i {
                    assert(before[j].name@ == name);
                } else if j > i {
                    assert(before[j - 1].name@ == name);
                }
            }
            if map_of(before).contains_key(name) {
                let j = place_of(before, name);
                if j < i {
                    assert(after[j].name@ == name);
                } else {
                    assert(after[j + 1].name@ == name);
                }
            }
            if name == entry.name@ {
                assert(after[i].name@ == name);
            }
        }
        assert forall|name: Seq<char>| map_of(after).contains_key(name) implies map_of(after)[name]
            == map_of(before).insert(entry.name@, entry.handle)[name] by {
            let j = place_of(after, name);
            lemma_entry_in_map(after, j);
            if j < i {
                lemma_entry_in_map(before, j);
                lemma_lt_asymmetric(encode_utf8(before[j].name@), encode_utf8(entry.name@));
            } else if j > i {
                lemma_entry_in_map(before, j - 1);
                lemma_lt_asymmetric(encode_utf8(entry.name@), encode_utf8(before[j - 1].name@));
            }
        }
        assert(map_of(after) =~= map_of(before).insert(entry.name@, entry.handle));
    }

    /// The names of the column families, ascending by their bytes.
    pub fn names_vec(&self) -> (r: Vec<&str>)
        requires
            self.wf(),
        ensures
            r@.len() == self.names().len(),
            forall|i: int| 0 <= i < r@.len() ==> (#[trigger] r@[i])@ == self.names()[i],
            self.listed(),
    {
        proof {
            self.lemma_listed();
        }
        let mut out: Vec<&str> = Vec::new();
        let mut i: usize = 0;
        while i < self.entries.len()
            invariant
                i <= self.entries@.len(),
                out@.len() == i,
                forall|j: int| 0 <= j < i ==> (#[trigger] out@[j])@ == self.entries@[j].name@,
            decreases self.entries@.len() - i,
        {
            out.push(self.entries[i].name.as_str());
            i += 1;
        }
        out
    }

    /// The handles of the column families, in the order of their names.
    pub fn handles_vec(&self) -> (r: Vec<DBCFHandle>)
        requires
            self.wf(),
        ensures
            r@ == self.handles(),
            self.listed(),
    {
        proof {
            self.lemma_listed();
        }
        let mut out: Vec<DBCFHandle> = Vec::new();
        let mut i: usize = 0;
        while i < self.entries.len()
            invariant
                i <= self.entries@.len(),
                out@.len() == i,
                forall|j: int| 0 <= j < i ==> out@[j] == self.entries@[j].handle,
            decreases self.entries@.len() - i,
        {
            out.push(self.entries[i].handle);
            i += 1;
        }
        assert(out@ =~= self.handles());
        out
    }
}

} // verus!
