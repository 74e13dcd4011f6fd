//! Key ranges, and the arrays in which the engine takes a list of them.

use vstd::prelude::*;
use crate::bytes::{lex_le, lex_lt, order, Order};

verus! {

/// A range of keys: `start_key` belongs to it, `end_key` does not. The start
/// never sorts behind the end.
#[derive(Debug)]
pub struct Range<'a> {
    start_key: &'a [u8],
    end_key: &'a [u8],
}

impl<'a> Range<'a> {
    #[verifier::type_invariant]
    spec fn ordered(self) -> bool {
        lex_le(self.start_key@, self.end_key@)
    }

    /// The first key of the range.
    pub closed spec fn start(self) -> Seq<u8> {
        self.start_key@
    }

    /// The key at which the range ends.
    pub closed spec fn end(self) -> Seq<u8> {
        self.end_key@
    }

    /// The range from `start_key` up to `end_key`.
    pub fn new(start_key: &'a [u8], end_key: &'a [u8]) -> (r: Range<'a>)
        requires
            lex_le(start_key@, end_key@),
        ensures
            r.start() == start_key@,
            r.end() == end_key@,
    {
        Range { start_key, end_key }
    }

    /// The range from `start_key` up to `end_key`, refused when the start
    /// sorts behind the end.
    pub fn try_new(start_key: &'a [u8], end_key: &'a [u8]) -> (r: Option<Range<'a>>)
        ensures
            r.is_none() <==> lex_lt(end_key@, start_key@),
            r.is_some() <==> lex_le(start_key@, end_key@),
            r matches Some(range) ==> range.start() == start_key@ && range.end() == end_key@,
    {
        match order(start_key, end_key) {
            Order::Greater => None,
            _ => Some(Range { start_key, end_key }),
        }
    }

    /// The first key of the range.
    pub fn start_key(&self) -> (r: &'a [u8])
        ensures
            r@ == self.start(),
            lex_le(self.start(), self.end()),
    {
        proof {
            use_type_invariant(self);
        }
        self.start_key
    }

    /// The key at which the range ends.
    pub fn end_key(&self) -> (r: &'a [u8])
        ensures
            r@ == self.end(),
            lex_le(self.start(), self.end()),
    {
        proof {
            use_type_invariant(self);
        }
        self.end_key
    }
}

/// A list of ranges laid out as the engine takes it: four arrays of one
/// length, and a fifth of that length for the sizes that the engine fills in.
#[derive(Debug)]
pub struct RangeArrays<'a> {
    pub n: i32,
    pub start_keys: Vec<&'a [u8]>,
    pub start_key_lens: Vec<u64>,
    pub end_keys: Vec<&'a [u8]>,
    pub end_key_lens: Vec<u64>,
    pub sizes: Vec<u64>,
}

impl<'a> RangeArrays<'a> {
    /// The arrays hold the first `upto` of `ranges`, place by place, and no
    /// size yet.
    pub open spec fn holds(self, ranges: Seq<Range<'a>>, upto: int) -> bool {
        &&& self.start_keys@.len() == upto
        &&& self.start_key_lens@.len() == upto
        &&& self.end_keys@.len() == upto
        &&& self.end_key_lens@.len() == upto
        &&& self.sizes@.len() == upto
        &&& forall|i: int|
            0 <= i < upto ==> {
                &&& (#[trigger] self.start_keys@[i])@ == ranges[i].start()
                &&& self.start_key_lens@[i] == ranges[i].start().len()
                &&& self.end_keys@[i]@ == ranges[i].end()
                &&& self.end_key_lens@[i] == ranges[i].end().len()
                &&& self.sizes@[i] == 0
            }
    }

    /// The arrays are the layout of `ranges`.
    pub open spec fn lays_out(self, ranges: Seq<Range<'a>>) -> bool {
        &&& self.n == ranges.len()
        &&& self.holds(ranges, ranges.len() as int)
    }
}

/// Lays a list of ranges out for the engine. The engine counts them in 32
/// bits.
pub fn marshal<'a>(ranges: &[Range<'a>]) -> (r: RangeArrays<'a>)
    requires
        ranges@.len() <= i32::MAX,
    ensures
        r.lays_out(ranges@),
{
    let mut arrays = RangeArrays {
        n: ranges.len() as i32,
        start_keys: Vec::new(),
        start_key_lens: Vec::new(),
        end_keys: Vec::new(),
        end_key_lens: Vec::new(),
        sizes: Vec::new(),
    };
    let mut i: usize = 0;
    while i < ranges.len()
        invariant
            i <= ranges@.len(),
            arrays.n == ranges@.len(),
            arrays.holds(ranges@, i as int),
        decreases ranges@.len() - i,
    {
        let start = ranges[i].start_key();
        let end = ranges[i].end_key();
        arrays.start_keys.push(start);
        arrays.start_key_lens.push(start.len() as u64);
        arrays.end_keys.push(end);
        arrays.end_key_lens.push(end.len() as u64);
        arrays.sizes.push(0);
        i += 1;
    }
    arrays
}

} // verus!
