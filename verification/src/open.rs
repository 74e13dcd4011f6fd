//! Opening a database: what is checked before the engine is asked.

use vstd::prelude::*;
use vstd::slice::slice_to_vec;
use vstd::string::*;
use vstd::utf8::*;
use crate::bytes::{order, Order};
use crate::c_string::{is_c_string, zero_free};
use crate::cf_map::lemma_name_of_bytes;
use crate::error::{directory_failed, lengths_differ, path_not_c_string};
use crate::options::Options;

verus! {

/// The name of the column family that every database has.
pub const DEFAULT_COLUMN_FAMILY: &'static str = "default";

/// The name of the column family that every database has.
pub open spec fn default_name() -> Seq<char> {
    "default"@
}

/// The texts of a list of names.
pub open spec fn texts(names: Seq<&str>) -> Seq<Seq<char>> {
    names.map_values(|name: &str| name@)
}

/// Every name of the list can go to the engine as a C string.
pub open spec fn all_c_strings(names: Seq<Seq<char>>) -> bool {
    forall|i: int| 0 <= i < names.len() ==> zero_free(encode_utf8(#[trigger] names[i]))
}

/// The column families that are opened when the caller names `cfs`: the
/// default one is added behind them unless it is among them.
pub open spec fn with_default(cfs: Seq<Seq<char>>) -> Seq<Seq<char>> {
    if cfs.contains(default_name()) {
        cfs
    } else {
        cfs.push(default_name())
    }
}

/// The options of the column families that are opened: where the default
/// column family is added, it gets the options of the database.
pub open spec fn with_default_opts(
    cfs: Seq<Seq<char>>,
    cf_opts: Seq<Options>,
    opts: Options,
) -> Seq<Options> {
    if cfs.contains(default_name()) {
        cf_opts
    } else {
        cf_opts.push(opts)
    }
}

/// A database that is about to be opened: its path is known to be good, its
/// directory is still to be made.
#[derive(Debug)]
pub struct Opening<'a> {
    opts: Options,
    create_if_missing: bool,
    path: &'a str,
    cfs: Vec<&'a str>,
    cf_opts: Vec<Options>,
}

impl<'a> Opening<'a> {
    #[verifier::type_invariant]
    spec fn checked(self) -> bool {
        &&& zero_free(self.path.spec_bytes())
        &&& all_c_strings(texts(self.cfs@))
        &&& self.cfs@.len() < i32::MAX
    }

    /// The options of the database.
    pub closed spec fn spec_opts(self) -> Options {
        self.opts
    }

    /// Whether the options are first made to say that a missing database is
    /// created. Otherwise they stay as the caller made them.
    pub closed spec fn spec_create_if_missing(self) -> bool {
        self.create_if_missing
    }

    /// Where the database lies.
    pub closed spec fn spec_path(self) -> Seq<char> {
        self.path@
    }

    /// The column families that the caller named.
    pub closed spec fn spec_cfs(self) -> Seq<Seq<char>> {
        texts(self.cfs@)
    }

    /// The options that the caller gave for them.
    pub closed spec fn spec_cf_opts(self) -> Seq<Options> {
        self.cf_opts@
    }

    /// The first step of opening a database: the path has to be one that can
    /// go to the engine. The column families are counted in 32 bits, and
    /// their names go to the engine as C strings.
    pub fn new(
        opts: &Options,
        create_if_missing: bool,
        path: &'a str,
        cfs: &[&'a str],
        cf_opts: &[&Options],
    ) -> (r: Result<Opening<'a>, String>)
        requires
            cfs@.len() < i32::MAX,
            all_c_strings(texts(cfs@)),
        ensures
            r.is_ok() <==> zero_free(encode_utf8(path@)),
            r matches Err(e) ==> e@ == path_not_c_string(),
            r matches Ok(o) ==> {
                &&& o.spec_opts() == *opts
                &&& o.spec_create_if_missing() == create_if_missing
                &&& o.spec_path() == path@
                &&& o.spec_cfs() == texts(cfs@)
                &&& o.spec_cf_opts() == cf_opts@.map_values(|o: &Options| *o)
            },
    {
        if !is_c_string(path) {
            return Err("Failed to convert path to CString when opening rocksdb".to_owned());
        }
        let mut options: Vec<Options> = Vec::new();
        let mut i: usize = 0;
        while i < cf_opts.len()
            invariant
                i <= cf_opts@.len(),
                options@.len() == i,
                forall|j: int| 0 <= j < i ==> options@[j] == *cf_opts@[j],
            decreases cf_opts@.len() - i,
        {
            options.push(*cf_opts[i]);
            i += 1;
        }
        assert(options@ =~= cf_opts@.map_values(|o: &Options| *o));
        Ok(Opening { opts: *opts, create_if_missing, path, cfs: slice_to_vec(cfs), cf_opts: options })
    }

    /// Where the database lies: the directory that is to be made.
    pub fn path(&self) -> (r: &'a str)
        ensures
            r@ == self.spec_path(),
            zero_free(encode_utf8(r@)),
    {
        proof {
            use_type_invariant(self);
        }
        self.path
    }

    /// The second step: the directory of the database was made, or could not
    /// be made, and `made` says which, with the file system's words. Then the
    /// column families and their options have to be equally many; the default
    /// column family joins them unless the caller named it.
    pub fn directory_made(self, made: Result<(), String>) -> (r: Result<OpenCall<'a>, String>)
        ensures
            match made {
                Err(text) => r matches Err(e) && e@ == directory_failed() + text@,
                Ok(_) => if self.spec_cfs().len() != self.spec_cf_opts().len() {
                    r matches Err(e) && e@ == lengths_differ()
                } else {
                    r matches Ok(call) && {
                        &&& call.spec_opts() == self.spec_opts()
                        &&& call.spec_create_if_missing() == self.spec_create_if_missing()
                        &&& call.spec_path() == self.spec_path()
                        &&& call.spec_names() == with_default(self.spec_cfs())
                        &&& call.spec_cf_opts() == with_default_opts(
                            self.spec_cfs(),
                            self.spec_cf_opts(),
                            self.spec_opts(),
                        )
                    }
                },
            },
    {
        proof {
            use_type_invariant(&self);
        }
        if let Err(text) = made {
            return Err(
                String::from_str("Failed to create rocksdb directory: ").concat(text.as_str()),
            );
        }
        if self.cfs.len() != self.cf_opts.len() {
            return Err("cfs.len() and cf_opts.len() not match.".to_owned());
        }
        let Opening { opts, create_if_missing, path, cfs, cf_opts } = self;
        let mut names = cfs;
        let mut options = cf_opts;
        let ghost asked = texts(names@);
        let mut present = false;
        let mut i: usize = 0;
        while i < names.len()
            invariant
                i <= names@.len(),
                texts(names@) == asked,
                present <==> exists|j: int| 0 <= j < i && asked[j] == default_name(),
            decreases names@.len() - i,
        {
            match order(names[i].as_bytes(), DEFAULT_COLUMN_FAMILY.as_bytes()) {
                Order::Equal => {
                    proof {
                        lemma_name_of_bytes(names@[i as int]@, default_name());
                        assert(asked[i as int] == default_name());
                    }
                    present = true;
                },
                _ => {
                    assert(asked[i as int] != default_name());
                },
            }
            i += 1;
        }
        proof {
            assert(present <==> asked.contains(default_name()));
            reveal_strlit("default");
            assert(zero_free(encode_utf8(default_name()))) by {
                is_ascii_chars_encode_utf8(default_name());
            }
        }
        if !present {
            names.push(DEFAULT_COLUMN_FAMILY);
            options.push(opts);
            proof {
                assert(texts(names@) =~= asked.push(default_name()));
                assert(texts(names@)[asked.len() as int] == default_name());
            }
        } else {
            proof {
                let j = choose|j: int| 0 <= j < asked.len() && asked[j] == default_name();
                assert(texts(names@)[j] == default_name());
            }
        }
        Ok(OpenCall { opts, create_if_missing, path, names, cf_opts: options })
    }
}

/// The call that opens a database with its column families: the engine takes
/// the names and the options as two arrays of one length.
#[derive(Debug)]
pub struct OpenCall<'a> {
    opts: Options,
    create_if_missing: bool,
    path: &'a str,
    names: Vec<&'a str>,
    cf_opts: Vec<Options>,
}

impl<'a> OpenCall<'a> {
    #[verifier::type_invariant]
    spec fn checked(self) -> bool {
        &&& zero_free(self.path.spec_bytes())
        &&& all_c_strings(texts(self.names@))
        &&& self.names@.len() <= i32::MAX
        &&& self.names@.len() == self.cf_opts@.len()
        &&& texts(self.names@).contains(default_name())
    }

    /// The options of the database.
    pub closed spec fn spec_opts(self) -> Options {
        self.opts
    }

    /// Whether the options are first made to say that a missing database is
    /// created. Otherwise they stay as the caller made them.
    pub closed spec fn spec_create_if_missing(self) -> bool {
        self.create_if_missing
    }

    /// Where the database lies.
    pub closed spec fn spec_path(self) -> Seq<char> {
        self.path@
    }

    /// The column families to open.
    pub closed spec fn spec_names(self) -> Seq<Seq<char>> {
        texts(self.names@)
    }

    /// Their options, place by place.
    pub closed spec fn spec_cf_opts(self) -> Seq<Options> {
        self.cf_opts@
    }

    /// What holds of every such call: path and names are C strings, the
    /// options are as many as the names, their number fits in 32 bits, and
    /// the default column family is among them.
    pub open spec fn sound(self) -> bool {
        &&& zero_free(encode_utf8(self.spec_path()))
        &&& all_c_strings(self.spec_names())
        &&& self.spec_names().len() <= i32::MAX
        &&& self.spec_names().len() == self.spec_cf_opts().len()
        &&& self.spec_names().contains(default_name())
    }

    /// The options of the database.
    pub fn opts(&self) -> (r: Options)
        ensures
            r == self.spec_opts(),
    {
        self.opts
    }

    /// Whether the options are first made to say that a missing database is
    /// created.
    pub fn create_if_missing(&self) -> (r: bool)
        ensures
            r == self.spec_create_if_missing(),
    {
        self.create_if_missing
    }

    /// Where the database lies.
    pub fn path(&self) -> (r: &'a str)
        ensures
            r@ == self.spec_path(),
            self.sound(),
    {
        proof {
            use_type_invariant(self);
        }
        self.path
    }

    /// The column families to open.
    pub fn names(&self) -> (r: &[&'a str])
        ensures
            texts(r@) == self.spec_names(),
            self.sound(),
    {
        proof {
            use_type_invariant(self);
        }
        self.names.as_slice()
    }

    /// Their options, place by place.
    pub fn cf_opts(&self) -> (r: &[Options])
        ensures
            r@ == self.spec_cf_opts(),
            self.sound(),
    {
        proof {
            use_type_invariant(self);
        }
        self.cf_opts.as_slice()
    }

    /// The number of column families, as the engine takes it.
    pub fn count(&self) -> (r: i32)
        ensures
            r == self.spec_names().len(),
            self.sound(),
    {
        proof {
            use_type_invariant(self);
        }
        self.names.len() as i32
    }
}

} // verus!
