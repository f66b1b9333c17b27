//! Resolution of named entry points of the platform's GPU API.
//!
//! The implementation library is located dynamically, process-wide and at
//! most once; afterwards the handle is read-only.  A load that failed is
//! never retried: every later resolution simply reports a null address.
//! This module represents the outcome of that one-time load explicitly —
//! either a failed load or a loaded symbol table — and resolution is a
//! verified lookup against it.  (Resolving through the platform's own
//! query for extension functions is avoided: some implementations return
//! garbage pointers for unknown or core symbols, so only symbols the
//! library itself exports are trusted.)

use vstd::prelude::*;

verus! {

broadcast use vstd::string::group_string_axioms;

/// The address a symbol table assigns to `name`, or 0 when the table has
/// no entry of that name.  The first entry of a name wins.
pub open spec fn lookup(table: Seq<(String, u64)>, name: Seq<char>) -> u64
    decreases table.len(),
{
    if table.len() == 0 {
        0
    } else if table[0].0@ == name {
        table[0].1
    } else {
        lookup(table.drop_first(), name)
    }
}

/// The dynamically located GPU implementation library: either the record
/// of a failed load, or the table of symbols the library exports.
pub struct GlLibrary {
    loaded: bool,
    symbols: Vec<(String, u64)>,
}

impl GlLibrary {
    /// Whether the one-time load succeeded.
    pub closed spec fn is_loaded(self) -> bool {
        self.loaded
    }

    /// The loaded library's symbol table.
    pub closed spec fn table(self) -> Seq<(String, u64)> {
        self.symbols@
    }

    /// The address this library resolves `name` to: null if the load
    /// failed, and otherwise whatever the symbol table assigns.
    pub open spec fn spec_resolve(self, name: Seq<char>) -> u64 {
        if self.is_loaded() {
            lookup(self.table(), name)
        } else {
            0
        }
    }

    /// Records that no implementation library could be loaded.
    pub fn load_failed() -> (r: GlLibrary)
        ensures
            !r.is_loaded(),
    {
        GlLibrary { loaded: false, symbols: Vec::new() }
    }

    /// Records a successful load of a library exporting `symbols`.
    pub fn load(symbols: Vec<(String, u64)>) -> (r: GlLibrary)
        ensures
            r.is_loaded(),
            r.table() == symbols@,
    {
        GlLibrary { loaded: true, symbols }
    }

    /// Resolves a named entry point, returning its address or 0 if the
    /// library is not loaded or does not export the name.
    pub fn resolve(&self, addr: &str) -> (r: u64)
        ensures
            r == self.spec_resolve(addr@),
    {
        if !self.loaded {
            return 0;
        }
        let name: String = addr.to_string();
        let n = self.symbols.len();
        let mut i: usize = 0;
        proof {
            assert(self.table().skip(0) =~= self.table());
        }
        while i < n
            invariant
                self.is_loaded(),
                n == self.symbols.len(),
                i <= n,
                lookup(self.table(), addr@) == lookup(self.table().skip(i as int), addr@),
                name@ == addr@,
            decreases n - i,
        {
            let entry = &self.symbols[i];
            if entry.0 == name {
                proof {
                    let t = self.table().skip(i as int);
                    assert(t[0] == self.table()[i as int]);
                    assert(lookup(t, addr@) == t[0].1);
                }
                return entry.1;
            }
            proof {
                assert(self.table().skip(i as int).drop_first() =~= self.table().skip(i + 1));
                assert(self.table().skip(i as int)[0] == self.table()[i as int]);
            }
            i = i + 1;
        }
        proof {
            assert(self.table().skip(i as int).len() == 0);
        }
        0
    }
}

/// Resolves a named entry point from the implementation library, as
/// [`GlLibrary::resolve`] does.  Returns a raw address as a plain value,
/// or 0 if unresolved.
pub fn get_proc_address(lib: &GlLibrary, addr: &str) -> (r: u64)
    ensures
        r == lib.spec_resolve(addr@),
{
    lib.resolve(addr)
}

} // verus!
