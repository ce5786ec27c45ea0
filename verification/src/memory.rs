//! The in-memory backend.
//!
//! [`MemTable`] is the sequential core: a hash table from names to byte
//! vectors whose abstract value is a `Map<Seq<char>, Seq<u8>>`, with an
//! exact contract on every operation. [`MemoryCave`] shares one `MemTable`
//! between threads behind a reader-writer lock and implements the [`Cave`]
//! contract on top of it.

use vstd::prelude::*;

use vstd::hash_map::StringHashMap;
use vstd::rwlock::{RwLock, RwLockPredicate};

use crate::errors::Error;
use crate::res::{empty_ok, Res};
use crate::Cave;

verus! {

/// The sequential table behind [`MemoryCave`].
///
/// Its abstract value is the map from key names (as character sequences) to
/// the stored bytes. `get`, `set` and `delete` pin that map exactly: an
/// entry exists from the moment `set` succeeds until a later `delete`
/// succeeds, `set` replaces the whole prior value, and a `get` or `delete`
/// of an absent key fails with `NotFound` carrying the key's name.
pub struct MemTable {
    map: StringHashMap<Vec<u8>>,
}

impl View for MemTable {
    type V = Map<Seq<char>, Seq<u8>>;

    closed spec fn view(&self) -> Map<Seq<char>, Seq<u8>> {
        self.map@.map_values(|v: Vec<u8>| v@)
    }
}

impl MemTable {
    /// Create an empty table.
    pub fn new() -> (r: Self)
        ensures
            r@ == Map::<Seq<char>, Seq<u8>>::empty(),
    {
        let t = MemTable { map: StringHashMap::new() };
        proof {
            assert(t@ =~= Map::<Seq<char>, Seq<u8>>::empty());
        }
        t
    }

    /// Look a key up and return an independent copy of its bytes, or
    /// `NotFound` if no entry exists.
    pub fn get(&self, name: &str) -> (r: Res)
        ensures
            self@.contains_key(name@) ==> (r matches Ok(v) && v@ == self@[name@]),
            !self@.contains_key(name@) ==> (r matches Err(Error::NotFound(s)) && s@ == name@),
    {
        match self.map.get(name) {
            Some(data) => Ok(vstd::slice::slice_to_vec(data.as_slice())),
            None => Err(Error::NotFound(name.to_owned())),
        }
    }

    /// Create the entry if absent, or replace its whole value if present.
    pub fn set(&mut self, name: &str, data: &[u8]) -> (r: Res)
        ensures
            final(self)@ == old(self)@.insert(name@, data@),
            r matches Ok(v) && v@ == Seq::<u8>::empty(),
    {
        self.map.insert(name.to_owned(), vstd::slice::slice_to_vec(data));
        proof {
            assert(self@ =~= old(self)@.insert(name@, data@));
        }
        empty_ok()
    }

    /// Remove the entry, or fail with `NotFound` (leaving the table
    /// unchanged) if no entry exists.
    pub fn delete(&mut self, name: &str) -> (r: Res)
        ensures
            old(self)@.contains_key(name@) ==> final(self)@ == old(self)@.remove(name@)
                && (r matches Ok(v) && v@ == Seq::<u8>::empty()),
            !old(self)@.contains_key(name@) ==> final(self)@ == old(self)@
                && (r matches Err(Error::NotFound(s)) && s@ == name@),
    {
        if self.map.contains_key(name) {
            self.map.remove(name);
            proof {
                assert(self@ =~= old(self)@.remove(name@));
            }
            empty_ok()
        } else {
            Err(Error::NotFound(name.to_owned()))
        }
    }
}

/// The predicate placed on the lock of a [`MemoryCave`]: any table value may
/// be stored.
pub struct AnyTable;

impl RwLockPredicate<MemTable> for AnyTable {
    open spec fn inv(self, v: MemTable) -> bool {
        true
    }
}

/// A key-value store that stores keys in-memory.
///
/// The table is protected by a single reader-writer lock covering the whole
/// map, so reads run in parallel and writes are serialized. No data survives
/// the end of the process.
pub struct MemoryCave {
    table: RwLock<MemTable, AnyTable>,
}

impl MemoryCave {
    /// Create a new instance.
    pub fn new() -> Self {
        MemoryCave { table: RwLock::new(MemTable::new(), Ghost(AnyTable)) }
    }
}

impl Cave for MemoryCave {
    /// Because another thread may write between two calls, `&self` cannot
    /// pin which table the lookup sees; what is pinned is that every
    /// outcome is a value read from the table or `NotFound` carrying the
    /// asked-for name — never `Internal` or `Bug`.
    fn get(&self, name: &str) -> (r: Res)
        ensures
            r matches Err(e) ==> (e matches Error::NotFound(s) && s@ == name@),
    {
        let handle = self.table.acquire_read();
        let r = handle.borrow().get(name);
        handle.release_read();
        r
    }

    /// Storing in memory cannot fail: the result is always the empty
    /// success value.
    fn set(&self, name: &str, data: &[u8]) -> (r: Res)
        ensures
            r matches Ok(v) && v@ == Seq::<u8>::empty(),
    {
        let (mut t, handle) = self.table.acquire_write();
        let r = t.set(name, data);
        handle.release_write(t);
        r
    }

    /// Deleting either succeeds with the empty success value or fails with
    /// `NotFound` carrying the asked-for name — never `Internal` or `Bug`.
    fn delete(&self, name: &str) -> (r: Res)
        ensures
            r matches Ok(v) ==> v@ == Seq::<u8>::empty(),
            r matches Err(e) ==> (e matches Error::NotFound(s) && s@ == name@),
    {
        let (mut t, handle) = self.table.acquire_write();
        let r = t.delete(name);
        handle.release_write(t);
        r
    }
}

/// Law: a key that was never stored is absent from the empty table, so by
/// the contracts of [`MemTable::get`] and [`MemTable::delete`] both calls on
/// it fail with `NotFound` carrying that key.
pub proof fn lemma_fresh_key_absent(k: Seq<char>)
    ensures
        !Map::<Seq<char>, Seq<u8>>::empty().contains_key(k),
{
}

/// Law: after a store succeeds, reading the same key yields exactly the
/// stored bytes. [`MemTable::set`] turns a table `m` into `m.insert(k, v)`,
/// and on that table the contract of [`MemTable::get`] returns precisely
/// `v` — byte for byte, including when `v` is empty.
pub proof fn lemma_set_then_get(m: Map<Seq<char>, Seq<u8>>, k: Seq<char>, v: Seq<u8>)
    ensures
        m.insert(k, v).contains_key(k),
        m.insert(k, v)[k] == v,
{
}

/// Law: of two stores to the same key the last writer wins, with full
/// replacement. After `set(k, v1)` and then `set(k, v2)` the table is
/// `m.insert(k, v1).insert(k, v2)`, on which the contract of
/// [`MemTable::get`] returns `v2`.
pub proof fn lemma_overwrite(
    m: Map<Seq<char>, Seq<u8>>,
    k: Seq<char>,
    v1: Seq<u8>,
    v2: Seq<u8>,
)
    ensures
        m.insert(k, v1).insert(k, v2).contains_key(k),
        m.insert(k, v1).insert(k, v2)[k] == v2,
{
}

/// Law: after a delete succeeds the key is absent. [`MemTable::delete`]
/// turns a table `m` with the key into `m.remove(k)`, on which the contracts
/// of [`MemTable::get`] and of a second [`MemTable::delete`] both take the
/// `NotFound` branch, and the second delete leaves the table unchanged.
pub proof fn lemma_delete_then_absent(m: Map<Seq<char>, Seq<u8>>, k: Seq<char>)
    ensures
        !m.remove(k).contains_key(k),
{
}

} // verus!
