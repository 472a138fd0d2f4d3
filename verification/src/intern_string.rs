//! Interned strings.

use vstd::prelude::*;
use std::rc::Rc;
use std::rc::Weak;
use weak_table::WeakHashSet;

verus! {

/// The weak hash set that backs the symbol table. It refers to `Weak`, a
/// std type that cannot be declared to the verifier, so the set is kept
/// out of its sight and reached through the three functions below.
#[verifier::external_body]
pub struct SymbolPool {
    set: WeakHashSet<Weak<String>>,
}

/// The texts of the strings that a pool has entries for. The pool holds
/// its strings weakly: the entry of a string that nothing else refers to
/// any more is of no use, and stays only until the pool drops it.
pub uninterp spec fn pool_texts(pool: SymbolPool) -> Set<Seq<char>>;

/// An interned string. Two symbols are equal when they spell the same text.
#[derive(Debug, PartialEq, Eq, Hash)]
pub struct Symbol {
    intern: Rc<String>,
}

impl View for Symbol {
    type V = Seq<char>;

    closed spec fn view(&self) -> Seq<char> {
        (*self.intern)@
    }
}

/// Makes one more handle to a shared string through `Rc::clone`: the new
/// handle points to the same string.
#[verifier::external_body]
fn share(text: &Rc<String>) -> (shared: Rc<String>)
    ensures
        shared == *text,
{
    Rc::clone(text)
}

impl Symbol {
    fn new(intern: Rc<String>) -> (symbol: Symbol)
        ensures
            symbol@ == (*intern)@,
    {
        Symbol { intern }
    }

    /// The text of the symbol.
    pub fn as_str(&self) -> (text: &str)
        ensures
            text@ == self@,
    {
        self.intern.as_str()
    }

    /// Whether two symbols spell the same text.
    pub fn same(&self, other: &Symbol) -> (same: bool)
        ensures
            same == (self@ == other@),
    {
        *self.intern == *other.intern
    }
}

impl Clone for Symbol {
    fn clone(&self) -> (symbol: Symbol)
        ensures
            symbol == *self,
    {
        Symbol { intern: share(&self.intern) }
    }
}

/// The table of interned strings. It holds its strings weakly: a string
/// that no symbol refers to any more may leave the table.
pub struct SymbolTable {
    pool: SymbolPool,
}

/// Makes a set through `WeakHashSet::new`, which has no entry.
#[verifier::external_body]
fn pool_new() -> (pool: SymbolPool)
    ensures
        pool_texts(pool) == Set::<Seq<char>>::empty(),
{
    SymbolPool { set: WeakHashSet::new() }
}

/// Looks a text up through `WeakHashSet::get`, which hands out a strong
/// reference to the string of an entry that equals the key, if the pool
/// has such an entry and its string is alive.
#[verifier::external_body]
fn pool_get(pool: &SymbolPool, name: &String) -> (found: Option<Rc<String>>)
    ensures
        found matches Some(text) ==> (*text)@ == name@ && pool_texts(*pool).contains(name@),
{
    pool.set.get(name)
}

/// Stores a string through `WeakHashSet::insert`: the pool has an entry
/// for its text afterwards. On the way the pool may drop entries whose
/// strings are gone; it gets no other new entry.
#[verifier::external_body]
fn pool_insert(pool: &mut SymbolPool, text: Rc<String>)
    ensures
        pool_texts(*final(pool)).contains((*text)@),
        pool_texts(*final(pool)).subset_of(pool_texts(*old(pool)).insert((*text)@)),
{
    pool.set.insert(text);
}

impl SymbolTable {
    /// The texts that the table has entries for: those that were
    /// interned, but for the ones that the table has dropped since no
    /// symbol referred to them any more.
    pub closed spec fn texts(&self) -> Set<Seq<char>> {
        pool_texts(self.pool)
    }

    /// A table without entries.
    pub fn new() -> (table: SymbolTable)
        ensures
            table.texts() == Set::<Seq<char>>::empty(),
    {
        SymbolTable { pool: pool_new() }
    }

    /// The symbol for `name`: the one already in the table, or else a new
    /// one, which enters the table. The table has an entry for the text
    /// afterwards, and no other new entry.
    pub fn intern(&mut self, name: String) -> (symbol: Symbol)
        ensures
            symbol@ == name@,
            final(self).texts().contains(name@),
            final(self).texts().subset_of(old(self).texts().insert(name@)),
    {
        match pool_get(&self.pool, &name) {
            Some(text) => Symbol::new(text),
            None => {
                let text = Rc::new(name);
                pool_insert(&mut self.pool, share(&text));
                Symbol::new(text)
            },
        }
    }
}

} // verus!
