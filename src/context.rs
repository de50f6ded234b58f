use vstd::prelude::*;
use crate::entry_points::EntryPoint;
use crate::keys::{ContractHash, Key, URef};

verus! {

/// What a context holds: the named-key registry, the storage cells by
/// address, and the deployed bundles of entry points by id.
pub struct ContextView {
    pub named_keys: Map<Seq<char>, Key>,
    pub cells: Seq<Seq<char>>,
    pub contracts: Seq<Seq<EntryPoint>>,
}

/// The most recent binding of `name` among `entries`.
pub open spec fn key_of(entries: Seq<(String, Key)>, name: Seq<char>) -> Option<Key>
    decreases entries.len(),
{
    if entries.len() == 0 {
        None
    } else if entries.last().0@ == name {
        Some(entries.last().1)
    } else {
        key_of(entries.drop_last(), name)
    }
}

/// The key bound to `name` in `v`'s registry, if any.
pub open spec fn lookup(v: ContextView, name: Seq<char>) -> Option<Key> {
    if v.named_keys.contains_key(name) {
        Some(v.named_keys[name])
    } else {
        None
    }
}

/// The text held by the cell that `u` addresses, if `u` addresses one.
pub open spec fn cell_value(v: ContextView, u: URef) -> Option<Seq<char>> {
    if u.addr < v.cells.len() {
        Some(v.cells[u.addr as int])
    } else {
        None
    }
}

/// The text stored under `name`: the cell that the key bound to `name`
/// addresses, if the key is a storage handle.
pub open spec fn deref(v: ContextView, name: Seq<char>) -> Option<Seq<char>> {
    match lookup(v, name) {
        Some(Key::URef(u)) => cell_value(v, u),
        _ => None,
    }
}

/// The state that one invocation runs against: a registry of named keys, an
/// allocator of storage cells, and the deployed contracts. Entries are never
/// removed; a name bound again is bound to the new key.
pub struct Context {
    named_keys: Vec<(String, Key)>,
    cells: Vec<String>,
    contracts: Vec<Vec<EntryPoint>>,
}

impl View for Context {
    type V = ContextView;

    closed spec fn view(&self) -> ContextView {
        ContextView {
            named_keys: Map::new(
                |n: Seq<char>| key_of(self.named_keys@, n) is Some,
                |n: Seq<char>| key_of(self.named_keys@, n)->Some_0,
            ),
            cells: self.cells@.map_values(|s: String| s@),
            contracts: self.contracts@.map_values(|eps: Vec<EntryPoint>| eps@),
        }
    }
}

impl Context {
    /// A fresh context: no named keys, no cells, no contracts.
    pub fn new() -> (r: Context)
        ensures
            r@.named_keys == Map::<Seq<char>, Key>::empty(),
            r@.cells == Seq::<Seq<char>>::empty(),
            r@.contracts == Seq::<Seq<EntryPoint>>::empty(),
    {
        let r = Context { named_keys: Vec::new(), cells: Vec::new(), contracts: Vec::new() };
        assert(r@.named_keys =~= Map::<Seq<char>, Key>::empty());
        assert(r@.cells =~= Seq::<Seq<char>>::empty());
        assert(r@.contracts =~= Seq::<Seq<EntryPoint>>::empty());
        r
    }

    /// The number of cells allocated so far.
    pub fn cell_count(&self) -> (r: usize)
        ensures
            r == self@.cells.len(),
    {
        self.cells.len()
    }

    /// The number of contracts deployed so far.
    pub fn contract_count(&self) -> (r: usize)
        ensures
            r == self@.contracts.len(),
    {
        self.contracts.len()
    }

    /// The key bound to `name`, if any.
    pub fn get_key(&self, name: &String) -> (r: Option<Key>)
        ensures
            r == lookup(self@, name@),
    {
        let ghost s = self.named_keys@;
        let mut i: usize = self.named_keys.len();
        assert(s.subrange(0, s.len() as int) =~= s);
        while i > 0
            invariant
                i <= s.len(),
                s == self.named_keys@,
                key_of(s, name@) == key_of(s.subrange(0, i as int), name@),
            decreases i,
        {
            let j: usize = i - 1;
            assert(s.subrange(0, i as int).drop_last() =~= s.subrange(0, j as int));
            if self.named_keys[j].0 == *name {
                return Some(self.named_keys[j].1);
            }
            i = j;
        }
        None
    }

    /// Binds `name` to `key`, replacing any earlier binding.
    pub fn put_key(&mut self, name: String, key: Key)
        ensures
            final(self)@ == (ContextView { named_keys: old(self)@.named_keys.insert(name@, key), ..old(self)@ }),
    {
        let ghost s = self.named_keys@;
        let ghost n = name@;
        self.named_keys.push((name, key));
        assert(self.named_keys@.drop_last() =~= s);
        assert forall|m: Seq<char>| key_of(self.named_keys@, m) == (if m == n { Some(key) } else { key_of(s, m) }) by {
            assert(self.named_keys@.drop_last() =~= s);
        }
        assert(self@.named_keys =~= old(self)@.named_keys.insert(n, key));
        assert(self@.cells =~= old(self)@.cells);
        assert(self@.contracts =~= old(self)@.contracts);
    }

    /// Allocates a fresh cell holding `value` and returns its handle, whose
    /// address no earlier handle has.
    pub fn new_uref(&mut self, value: String) -> (r: URef)
        requires
            old(self)@.cells.len() < u64::MAX,
        ensures
            r.addr == old(self)@.cells.len(),
            final(self)@ == (ContextView { cells: old(self)@.cells.push(value@), ..old(self)@ }),
    {
        let addr = self.cells.len() as u64;
        self.cells.push(value);
        assert(self@.cells =~= old(self)@.cells.push(value@));
        assert(self@.named_keys =~= old(self)@.named_keys);
        assert(self@.contracts =~= old(self)@.contracts);
        URef { addr }
    }

    /// Deploys `eps` as a new contract and returns its fresh identity.
    pub fn new_contract(&mut self, eps: Vec<EntryPoint>) -> (r: ContractHash)
        requires
            old(self)@.contracts.len() < u64::MAX,
        ensures
            r.id == old(self)@.contracts.len(),
            final(self)@ == (ContextView { contracts: old(self)@.contracts.push(eps@), ..old(self)@ }),
    {
        let id = self.contracts.len() as u64;
        let ghost e = eps@;
        self.contracts.push(eps);
        assert(self@.contracts =~= old(self)@.contracts.push(e));
        assert(self@.named_keys =~= old(self)@.named_keys);
        assert(self@.cells =~= old(self)@.cells);
        ContractHash { id }
    }

    /// The text held by the cell that `u` addresses.
    pub fn read(&self, u: URef) -> (r: Option<String>)
        ensures
            r is Some <==> cell_value(self@, u) is Some,
            r matches Some(s) ==> cell_value(self@, u) == Some(s@),
    {
        if u.addr < self.cells.len() as u64 {
            Some(self.cells[u.addr as usize].clone())
        } else {
            None
        }
    }

    /// The text stored under `name`.
    pub fn dereference(&self, name: &String) -> (r: Option<String>)
        ensures
            r is Some <==> deref(self@, name@) is Some,
            r matches Some(s) ==> deref(self@, name@) == Some(s@),
    {
        match self.get_key(name) {
            Some(Key::URef(u)) => self.read(u),
            _ => None,
        }
    }
}

} // verus!
