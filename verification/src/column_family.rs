//! Column families: named partitions of one database's keyspace, and the
//! registry that maps each name to its handle.

use vstd::prelude::*;
use vstd::string::StringExecFns;
use crate::bytes::same;

verus! {

/// A capability for one column family of one database. The engine issues
/// it; the layer only carries it. Zero stands for the engine's null handle.
#[derive(Clone, Copy, Debug, PartialEq, Eq, Structural)]
pub struct ColumnFamily {
    pub inner: usize,
}

impl ColumnFamily {
    /// Whether this is the null handle, which names no family.
    pub fn is_null(&self) -> (r: bool)
        ensures
            r == (self.inner == 0),
    {
        self.inner == 0
    }
}

/// Decides whether two strings hold the same text.
pub fn same_text(a: &str, b: &str) -> (r: bool)
    ensures
        r == (a@ == b@),
{
    let r = same(a.as_bytes(), b.as_bytes());
    proof {
        vstd::utf8::encode_utf8_decode_utf8(a@);
        vstd::utf8::encode_utf8_decode_utf8(b@);
    }
    r
}

/// A name with the handle registered under it.
pub type Registration = (String, ColumnFamily);

/// No name occurs twice.
pub open spec fn distinct(pairs: Seq<Registration>) -> bool {
    forall|i: int, j: int| 0 <= i < j < pairs.len() ==> (#[trigger] pairs[i]).0@ != (#[trigger] pairs[j]).0@
}

/// Whether `name` is one of the names.
pub open spec fn listed(pairs: Seq<Registration>, name: Seq<char>) -> bool {
    exists|i: int| 0 <= i < pairs.len() && (#[trigger] pairs[i]).0@ == name
}

/// The place of `name` among the names.
pub open spec fn place(pairs: Seq<Registration>, name: Seq<char>) -> int {
    choose|i: int| 0 <= i < pairs.len() && (#[trigger] pairs[i]).0@ == name
}

/// The mapping that a list of registrations stands for.
pub open spec fn mapping(pairs: Seq<Registration>) -> Map<Seq<char>, ColumnFamily> {
    Map::new(|name: Seq<char>| listed(pairs, name), |name: Seq<char>| pairs[place(pairs, name)].1)
}

/// Whether `handle` is the handle of one of `families`.
pub open spec fn issued(families: Map<Seq<char>, ColumnFamily>, handle: ColumnFamily) -> bool {
    exists|name: Seq<char>| families.contains_key(name) && #[trigger] families[name] == handle
}

/// In a list without repetition each name maps to the handle at its place.
pub proof fn mapping_at(pairs: Seq<Registration>, i: int)
    requires
        distinct(pairs),
        0 <= i < pairs.len(),
    ensures
        mapping(pairs).contains_key(pairs[i].0@),
        mapping(pairs)[pairs[i].0@] == pairs[i].1,
        place(pairs, pairs[i].0@) == i,
{
    assert(listed(pairs, pairs[i].0@));
    let j = place(pairs, pairs[i].0@);
    assert(0 <= j < pairs.len() && pairs[j].0@ == pairs[i].0@);
    if j < i {
        assert(pairs[j].0@ != pairs[i].0@);
    } else if i < j {
        assert(pairs[i].0@ != pairs[j].0@);
    }
}

/// A list of registrations without repetition stands for as many families
/// as it has entries.
pub proof fn domain_size(pairs: Seq<Registration>)
    requires
        distinct(pairs),
    ensures
        mapping(pairs).dom().finite(),
        mapping(pairs).dom().len() == pairs.len(),
    decreases pairs.len(),
{
    let m = mapping(pairs);
    if pairs.len() == 0 {
        assert(m.dom() =~= Set::<Seq<char>>::empty());
    } else {
        let last = pairs.len() - 1;
        let shorter = pairs.drop_last();
        assert(distinct(shorter)) by {
            assert forall|i: int, j: int| 0 <= i < j < shorter.len() implies (#[trigger] shorter[i]).0@ != (
            #[trigger] shorter[j]).0@ by {
                assert(shorter[i] == pairs[i] && shorter[j] == pairs[j]);
            }
        }
        domain_size(shorter);
        let smaller = mapping(shorter);
        assert(!smaller.dom().contains(pairs[last].0@)) by {
            if listed(shorter, pairs[last].0@) {
                let j = place(shorter, pairs[last].0@);
                assert(shorter[j] == pairs[j]);
                assert(pairs[j].0@ != pairs[last].0@);
            }
        }
        assert(m.dom() =~= smaller.dom().insert(pairs[last].0@)) by {
            assert forall|n: Seq<char>| listed(pairs, n) <==> (listed(shorter, n) || n == pairs[last].0@) by {
                if listed(pairs, n) {
                    let j = place(pairs, n);
                    if j < last {
                        assert(shorter[j] == pairs[j]);
                    }
                }
                if listed(shorter, n) {
                    let j = place(shorter, n);
                    assert(shorter[j] == pairs[j]);
                }
                if n == pairs[last].0@ {
                    assert(pairs[last].0@ == n);
                }
            }
        }
    }
}

/// Where `name` stands among the registrations, if it does.
fn find(pairs: &Vec<Registration>, name: &str) -> (r: Option<usize>)
    ensures
        r is Some ==> r->Some_0 < pairs.len() && pairs@[r->Some_0 as int].0@ == name@,
        r is None ==> !listed(pairs@, name@),
{
    let mut i: usize = 0;
    while i < pairs.len()
        invariant
            i <= pairs.len(),
            forall|j: int| 0 <= j < i ==> (#[trigger] pairs@[j]).0@ != name@,
        decreases pairs.len() - i,
    {
        if same_text(pairs[i].0.as_str(), name) {
            return Some(i);
        }
        i += 1;
    }
    None
}

/// The families of one database, by name. Every name stands for one handle.
#[derive(Debug)]
pub struct ColumnFamilyRegistry {
    pairs: Vec<Registration>,
}

impl View for ColumnFamilyRegistry {
    type V = Map<Seq<char>, ColumnFamily>;

    closed spec fn view(&self) -> Map<Seq<char>, ColumnFamily> {
        mapping(self.pairs@)
    }
}

impl ColumnFamilyRegistry {
    #[verifier::type_invariant]
    spec fn inv(self) -> bool {
        distinct(self.pairs@)
    }

    /// A registry without families.
    pub fn new() -> (r: ColumnFamilyRegistry)
        ensures
            r@ == Map::<Seq<char>, ColumnFamily>::empty(),
    {
        let r = ColumnFamilyRegistry { pairs: Vec::new() };
        assert(r@ =~= Map::<Seq<char>, ColumnFamily>::empty());
        r
    }

    /// The number of registered families.
    pub fn len(&self) -> (n: usize)
        ensures
            self@.dom().finite(),
            n == self@.dom().len(),
    {
        proof {
            use_type_invariant(self);
            domain_size(self.pairs@);
        }
        self.pairs.len()
    }

    /// The handle registered under `name`, if there is one.
    pub fn get(&self, name: &str) -> (r: Option<ColumnFamily>)
        ensures
            r == (if self@.contains_key(name@) {
                Some(self@[name@])
            } else {
                None
            }),
    {
        proof {
            use_type_invariant(self);
        }
        match find(&self.pairs, name) {
            Some(i) => {
                proof {
                    mapping_at(self.pairs@, i as int);
                }
                Some(self.pairs[i].1)
            },
            None => None,
        }
    }

    /// Whether `handle` is the handle of a registered family.
    pub fn holds(&self, handle: ColumnFamily) -> (r: bool)
        ensures
            r == issued(self@, handle),
    {
        proof {
            use_type_invariant(self);
        }
        let mut i: usize = 0;
        while i < self.pairs.len()
            invariant
                i <= self.pairs.len(),
                distinct(self.pairs@),
                forall|j: int| 0 <= j < i ==> (#[trigger] self.pairs@[j]).1 != handle,
            decreases self.pairs.len() - i,
        {
            if self.pairs[i].1 == handle {
                proof {
                    mapping_at(self.pairs@, i as int);
                    assert(self@[self.pairs@[i as int].0@] == handle);
                }
                return true;
            }
            i += 1;
        }
        proof {
            assert forall|name: Seq<char>| self@.contains_key(name) implies #[trigger] self@[name]
                != handle by {
                let j = place(self.pairs@, name);
                assert(self@[name] == self.pairs@[j].1);
            }
        }
        false
    }

    /// Registers `handle` under `name`, in place of any handle that the name
    /// had, and returns that earlier handle.
    pub fn insert(&mut self, name: &str, handle: ColumnFamily) -> (r: Option<ColumnFamily>)
        ensures
            final(self)@ == old(self)@.insert(name@, handle),
            r == (if old(self)@.contains_key(name@) {
                Some(old(self)@[name@])
            } else {
                None
            }),
    {
        proof {
            use_type_invariant(&*self);
        }
        let mut pairs: Vec<Registration> = Vec::new();
        core::mem::swap(&mut pairs, &mut self.pairs);
        let ghost before = pairs@;
        let found = find(&pairs, name);
        let earlier = match found {
            Some(i) => {
                let earlier = pairs[i].1;
                pairs.set(i, (String::from_str(name), handle));
                proof {
                    let after = pairs@;
                    mapping_at(before, i as int);
                    assert(distinct(after)) by {
                        assert forall|a: int, b: int| 0 <= a < b < after.len() implies (#[trigger] after[a]).0@
                            != (#[trigger] after[b]).0@ by {
                            assert(after[a].0@ == before[a].0@ && after[b].0@ == before[b].0@);
                        }
                    }
                    assert forall|n: Seq<char>| listed(after, n) <==> listed(before, n) by {
                        if listed(after, n) {
                            let j = place(after, n);
                            assert(before[j].0@ == n);
                        }
                        if listed(before, n) {
                            let j = place(before, n);
                            assert(after[j].0@ == n);
                        }
                    }
                    assert forall|n: Seq<char>| listed(after, n) implies #[trigger] mapping(after)[n] == mapping(
                        before,
                    ).insert(name@, handle)[n] by {
                        let j = place(after, n);
                        mapping_at(after, j);
                        assert(before[j].0@ == n);
                        mapping_at(before, j);
                    }
                    assert(mapping(after) =~= mapping(before).insert(name@, handle));
                }
                Some(earlier)
            },
            None => {
                pairs.push((String::from_str(name), handle));
                proof {
                    let after = pairs@;
                    assert(distinct(after)) by {
                        assert forall|a: int, b: int| 0 <= a < b < after.len() implies (#[trigger] after[a]).0@
                            != (#[trigger] after[b]).0@ by {
                            if b == before.len() {
                                assert(after[a] == before[a]);
                            } else {
                                assert(after[a] == before[a] && after[b] == before[b]);
                            }
                        }
                    }
                    assert forall|n: Seq<char>| listed(after, n) <==> (listed(before, n) || n == name@) by {
                        if listed(before, n) {
                            let j = place(before, n);
                            assert(after[j] == before[j]);
                        }
                        if n == name@ {
                            assert(after[before.len() as int].0@ == n);
                        }
                        if listed(after, n) {
                            let j = place(after, n);
                            if j < before.len() {
                                assert(after[j] == before[j]);
                            }
                        }
                    }
                    assert forall|n: Seq<char>| listed(after, n) implies #[trigger] mapping(after)[n] == mapping(
                        before,
                    ).insert(name@, handle)[n] by {
                        let j = place(after, n);
                        mapping_at(after, j);
                        if j < before.len() {
                            assert(after[j] == before[j]);
                            mapping_at(before, j);
                        }
                    }
                    assert(mapping(after) =~= mapping(before).insert(name@, handle));
                }
                None
            },
        };
        self.pairs = pairs;
        earlier
    }

    /// Takes the family registered under `name` out of the registry and
    /// returns its handle, or nothing when the name is not registered.
    pub fn remove(&mut self, name: &str) -> (r: Option<ColumnFamily>)
        ensures
            final(self)@ == old(self)@.remove(name@),
            r == (if old(self)@.contains_key(name@) {
                Some(old(self)@[name@])
            } else {
                None
            }),
    {
        proof {
            use_type_invariant(&*self);
        }
        let mut pairs: Vec<Registration> = Vec::new();
        core::mem::swap(&mut pairs, &mut self.pairs);
        let ghost before = pairs@;
        let found = find(&pairs, name);
        let earlier = match found {
            Some(i) => {
                let taken = pairs.remove(i);
                proof {
                    let after = pairs@;
                    mapping_at(before, i as int);
                    assert forall|a: int| 0 <= a < after.len() implies #[trigger] after[a] == before[if a < i {
                        a
                    } else {
                        a + 1
                    }] by {}
                    assert(distinct(after)) by {
                        assert forall|a: int, b: int| 0 <= a < b < after.len() implies (#[trigger] after[a]).0@
                            != (#[trigger] after[b]).0@ by {
                            let x = if a < i { a } else { a + 1 };
                            let y = if b < i { b } else { b + 1 };
                            assert(after[a] == before[x] && after[b] == before[y]);
                            assert(before[x].0@ != before[y].0@);
                        }
                    }
                    assert forall|n: Seq<char>| listed(after, n) <==> (listed(before, n) && n != name@) by {
                        if listed(after, n) {
                            let a = place(after, n);
                            let x = if a < i { a } else { a + 1 };
                            assert(after[a] == before[x]);
                            assert(before[x].0@ == n);
                            if x < i {
                                assert(before[x].0@ != before[i as int].0@);
                            } else {
                                assert(before[i as int].0@ != before[x].0@);
                            }
                        }
                        if listed(before, n) && n != name@ {
                            let x = place(before, n);
                            let a = if x < i { x } else { x - 1 };
                            assert(after[a] == before[x]);
                        }
                    }
                    assert forall|n: Seq<char>| listed(after, n) implies #[trigger] mapping(after)[n] == mapping(
                        before,
                    ).remove(name@)[n] by {
                        let a = place(after, n);
                        let x = if a < i { a } else { a + 1 };
                        assert(after[a] == before[x]);
                        mapping_at(after, a);
                        mapping_at(before, x);
                    }
                    assert(mapping(after) =~= mapping(before).remove(name@));
                }
                Some(taken.1)
            },
            None => {
                assert(mapping(before) =~= mapping(before).remove(name@));
                None
            },
        };
        self.pairs = pairs;
        earlier
    }

    /// The handles of all registered families, each family once.
    pub fn handles(&self) -> (r: Vec<ColumnFamily>)
        ensures
            self@.dom().finite(),
            r@.len() == self@.dom().len(),
            forall|i: int| 0 <= i < r@.len() ==> issued(self@, #[trigger] r@[i]),
            forall|n: Seq<char>| self@.contains_key(n) ==> r@.contains(#[trigger] self@[n]),
    {
        proof {
            use_type_invariant(self);
            domain_size(self.pairs@);
        }
        let mut r: Vec<ColumnFamily> = Vec::new();
        let mut i: usize = 0;
        while i < self.pairs.len()
            invariant
                i <= self.pairs.len(),
                r@.len() == i,
                forall|j: int| 0 <= j < i ==> #[trigger] r@[j] == self.pairs@[j].1,
            decreases self.pairs.len() - i,
        {
            r.push(self.pairs[i].1);
            i += 1;
        }
        proof {
            assert forall|i: int| 0 <= i < r@.len() implies issued(self@, #[trigger] r@[i]) by {
                mapping_at(self.pairs@, i);
                assert(self@[self.pairs@[i].0@] == r@[i]);
            }
            assert forall|n: Seq<char>| self@.contains_key(n) implies r@.contains(#[trigger] self@[n]) by {
                let j = place(self.pairs@, n);
                assert(r@[j] == self@[n]);
            }
        }
        r
    }
}

} // verus!
