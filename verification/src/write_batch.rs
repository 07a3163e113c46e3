//! Write batches: mutations staged in memory, in order, for one atomic
//! write.

use vstd::prelude::*;
use vstd::slice::slice_to_vec;
use crate::column_family::{issued, ColumnFamily, ColumnFamilyRegistry};
use crate::error::Error;

verus! {

/// One mutation of the keyspace, optionally scoped to a column family.
pub enum Mutation {
    Put { family: Option<ColumnFamily>, key: Seq<u8>, value: Seq<u8> },
    Merge { family: Option<ColumnFamily>, key: Seq<u8>, value: Seq<u8> },
    Delete { family: Option<ColumnFamily>, key: Seq<u8> },
}

/// One staged mutation.
#[derive(Debug)]
pub enum BatchOp {
    Put { family: Option<ColumnFamily>, key: Vec<u8>, value: Vec<u8> },
    Merge { family: Option<ColumnFamily>, key: Vec<u8>, value: Vec<u8> },
    Delete { family: Option<ColumnFamily>, key: Vec<u8> },
}

impl View for BatchOp {
    type V = Mutation;

    open spec fn view(&self) -> Mutation {
        match *self {
            BatchOp::Put { family, key, value } => Mutation::Put { family, key: key@, value: value@ },
            BatchOp::Merge { family, key, value } => Mutation::Merge { family, key: key@, value: value@ },
            BatchOp::Delete { family, key } => Mutation::Delete { family, key: key@ },
        }
    }
}

/// The column family that a mutation is scoped to, if any.
pub open spec fn family_of(mutation: Mutation) -> Option<ColumnFamily> {
    match mutation {
        Mutation::Put { family, .. } => family,
        Mutation::Merge { family, .. } => family,
        Mutation::Delete { family, .. } => family,
    }
}

/// Every mutation that is scoped to a column family is scoped to one of
/// `families`.
pub open spec fn all_within(mutations: Seq<Mutation>, families: Map<Seq<char>, ColumnFamily>) -> bool {
    forall|i: int|
        0 <= i < mutations.len() && family_of(#[trigger] mutations[i]) is Some ==> issued(
            families,
            family_of(mutations[i])->Some_0,
        )
}

/// The mutations that a list of staged operations stands for.
pub open spec fn mutations_of(ops: Seq<BatchOp>) -> Seq<Mutation> {
    Seq::new(ops.len(), |i: int| ops[i]@)
}

/// An ordered list of pending mutations, applied in one atomic write.
#[derive(Debug)]
pub struct WriteBatch {
    ops: Vec<BatchOp>,
}

impl View for WriteBatch {
    type V = Seq<Mutation>;

    closed spec fn view(&self) -> Seq<Mutation> {
        mutations_of(self.ops@)
    }
}

impl WriteBatch {
    fn stage(&mut self, op: BatchOp)
        ensures
            final(self)@ == old(self)@.push(op@),
    {
        self.ops.push(op);
        assert(self@ =~= old(self)@.push(op@));
    }

    /// The number of staged mutations.
    pub fn len(&self) -> (n: usize)
        ensures
            n == self@.len(),
    {
        self.ops.len()
    }

    /// Whether nothing is staged.
    pub fn is_empty(&self) -> (r: bool)
        ensures
            r == (self@.len() == 0),
    {
        self.len() == 0
    }

    /// Stages a put of `value` under `key`.
    pub fn put(&mut self, key: &[u8], value: &[u8]) -> (r: Result<(), Error>)
        ensures
            r is Ok,
            final(self)@ == old(self)@.push(Mutation::Put { family: None, key: key@, value: value@ }),
    {
        self.stage(BatchOp::Put { family: None, key: slice_to_vec(key), value: slice_to_vec(value) });
        Ok(())
    }

    /// Stages a put of `value` under `key` in the family `cf`.
    pub fn put_cf(&mut self, cf: ColumnFamily, key: &[u8], value: &[u8]) -> (r: Result<(), Error>)
        ensures
            r is Ok,
            final(self)@ == old(self)@.push(Mutation::Put { family: Some(cf), key: key@, value: value@ }),
    {
        self.stage(BatchOp::Put { family: Some(cf), key: slice_to_vec(key), value: slice_to_vec(value) });
        Ok(())
    }

    /// Stages a merge of `value` into what `key` holds.
    pub fn merge(&mut self, key: &[u8], value: &[u8]) -> (r: Result<(), Error>)
        ensures
            r is Ok,
            final(self)@ == old(self)@.push(Mutation::Merge { family: None, key: key@, value: value@ }),
    {
        self.stage(BatchOp::Merge { family: None, key: slice_to_vec(key), value: slice_to_vec(value) });
        Ok(())
    }

    /// Stages a merge of `value` into what `key` holds in the family `cf`.
    pub fn merge_cf(&mut self, cf: ColumnFamily, key: &[u8], value: &[u8]) -> (r: Result<(), Error>)
        ensures
            r is Ok,
            final(self)@ == old(self)@.push(Mutation::Merge { family: Some(cf), key: key@, value: value@ }),
    {
        self.stage(BatchOp::Merge { family: Some(cf), key: slice_to_vec(key), value: slice_to_vec(value) });
        Ok(())
    }

    /// Stages the removal of `key`.
    pub fn delete(&mut self, key: &[u8]) -> (r: Result<(), Error>)
        ensures
            r is Ok,
            final(self)@ == old(self)@.push(Mutation::Delete { family: None, key: key@ }),
    {
        self.stage(BatchOp::Delete { family: None, key: slice_to_vec(key) });
        Ok(())
    }

    /// Stages the removal of `key` from the family `cf`.
    pub fn delete_cf(&mut self, cf: ColumnFamily, key: &[u8]) -> (r: Result<(), Error>)
        ensures
            r is Ok,
            final(self)@ == old(self)@.push(Mutation::Delete { family: Some(cf), key: key@ }),
    {
        self.stage(BatchOp::Delete { family: Some(cf), key: slice_to_vec(key) });
        Ok(())
    }

    /// Whether every staged mutation that is scoped to a column family is
    /// scoped to one that `registry` holds.
    pub fn within(&self, registry: &ColumnFamilyRegistry) -> (r: bool)
        ensures
            r == all_within(self@, registry@),
    {
        let mut i: usize = 0;
        while i < self.ops.len()
            invariant
                i <= self.ops.len(),
                forall|j: int|
                    0 <= j < i && family_of(#[trigger] self@[j]) is Some ==> issued(
                        registry@,
                        family_of(self@[j])->Some_0,
                    ),
            decreases self.ops.len() - i,
        {
            let family = match &self.ops[i] {
                BatchOp::Put { family, .. } => *family,
                BatchOp::Merge { family, .. } => *family,
                BatchOp::Delete { family, .. } => *family,
            };
            assert(family == family_of(self@[i as int]));
            match family {
                Some(cf) => {
                    if !registry.holds(cf) {
                        return false;
                    }
                },
                None => {},
            }
            i += 1;
        }
        true
    }

    /// Gives up the batch and hands out its mutations, first staged first.
    pub fn into_ops(self) -> (ops: Vec<BatchOp>)
        ensures
            mutations_of(ops@) == self@,
    {
        self.ops
    }
}

impl Default for WriteBatch {
    fn default() -> (b: WriteBatch)
        ensures
            b@ == Seq::<Mutation>::empty(),
    {
        let b = WriteBatch { ops: Vec::new() };
        assert(b@ =~= Seq::<Mutation>::empty());
        b
    }
}

/// What a batch holds after each of `more` was staged in turn on a batch
/// that held `staged`.
pub open spec fn staged_after(staged: Seq<Mutation>, more: Seq<Mutation>) -> Seq<Mutation>
    decreases more.len(),
{
    if more.len() == 0 {
        staged
    } else {
        staged_after(staged.push(more[0]), more.drop_first())
    }
}

/// Staging keeps what was staged and adds the new mutations behind it, in
/// order.
pub proof fn staging_appends(staged: Seq<Mutation>, more: Seq<Mutation>)
    ensures
        staged_after(staged, more) == staged + more,
    decreases more.len(),
{
    if more.len() == 0 {
        assert(staged + more =~= staged);
    } else {
        staging_appends(staged.push(more[0]), more.drop_first());
        assert(staged.push(more[0]) + more.drop_first() =~= staged + more);
    }
}

/// A batch on which `more` was staged, starting from an empty batch,
/// holds exactly `more`: it reports as many mutations as were staged, and
/// is empty exactly when none was.
pub proof fn staged_count(more: Seq<Mutation>)
    ensures
        staged_after(Seq::empty(), more) == more,
        staged_after(Seq::empty(), more).len() == more.len(),
        (staged_after(Seq::empty(), more).len() == 0) == (more.len() == 0),
{
    staging_appends(Seq::empty(), more);
    assert(Seq::<Mutation>::empty() + more =~= more);
}

} // verus!
