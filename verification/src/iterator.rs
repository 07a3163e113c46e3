//! Cursors over an ordered run of entries.
//!
//! A [`DBRawIterator`] is the cursor itself: a position in the entries that
//! the engine produced for one readable source, with explicit seek and step
//! primitives. A [`DBIterator`] fixes a travel direction on top of it and
//! yields each entry once, starting with the entry it was positioned on.

use vstd::prelude::*;
use vstd::slice::slice_to_vec;
use crate::bytes::{at_most, less, precedes, precedes_asymmetric, precedes_irreflexive, precedes_transitive};

verus! {

/// The direction in which a [`DBIterator`] travels.
#[derive(Clone, Copy, Debug, PartialEq, Eq, Structural)]
pub enum Direction {
    Forward,
    Reverse,
}

/// A key and its value, as a cursor hands them out.
pub type KVBytes = (Vec<u8>, Vec<u8>);

/// A key and its value in contracts.
pub type Entry = (Seq<u8>, Seq<u8>);

/// Where a [`DBIterator`] starts and which way it goes.
#[derive(Debug)]
pub enum IteratorMode<'a> {
    /// Forward from the first key.
    Start,
    /// Backward from the last key.
    End,
    /// From the first key at or after the given one, in the given direction.
    From(&'a [u8], Direction),
}

/// The entries that a vector of pairs stands for.
pub open spec fn entries_of(pairs: Seq<KVBytes>) -> Seq<Entry> {
    Seq::new(pairs.len(), |i: int| (pairs[i].0@, pairs[i].1@))
}

/// Keys strictly increase along the sequence.
pub open spec fn ascending(entries: Seq<Entry>) -> bool {
    forall|i: int, j: int|
        0 <= i < j < entries.len() ==> precedes(#[trigger] entries[i].0, #[trigger] entries[j].0)
}

/// Keys strictly decrease along the sequence.
pub open spec fn descending(entries: Seq<Entry>) -> bool {
    forall|i: int, j: int|
        0 <= i < j < entries.len() ==> precedes(#[trigger] entries[j].0, #[trigger] entries[i].0)
}

/// The position of the first entry, if there is one.
pub open spec fn first_position(entries: Seq<Entry>) -> Option<int> {
    if entries.len() > 0 {
        Some(0)
    } else {
        None
    }
}

/// The position of the last entry, if there is one.
pub open spec fn last_position(entries: Seq<Entry>) -> Option<int> {
    if entries.len() > 0 {
        Some(entries.len() - 1)
    } else {
        None
    }
}

/// `landed` is where a seek for `key` ends: on the first entry whose key is
/// at or after `key`, or nowhere when every key comes before it.
pub open spec fn lands(entries: Seq<Entry>, key: Seq<u8>, landed: Option<int>) -> bool {
    match landed {
        Some(p) => {
            &&& 0 <= p < entries.len()
            &&& at_most(key, entries[p].0)
            &&& forall|j: int| 0 <= j < p ==> precedes(#[trigger] entries[j].0, key)
        },
        None => forall|j: int| 0 <= j < entries.len() ==> precedes(#[trigger] entries[j].0, key),
    }
}

/// The position one step forward, or nowhere past the last entry.
pub open spec fn step_forward(entries: Seq<Entry>, cursor: Option<int>) -> Option<int> {
    match cursor {
        Some(p) if p + 1 < entries.len() => Some(p + 1),
        _ => None,
    }
}

/// The position one step backward, or nowhere before the first entry.
pub open spec fn step_backward(cursor: Option<int>) -> Option<int> {
    match cursor {
        Some(p) if p > 0 => Some(p - 1),
        _ => None,
    }
}

/// What a directional iterator has yet to yield, in order: from the cursor
/// on when it has just been positioned, from the next entry in its direction
/// otherwise.
pub open spec fn pending(
    entries: Seq<Entry>,
    cursor: Option<int>,
    direction: Direction,
    positioned: bool,
) -> Seq<Entry> {
    match cursor {
        None => Seq::empty(),
        Some(p) => match direction {
            Direction::Forward => entries.subrange(
                if positioned { p } else { p + 1 },
                entries.len() as int,
            ),
            Direction::Reverse => entries.subrange(0, if positioned { p + 1 } else { p }).reverse(),
        },
    }
}

/// A cursor over the entries of one readable source, in key order.
#[derive(Debug)]
pub struct DBRawIterator {
    entries: Vec<KVBytes>,
    position: usize,
}

impl DBRawIterator {
    #[verifier::type_invariant]
    spec fn inv(self) -> bool {
        &&& self.position <= self.entries.len()
        &&& ascending(entries_of(self.entries@))
    }

    /// The entries under the cursor, in key order.
    pub closed spec fn entries(&self) -> Seq<Entry> {
        entries_of(self.entries@)
    }

    /// The position of the current entry, `None` while the cursor is not valid.
    pub closed spec fn cursor(&self) -> Option<int> {
        if self.position < self.entries.len() {
            Some(self.position as int)
        } else {
            None
        }
    }

    /// A cursor over `entries`, not yet positioned. The entries must come in
    /// strictly increasing key order, as the engine produces them; any other
    /// sequence is refused.
    pub fn new(entries: Vec<KVBytes>) -> (r: Option<DBRawIterator>)
        ensures
            r is Some <==> ascending(entries_of(entries@)),
            r is Some ==> r->Some_0.entries() == entries_of(entries@) && r->Some_0.cursor() is None,
    {
        let ghost model = entries_of(entries@);
        let mut i: usize = 1;
        while i < entries.len()
            invariant
                1 <= i,
                model == entries_of(entries@),
                forall|a: int, b: int|
                    0 <= a < b < i && b < model.len() ==> precedes(
                        #[trigger] model[a].0,
                        #[trigger] model[b].0,
                    ),
            decreases entries.len() - i,
        {
            if !less(entries[i - 1].0.as_slice(), entries[i].0.as_slice()) {
                assert(!precedes(model[i - 1].0, model[i as int].0));
                return None;
            }
            proof {
                assert forall|a: int, b: int| 0 <= a < b < i + 1 && b < model.len() implies precedes(
                    #[trigger] model[a].0,
                    #[trigger] model[b].0,
                ) by {
                    if b == i && a < i - 1 {
                        precedes_transitive(model[a].0, model[i - 1].0, model[b].0);
                    }
                }
            }
            i += 1;
        }
        let position = entries.len();
        Some(DBRawIterator { entries, position })
    }

    /// Whether the cursor stands on an entry.
    pub fn valid(&self) -> (r: bool)
        ensures
            r == self.cursor() is Some,
    {
        self.position < self.entries.len()
    }

    /// Moves to the first entry; the cursor is not valid afterwards when
    /// there is none.
    pub fn seek_to_first(&mut self)
        ensures
            final(self).entries() == old(self).entries(),
            final(self).cursor() == first_position(old(self).entries()),
    {
        proof {
            use_type_invariant(&*self);
        }
        self.position = 0;
    }

    /// Moves to the last entry; the cursor is not valid afterwards when
    /// there is none.
    pub fn seek_to_last(&mut self)
        ensures
            final(self).entries() == old(self).entries(),
            final(self).cursor() == last_position(old(self).entries()),
    {
        proof {
            use_type_invariant(&*self);
        }
        if self.entries.len() > 0 {
            self.position = self.entries.len() - 1;
        } else {
            self.position = 0;
        }
    }

    /// Moves to the first entry whose key is `key` or follows it in byte
    /// order; the cursor is not valid afterwards when there is none.
    pub fn seek(&mut self, key: &[u8])
        ensures
            final(self).entries() == old(self).entries(),
            lands(old(self).entries(), key@, final(self).cursor()),
    {
        proof {
            use_type_invariant(&*self);
        }
        let ghost model = self.entries();
        let mut low: usize = 0;
        let mut high: usize = self.entries.len();
        while low < high
            invariant
                low <= high <= self.entries.len(),
                model == entries_of(self.entries@),
                ascending(model),
                forall|j: int| 0 <= j < low ==> precedes(#[trigger] model[j].0, key@),
                forall|j: int| high <= j < model.len() ==> at_most(key@, #[trigger] model[j].0),
            decreases high - low,
        {
            let middle = low + (high - low) / 2;
            if less(self.entries[middle].0.as_slice(), key) {
                proof {
                    assert forall|j: int| 0 <= j < middle + 1 implies precedes(#[trigger] model[j].0, key@) by {
                        if j < middle {
                            precedes_transitive(model[j].0, model[middle as int].0, key@);
                        }
                    }
                }
                low = middle + 1;
            } else {
                proof {
                    assert forall|j: int| middle <= j < model.len() implies at_most(
                        key@,
                        #[trigger] model[j].0,
                    ) by {
                        if j > middle && precedes(model[j].0, key@) {
                            precedes_transitive(model[middle as int].0, model[j].0, key@);
                        }
                    }
                }
                high = middle;
            }
        }
        self.position = low;
    }

    /// Moves one entry forward. Past the last entry the cursor is no longer
    /// valid; a cursor that is not valid stays so.
    pub fn next(&mut self)
        ensures
            final(self).entries() == old(self).entries(),
            final(self).cursor() == step_forward(old(self).entries(), old(self).cursor()),
    {
        proof {
            use_type_invariant(&*self);
        }
        if self.position < self.entries.len() {
            self.position = self.position + 1;
        }
    }

    /// Moves one entry backward. Before the first entry the cursor is no
    /// longer valid; a cursor that is not valid stays so.
    pub fn prev(&mut self)
        ensures
            final(self).entries() == old(self).entries(),
            final(self).cursor() == step_backward(old(self).cursor()),
    {
        proof {
            use_type_invariant(&*self);
        }
        if self.position < self.entries.len() {
            if self.position > 0 {
                self.position = self.position - 1;
            } else {
                self.position = self.entries.len();
            }
        }
    }

    /// The current key, borrowed from the cursor: the borrow ends before the
    /// cursor can move again.
    pub fn key_inner(&self) -> (r: Option<&[u8]>)
        ensures
            r is Some <==> self.cursor() is Some,
            r is Some ==> r->Some_0@ == self.entries()[self.cursor()->Some_0].0,
    {
        if self.position < self.entries.len() {
            Some(self.entries[self.position].0.as_slice())
        } else {
            None
        }
    }

    /// A copy of the current key, or nothing while the cursor is not valid.
    pub fn key(&self) -> (r: Option<Vec<u8>>)
        ensures
            r is Some <==> self.cursor() is Some,
            r is Some ==> r->Some_0@ == self.entries()[self.cursor()->Some_0].0,
    {
        match self.key_inner() {
            Some(key) => Some(slice_to_vec(key)),
            None => None,
        }
    }

    /// The current value, borrowed from the cursor: the borrow ends before
    /// the cursor can move again.
    pub fn value_inner(&self) -> (r: Option<&[u8]>)
        ensures
            r is Some <==> self.cursor() is Some,
            r is Some ==> r->Some_0@ == self.entries()[self.cursor()->Some_0].1,
    {
        if self.position < self.entries.len() {
            Some(self.entries[self.position].1.as_slice())
        } else {
            None
        }
    }

    /// A copy of the current value, or nothing while the cursor is not valid.
    pub fn value(&self) -> (r: Option<Vec<u8>>)
        ensures
            r is Some <==> self.cursor() is Some,
            r is Some ==> r->Some_0@ == self.entries()[self.cursor()->Some_0].1,
    {
        match self.value_inner() {
            Some(value) => Some(slice_to_vec(value)),
            None => None,
        }
    }
}

/// Where a directional iterator stands, and which way it faces, once it has
/// been positioned by `mode`.
pub open spec fn positioned_by(
    entries: Seq<Entry>,
    mode: IteratorMode,
    cursor: Option<int>,
    direction: Direction,
) -> bool {
    match mode {
        IteratorMode::Start => direction == Direction::Forward && cursor == first_position(entries),
        IteratorMode::End => direction == Direction::Reverse && cursor == last_position(entries),
        IteratorMode::From(key, towards) => direction == towards && lands(entries, key@, cursor),
    }
}

/// A one-shot traversal in a fixed direction. The entry yielded right after
/// positioning is the entry landed on, not its neighbour.
#[derive(Debug)]
pub struct DBIterator {
    raw: DBRawIterator,
    direction: Direction,
    just_seeked: bool,
}

impl DBIterator {
    /// The entries under the cursor, in key order.
    pub closed spec fn entries(&self) -> Seq<Entry> {
        self.raw.entries()
    }

    /// The position of the cursor, `None` while it is not valid.
    pub closed spec fn cursor(&self) -> Option<int> {
        self.raw.cursor()
    }

    /// The direction of travel.
    pub closed spec fn direction(&self) -> Direction {
        self.direction
    }

    /// Whether the cursor was positioned and has not stepped since.
    pub closed spec fn positioned(&self) -> bool {
        self.just_seeked
    }

    /// The entries still to be yielded, in the order in which they will come.
    pub open spec fn remaining(&self) -> Seq<Entry> {
        pending(self.entries(), self.cursor(), self.direction(), self.positioned())
    }

    /// A traversal over the entries of `raw`, positioned by `mode`.
    pub fn new(raw: DBRawIterator, mode: IteratorMode) -> (it: DBIterator)
        ensures
            it.entries() == raw.entries(),
            it.positioned(),
            positioned_by(raw.entries(), mode, it.cursor(), it.direction()),
            ascending(it.entries()),
    {
        let mut it = DBIterator { raw, direction: Direction::Forward, just_seeked: false };
        it.set_mode(mode);
        it
    }

    /// A traversal over `entries`, positioned by `mode`. The entries must
    /// come in strictly increasing key order, as the engine produces them;
    /// any other sequence is refused.
    pub fn over(entries: Vec<KVBytes>, mode: IteratorMode) -> (r: Option<DBIterator>)
        ensures
            r is Some <==> ascending(entries_of(entries@)),
            r is Some ==> {
                &&& r->Some_0.entries() == entries_of(entries@)
                &&& r->Some_0.positioned()
                &&& positioned_by(entries_of(entries@), mode, r->Some_0.cursor(), r->Some_0.direction())
            },
    {
        match DBRawIterator::new(entries) {
            Some(raw) => Some(DBIterator::new(raw, mode)),
            None => None,
        }
    }

    /// Positions the cursor anew and resets the direction: `Start` faces
    /// forward on the first entry, `End` faces backward on the last,
    /// `From(key, d)` faces `d` on the first entry at or after `key`.
    pub fn set_mode(&mut self, mode: IteratorMode)
        ensures
            final(self).entries() == old(self).entries(),
            final(self).positioned(),
            positioned_by(old(self).entries(), mode, final(self).cursor(), final(self).direction()),
            ascending(final(self).entries()),
    {
        proof {
            use_type_invariant(&self.raw);
        }
        match mode {
            IteratorMode::Start => {
                self.raw.seek_to_first();
                self.direction = Direction::Forward;
            },
            IteratorMode::End => {
                self.raw.seek_to_last();
                self.direction = Direction::Reverse;
            },
            IteratorMode::From(key, towards) => {
                self.raw.seek(key);
                self.direction = towards;
            },
        }
        self.just_seeked = true;
    }

    /// Whether the cursor stands on an entry.
    pub fn valid(&self) -> (r: bool)
        ensures
            r == self.cursor() is Some,
    {
        self.raw.valid()
    }

    /// Yields the next entry in the direction of travel, or nothing once the
    /// cursor has left the entries. Right after positioning the cursor does
    /// not move; otherwise it takes exactly one step first.
    pub fn next(&mut self) -> (r: Option<KVBytes>)
        ensures
            final(self).entries() == old(self).entries(),
            final(self).direction() == old(self).direction(),
            !final(self).positioned(),
            final(self).cursor() == if old(self).positioned() {
                old(self).cursor()
            } else {
                match old(self).direction() {
                    Direction::Forward => step_forward(old(self).entries(), old(self).cursor()),
                    Direction::Reverse => step_backward(old(self).cursor()),
                }
            },
            r is None <==> old(self).remaining().len() == 0,
            r is Some ==> (r->Some_0.0@, r->Some_0.1@) == old(self).remaining()[0],
            old(self).remaining().len() > 0 ==> final(self).remaining() == old(self).remaining().drop_first(),
            old(self).remaining().len() == 0 ==> final(self).remaining().len() == 0,
    {
        proof {
            use_type_invariant(&self.raw);
        }
        if !self.just_seeked {
            match self.direction {
                Direction::Forward => self.raw.next(),
                Direction::Reverse => self.raw.prev(),
            }
        } else {
            self.just_seeked = false;
        }
        proof {
            use_type_invariant(&self.raw);
            assert(final_remaining_matches(
                old(self).entries(),
                old(self).cursor(),
                old(self).direction(),
                old(self).positioned(),
            )) by {
                pending_advances(
                    old(self).entries(),
                    old(self).cursor(),
                    old(self).direction(),
                    old(self).positioned(),
                );
            }
        }
        match self.raw.key() {
            Some(key) => {
                match self.raw.value() {
                    Some(value) => Some((key, value)),
                    None => None,
                }
            },
            None => None,
        }
    }

    /// Gives up the direction and hands the cursor back where it stands.
    pub fn into(self) -> (raw: DBRawIterator)
        ensures
            raw.entries() == self.entries(),
            raw.cursor() == self.cursor(),
    {
        self.raw
    }

    /// Runs the traversal to its end and returns what it yields, in order.
    pub fn collect(self) -> (out: Vec<KVBytes>)
        ensures
            entries_of(out@) == self.remaining(),
    {
        let ghost total = self.remaining();
        let mut it = self;
        let mut out: Vec<KVBytes> = Vec::new();
        let mut item = it.next();
        while item.is_some()
            invariant
                match item {
                    Some(kv) => entries_of(out@).push((kv.0@, kv.1@)) + it.remaining() =~= total,
                    None => entries_of(out@) =~= total && it.remaining().len() == 0,
                },
            decreases it.remaining().len() + (if item is Some { 1int } else { 0int }),
        {
            let ghost before = entries_of(out@);
            let kv = item.unwrap();
            let ghost pair = (kv.0@, kv.1@);
            out.push(kv);
            assert(entries_of(out@) =~= before.push(pair));
            let ghost rest = it.remaining();
            item = it.next();
            proof {
                if item is Some {
                    assert(rest =~= seq![rest[0]] + rest.drop_first());
                }
            }
        }
        out
    }

    /// Runs the traversal to its end and returns how many entries it yields.
    pub fn count(self) -> (n: usize)
        ensures
            n == self.remaining().len(),
    {
        let out = self.collect();
        out.len()
    }
}

/// The cursor after one call of `next`, as its contract states it.
pub open spec fn advanced(
    entries: Seq<Entry>,
    cursor: Option<int>,
    direction: Direction,
    positioned: bool,
) -> Option<int> {
    if positioned {
        cursor
    } else {
        match direction {
            Direction::Forward => step_forward(entries, cursor),
            Direction::Reverse => step_backward(cursor),
        }
    }
}

/// One call of `next` yields the head of what was pending and leaves the
/// rest pending.
pub open spec fn final_remaining_matches(
    entries: Seq<Entry>,
    cursor: Option<int>,
    direction: Direction,
    positioned: bool,
) -> bool {
    let before = pending(entries, cursor, direction, positioned);
    let landed = advanced(entries, cursor, direction, positioned);
    &&& landed is None <==> before.len() == 0
    &&& landed is Some ==> 0 <= landed->Some_0 < entries.len() && before[0] == entries[landed->Some_0]
    &&& before.len() > 0 ==> pending(entries, landed, direction, false) == before.drop_first()
    &&& before.len() == 0 ==> pending(entries, landed, direction, false).len() == 0
}

/// Stepping never skips or repeats: whatever the state, one call of `next`
/// yields the head of what was pending and leaves exactly the rest pending.
pub proof fn pending_advances(
    entries: Seq<Entry>,
    cursor: Option<int>,
    direction: Direction,
    positioned: bool,
)
    requires
        cursor is Some ==> 0 <= cursor->Some_0 < entries.len(),
    ensures
        final_remaining_matches(entries, cursor, direction, positioned),
{
    let before = pending(entries, cursor, direction, positioned);
    let landed = advanced(entries, cursor, direction, positioned);
    if before.len() > 0 {
        assert(pending(entries, landed, direction, false) =~= before.drop_first());
    }
}

/// A traversal started at `Start` yields every entry, in strictly
/// increasing key order.
pub proof fn start_yields_ascending(entries: Seq<Entry>)
    requires
        ascending(entries),
    ensures
        pending(entries, first_position(entries), Direction::Forward, true) == entries,
        ascending(pending(entries, first_position(entries), Direction::Forward, true)),
{
    assert(pending(entries, first_position(entries), Direction::Forward, true) =~= entries);
}

/// A traversal started at `End` yields every entry, in strictly decreasing
/// key order.
pub proof fn end_yields_descending(entries: Seq<Entry>)
    requires
        ascending(entries),
    ensures
        pending(entries, last_position(entries), Direction::Reverse, true) == entries.reverse(),
        descending(pending(entries, last_position(entries), Direction::Reverse, true)),
{
    let out = pending(entries, last_position(entries), Direction::Reverse, true);
    assert(out =~= entries.reverse());
    assert forall|i: int, j: int| 0 <= i < j < out.len() implies precedes(
        #[trigger] out[j].0,
        #[trigger] out[i].0,
    ) by {
        assert(out[j] == entries[entries.len() - 1 - j]);
        assert(out[i] == entries[entries.len() - 1 - i]);
    }
}

/// Whatever the position, a forward traversal yields strictly increasing
/// keys and a backward traversal strictly decreasing ones.
pub proof fn pending_is_ordered(
    entries: Seq<Entry>,
    cursor: Option<int>,
    direction: Direction,
    positioned: bool,
)
    requires
        ascending(entries),
        cursor is Some ==> 0 <= cursor->Some_0 < entries.len(),
    ensures
        direction == Direction::Forward ==> ascending(pending(entries, cursor, direction, positioned)),
        direction == Direction::Reverse ==> descending(pending(entries, cursor, direction, positioned)),
{
    let out = pending(entries, cursor, direction, positioned);
    if cursor is Some {
        let p = cursor->Some_0;
        match direction {
            Direction::Forward => {
                let from = if positioned { p } else { p + 1 };
                assert forall|i: int, j: int| 0 <= i < j < out.len() implies precedes(
                    #[trigger] out[i].0,
                    #[trigger] out[j].0,
                ) by {
                    assert(out[i] == entries[from + i]);
                    assert(out[j] == entries[from + j]);
                }
            },
            Direction::Reverse => {
                let to = if positioned { p + 1 } else { p };
                assert forall|i: int, j: int| 0 <= i < j < out.len() implies precedes(
                    #[trigger] out[j].0,
                    #[trigger] out[i].0,
                ) by {
                    assert(out[i] == entries[to - 1 - i]);
                    assert(out[j] == entries[to - 1 - j]);
                }
            },
        }
    }
}

/// A forward traversal started from `key` yields first the entry with the
/// least key at or after `key`, and yields nothing only when every key
/// comes before `key`.
pub proof fn seek_forward_yields_first_at_or_after(
    entries: Seq<Entry>,
    key: Seq<u8>,
    landed: Option<int>,
)
    requires
        ascending(entries),
        lands(entries, key, landed),
    ensures
        ({
            let out = pending(entries, landed, Direction::Forward, true);
            &&& out.len() == 0 <==> forall|j: int|
                0 <= j < entries.len() ==> precedes(#[trigger] entries[j].0, key)
            &&& out.len() > 0 ==> {
                &&& entries.contains(out[0])
                &&& at_most(key, out[0].0)
                &&& forall|j: int|
                    0 <= j < entries.len() && at_most(key, #[trigger] entries[j].0) ==> at_most(
                        out[0].0,
                        entries[j].0,
                    )
            }
        }),
{
    let out = pending(entries, landed, Direction::Forward, true);
    match landed {
        Some(p) => {
            assert(out[0] == entries[p]);
            assert forall|j: int| 0 <= j < entries.len() && at_most(key, #[trigger] entries[j].0) implies at_most(
                out[0].0,
                entries[j].0,
            ) by {
                if j < p {
                    assert(precedes(entries[j].0, key));
                } else if j > p {
                    assert(precedes(entries[p].0, entries[j].0));
                    precedes_asymmetric(entries[p].0, entries[j].0);
                } else {
                    precedes_irreflexive(entries[p].0);
                }
            }
        },
        None => {},
    }
}

/// A seek has one outcome: two positions that both meet its contract are
/// the same.
pub proof fn lands_once(entries: Seq<Entry>, key: Seq<u8>, a: Option<int>, b: Option<int>)
    requires
        lands(entries, key, a),
        lands(entries, key, b),
    ensures
        a == b,
{
    if a is Some && b is Some {
        let p = a->Some_0;
        let q = b->Some_0;
        if p < q {
            assert(precedes(entries[p].0, key));
        } else if q < p {
            assert(precedes(entries[q].0, key));
        }
    } else if a is Some {
        assert(precedes(entries[a->Some_0].0, key));
    } else if b is Some {
        assert(precedes(entries[b->Some_0].0, key));
    }
}

} // verus!
