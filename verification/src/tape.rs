//! The tape: binary cells at every integer position, all 0 but those that
//! were written, and a cursor.
//!
//! The contents are modelled as a `Map<int, u8>` that holds the cells that
//! were written and not erased since. A cell without an entry reads as 0;
//! a cell may also hold a 0 that was written there. The machine keeps the
//! positions in an `i64`.
//!
//! Beside the cells that a run works on, the tape keeps the marks that its
//! user set up, so that a run can start from them again and again.

use vstd::prelude::*;
use std::collections::HashMap;
use vstd::std_specs::iter::IteratorSpec;

verus! {

broadcast use vstd::std_specs::hash::group_hash_axioms;

/// The symbol at position `p` of a tape with the entries `cells`.
pub open spec fn symbol_at(cells: Map<int, u8>, p: int) -> u8 {
    if cells.contains_key(p) {
        cells[p]
    } else {
        0
    }
}

/// Whether the cell at position `p` holds a mark.
pub open spec fn marked(cells: Map<int, u8>, p: int) -> bool {
    symbol_at(cells, p) == 1
}

/// The entries after the mark at `p` was toggled: erased where there was
/// one, written where there was none.
pub open spec fn toggled(cells: Map<int, u8>, p: int) -> Map<int, u8> {
    if marked(cells, p) {
        cells.remove(p)
    } else {
        cells.insert(p, 1)
    }
}

/// What is kept of the set-up after the mark at `p` was toggled on a tape
/// with the entries `cells`: the mark goes where the cell held one, and one
/// is written where it held none.
pub open spec fn set_up(cells: Map<int, u8>, saved: Map<int, u8>, p: int) -> Map<int, u8> {
    if marked(cells, p) {
        saved.remove(p)
    } else {
        saved.insert(p, 1)
    }
}

/// The entries of a map keyed by machine integers, keyed by integers.
pub open spec fn entries(m: Map<i64, u8>) -> Map<int, u8> {
    Map::new(
        |p: int| i64::MIN <= p <= i64::MAX && m.contains_key(p as i64),
        |p: int| m[p as i64],
    )
}

/// A position that holds no entry reads as 0: on a tape where it was never
/// written, and on every tape that was cleared.
pub proof fn law_unwritten_reads_zero(cells: Map<int, u8>, p: int)
    ensures
        !cells.contains_key(p) ==> symbol_at(cells, p) == 0,
        symbol_at(Map::<int, u8>::empty(), p) == 0,
{
}

/// Reading after writing: the position that was written reads as the
/// symbol, every other one as before.
pub proof fn law_read_after_write(cells: Map<int, u8>, p: int, symbol: u8, q: int)
    ensures
        symbol_at(cells.insert(p, symbol), q) == if q == p {
            symbol
        } else {
            symbol_at(cells, q)
        },
{
}

/// Reading after erasing: the position that was erased reads as 0, every
/// other one as before.
pub proof fn law_read_after_erase(cells: Map<int, u8>, p: int, q: int)
    ensures
        symbol_at(cells.remove(p), q) == if q == p {
            0
        } else {
            symbol_at(cells, q)
        },
{
}

/// Toggling turns a mark into none and no mark into one, and touches no
/// other position.
pub proof fn law_toggle(cells: Map<int, u8>, p: int, q: int)
    ensures
        marked(toggled(cells, p), p) == !marked(cells, p),
        q != p ==> symbol_at(toggled(cells, p), q) == symbol_at(cells, q),
{
}

/// Whether every entry of `a` is an entry of `b`.
spec fn included(a: Map<i64, u8>, b: Map<i64, u8>) -> bool {
    forall|k: i64| #[trigger] a.contains_key(k) ==> b.contains_key(k) && b[k] == a[k]
}

/// Tests whether every entry of `a` is an entry of `b`.
fn is_included(a: &HashMap<i64, u8>, b: &HashMap<i64, u8>) -> (r: bool)
    ensures
        r == included(a@, b@),
{
    let entries = a.iter();
    let ghost items = entries.remaining();
    for entry in it: entries
        invariant
            it.seq() == items,
            forall|j: int|
                0 <= j < items.len() ==> a@.contains_key(*(#[trigger] items[j]).0) && a@[*items[j].0]
                    == *items[j].1,
            forall|k: i64| #[trigger] a@.contains_key(k) ==> items.contains((&k, &a@[k])),
            forall|j: int|
                0 <= j < it.index() ==> b@.contains_key(*(#[trigger] items[j]).0) && b@[*items[j].0]
                    == *items[j].1,
    {
        let (k, v) = entry;
        proof {
            assert(a@.contains_key(*k) && a@[*k] == *v);
        }
        match b.get(k) {
            Some(w) => {
                if *w != *v {
                    return false;
                }
            },
            None => {
                return false;
            },
        }
    }
    proof {
        assert forall|k: i64| #[trigger] a@.contains_key(k) implies b@.contains_key(k) && b@[k]
            == a@[k] by {
            let j = choose|j: int| 0 <= j < items.len() && items[j] == (&k, &a@[k]);
            assert(b@.contains_key(*items[j].0));
        }
    }
    true
}

/// A sparse binary tape with a cursor.
pub struct Tape {
    map: HashMap<i64, u8>,
    premap: HashMap<i64, u8>,
    cur: i64,
}

impl Tape {
    /// Every cell that was written holds 0 or 1.
    #[verifier::type_invariant]
    spec fn binary(self) -> bool {
        &&& forall|p: i64| self.map@.contains_key(p) ==> #[trigger] self.map@[p] <= 1
        &&& forall|p: i64| self.premap@.contains_key(p) ==> #[trigger] self.premap@[p] <= 1
    }

    /// The cells that were written and not erased since, by position.
    pub closed spec fn cells(&self) -> Map<int, u8> {
        entries(self.map@)
    }

    /// The cells as the user set them up, by position.
    pub closed spec fn saved(&self) -> Map<int, u8> {
        entries(self.premap@)
    }

    /// The position of the cursor.
    pub closed spec fn cursor(&self) -> int {
        self.cur as int
    }

    /// An empty tape with the cursor at 0.
    pub fn new() -> (tape: Tape)
        ensures
            tape.cells() == Map::<int, u8>::empty(),
            tape.saved() == Map::<int, u8>::empty(),
            tape.cursor() == 0,
    {
        let tape = Tape { map: HashMap::new(), premap: HashMap::new(), cur: 0 };
        proof {
            assert(entries(tape.map@) =~= Map::<int, u8>::empty());
            assert(entries(tape.premap@) =~= Map::<int, u8>::empty());
        }
        tape
    }

    /// The symbol at `position`: what was last written there, or 0. The
    /// tape is not changed.
    pub fn read(&self, position: i64) -> (symbol: u8)
        ensures
            symbol == symbol_at(self.cells(), position as int),
            symbol <= 1,
    {
        proof {
            use_type_invariant(self);
        }
        match self.map.get(&position) {
            Some(symbol) => *symbol,
            None => 0,
        }
    }

    /// The symbol that the user set up at `position`, or 0.
    pub fn read_saved(&self, position: i64) -> (symbol: u8)
        ensures
            symbol == symbol_at(self.saved(), position as int),
            symbol <= 1,
    {
        proof {
            use_type_invariant(self);
        }
        match self.premap.get(&position) {
            Some(symbol) => *symbol,
            None => 0,
        }
    }

    /// Whether the two tapes hold the same cells: the same entries, where
    /// a 0 that was written is an entry and a cell that was never written
    /// is none. The cursors and what is kept of the set-up do not count.
    pub fn same_cells(&self, other: &Tape) -> (b: bool)
        ensures
            b == (self.cells() == other.cells()),
    {
        let b: bool = is_included(&self.map, &other.map) && is_included(&other.map, &self.map);
        proof {
            let here = self.map@;
            let there = other.map@;
            if b {
                assert(entries(here) =~= entries(there));
            }
            if entries(here) == entries(there) {
                assert forall|k: i64| #[trigger] here.contains_key(k) implies there.contains_key(k)
                    && there[k] == here[k] by {
                    assert(entries(here).contains_key(k as int));
                    assert(entries(there)[k as int] == entries(here)[k as int]);
                }
                assert forall|k: i64| #[trigger] there.contains_key(k) implies here.contains_key(k)
                    && here[k] == there[k] by {
                    assert(entries(there).contains_key(k as int));
                    assert(entries(there)[k as int] == entries(here)[k as int]);
                }
            }
        }
        b
    }

    /// Whether `position` holds a mark.
    pub fn is_marked(&self, position: i64) -> (b: bool)
        ensures
            b == marked(self.cells(), position as int),
    {
        self.read(position) == 1
    }

    /// Writes `symbol` at `position`.
    pub fn write(&mut self, position: i64, symbol: u8)
        requires
            symbol <= 1,
        ensures
            final(self).cells() == old(self).cells().insert(position as int, symbol),
            final(self).saved() == old(self).saved(),
            final(self).cursor() == old(self).cursor(),
    {
        proof {
            use_type_invariant(&*self);
        }
        let mut map: HashMap<i64, u8> = HashMap::new();
        std::mem::swap(&mut self.map, &mut map);
        map.insert(position, symbol);
        std::mem::swap(&mut self.map, &mut map);
        proof {
            assert(entries(self.map@) =~= entries(old(self).map@).insert(position as int, symbol));
        }
    }

    /// Removes what was written at `position`, if anything.
    pub fn erase(&mut self, position: i64)
        ensures
            final(self).cells() == old(self).cells().remove(position as int),
            final(self).saved() == old(self).saved(),
            final(self).cursor() == old(self).cursor(),
    {
        proof {
            use_type_invariant(&*self);
        }
        let mut map: HashMap<i64, u8> = HashMap::new();
        std::mem::swap(&mut self.map, &mut map);
        map.remove(&position);
        std::mem::swap(&mut self.map, &mut map);
        proof {
            assert(entries(self.map@) =~= entries(old(self).map@).remove(position as int));
        }
    }

    /// Toggles the mark at `position`, as the user who sets the tape up:
    /// where the cell holds a mark, the mark goes, from the cells and from
    /// what is kept of the set-up; where it holds none, one is written to
    /// both.
    pub fn toggle(&mut self, position: i64)
        ensures
            final(self).cells() == toggled(old(self).cells(), position as int),
            final(self).saved() == set_up(old(self).cells(), old(self).saved(), position as int),
            final(self).cursor() == old(self).cursor(),
    {
        proof {
            use_type_invariant(&*self);
        }
        let on: bool = self.is_marked(position);
        let mut map: HashMap<i64, u8> = HashMap::new();
        let mut premap: HashMap<i64, u8> = HashMap::new();
        std::mem::swap(&mut self.map, &mut map);
        std::mem::swap(&mut self.premap, &mut premap);
        if on {
            map.remove(&position);
            premap.remove(&position);
        } else {
            map.insert(position, 1);
            premap.insert(position, 1);
        }
        std::mem::swap(&mut self.map, &mut map);
        std::mem::swap(&mut self.premap, &mut premap);
        proof {
            assert(entries(self.map@) =~= toggled(entries(old(self).map@), position as int));
            assert(entries(self.premap@) =~= set_up(
                entries(old(self).map@),
                entries(old(self).premap@),
                position as int,
            ));
        }
    }

    /// Removes every entry and puts the cursor at 0. What is kept of the
    /// set-up stays.
    pub fn clear(&mut self)
        ensures
            final(self).cells() == Map::<int, u8>::empty(),
            final(self).saved() == old(self).saved(),
            final(self).cursor() == 0,
    {
        proof {
            use_type_invariant(&*self);
        }
        let mut map: HashMap<i64, u8> = HashMap::new();
        std::mem::swap(&mut self.map, &mut map);
        map.clear();
        std::mem::swap(&mut self.map, &mut map);
        self.cur = 0;
        proof {
            assert(entries(self.map@) =~= Map::<int, u8>::empty());
        }
    }

    /// Removes every entry, also from what is kept of the set-up, and
    /// leaves the cursor where it is.
    pub fn wipe(&mut self)
        ensures
            final(self).cells() == Map::<int, u8>::empty(),
            final(self).saved() == Map::<int, u8>::empty(),
            final(self).cursor() == old(self).cursor(),
    {
        proof {
            use_type_invariant(&*self);
        }
        let mut map: HashMap<i64, u8> = HashMap::new();
        let mut premap: HashMap<i64, u8> = HashMap::new();
        std::mem::swap(&mut self.map, &mut map);
        std::mem::swap(&mut self.premap, &mut premap);
        map.clear();
        premap.clear();
        std::mem::swap(&mut self.map, &mut map);
        std::mem::swap(&mut self.premap, &mut premap);
        proof {
            assert(entries(self.map@) =~= Map::<int, u8>::empty());
            assert(entries(self.premap@) =~= Map::<int, u8>::empty());
        }
    }

    /// Puts the cells back as the user set them up, and leaves the cursor
    /// where it is.
    pub fn restore(&mut self)
        ensures
            final(self).cells() == old(self).saved(),
            final(self).saved() == old(self).saved(),
            final(self).cursor() == old(self).cursor(),
    {
        proof {
            use_type_invariant(&*self);
        }
        self.map = self.premap.clone();
    }

    /// Where the cursor is.
    pub fn position(&self) -> (p: i64)
        ensures
            p == self.cursor(),
    {
        self.cur
    }

    /// Whether the cursor can go one cell to the left in this machine.
    pub fn can_move_left(&self) -> (b: bool)
        ensures
            b == (self.cursor() > i64::MIN),
    {
        self.cur > i64::MIN
    }

    /// Whether the cursor can go one cell to the right in this machine.
    pub fn can_move_right(&self) -> (b: bool)
        ensures
            b == (self.cursor() < i64::MAX),
    {
        self.cur < i64::MAX
    }

    /// Moves the cursor one cell to the left.
    pub fn move_left(&mut self)
        requires
            old(self).cursor() > i64::MIN,
        ensures
            final(self).cursor() == old(self).cursor() - 1,
            final(self).cells() == old(self).cells(),
            final(self).saved() == old(self).saved(),
    {
        proof {
            use_type_invariant(&*self);
        }
        self.cur = self.cur - 1;
    }

    /// Moves the cursor one cell to the right.
    pub fn move_right(&mut self)
        requires
            old(self).cursor() < i64::MAX,
        ensures
            final(self).cursor() == old(self).cursor() + 1,
            final(self).cells() == old(self).cells(),
            final(self).saved() == old(self).saved(),
    {
        proof {
            use_type_invariant(&*self);
        }
        self.cur = self.cur + 1;
    }
}

} // verus!
