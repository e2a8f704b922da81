//! The handle-validity mechanism: a table of liveness-tracked cells, each
//! holding one native handle and an optional parent cell, and `Lock`, a
//! cheap shared reference to such a cell. A lock's `check` walks the whole
//! ancestor chain and fails as soon as any cell on it is dead; `invalidate`
//! kills only the lock's own cell, so dependents discover a freed ancestor
//! lazily at their next use.

use vstd::pervasive::VecAdditionalExecFns;
use vstd::prelude::*;

verus! {

/// One liveness-tracked cell: a native handle value, a one-way liveness
/// flag, and the index of the parent cell (the owner this handle was
/// derived from), if any.
#[derive(Clone, Copy)]
struct HandleCell {
    value: u64,
    alive: bool,
    parent: Option<usize>,
}

/// The arena holding every handle cell. Parent references are indices into
/// this table; well-formedness demands that a parent precede its children,
/// which keeps every ancestor chain acyclic and finite.
pub struct CellTable {
    cells: Vec<HandleCell>,
}

/// A shared reference to one handle cell. Copying a `Lock` shares the cell:
/// it never duplicates the native resource, and invalidating any copy is
/// indistinguishable from invalidating the original.
#[derive(Clone, Copy)]
pub struct Lock {
    cell: usize,
}

/// The typed failure of a validity check: this lock's cell, or some
/// ancestor of it, is no longer alive.
#[derive(Clone, Copy, PartialEq, Eq, Structural, Debug)]
pub struct Invalid;

impl CellTable {
    pub closed spec fn len(self) -> nat {
        self.cells@.len()
    }

    pub open spec fn valid_index(self, i: int) -> bool {
        0 <= i < self.len()
    }

    pub closed spec fn cell_value(self, i: int) -> u64 {
        self.cells@[i].value
    }

    pub closed spec fn cell_alive(self, i: int) -> bool {
        self.cells@[i].alive
    }

    pub closed spec fn parent_of(self, i: int) -> Option<int> {
        match self.cells@[i].parent {
            Some(p) => Some(p as int),
            None => None,
        }
    }

    /// Every parent reference points at an earlier cell, so ancestor chains
    /// are acyclic and finite.
    pub open spec fn wf(self) -> bool {
        forall|i: int| self.valid_index(i) ==> match #[trigger] self.parent_of(i) {
            Some(p) => 0 <= p < i,
            None => true,
        }
    }

    /// The transitive liveness test: the cell itself and every ancestor are
    /// alive.
    pub open spec fn chain_alive(self, i: int) -> bool
        decreases i,
    {
        &&& self.cell_alive(i)
        &&& match self.parent_of(i) {
            Some(p) => 0 <= p < i && self.chain_alive(p),
            None => true,
        }
    }

    /// The set of cell indices on the ancestor chain of `i`, the cell itself
    /// included.
    pub open spec fn chain(self, i: int) -> Set<int>
        decreases i,
    {
        match self.parent_of(i) {
            Some(p) => if 0 <= p < i {
                self.chain(p).insert(i)
            } else {
                Set::empty().insert(i)
            },
            None => Set::empty().insert(i),
        }
    }

    pub fn new() -> (r: CellTable)
        ensures
            r.wf(),
            r.len() == 0,
    {
        CellTable { cells: Vec::new() }
    }
}

/// Cell `j` looks the same in both tables: same handle value, same liveness,
/// same parent.
pub open spec fn cell_same(t0: CellTable, t1: CellTable, j: int) -> bool {
    &&& t1.cell_value(j) == t0.cell_value(j)
    &&& t1.cell_alive(j) == t0.cell_alive(j)
    &&& t1.parent_of(j) == t0.parent_of(j)
}

/// The tables hold exactly the same cells.
pub open spec fn same_cells(t0: CellTable, t1: CellTable) -> bool {
    &&& t1.len() == t0.len()
    &&& forall|j: int| t0.valid_index(j) ==> #[trigger] cell_same(t0, t1, j)
}

/// Liveness is one-way: every cell that is dead in `t0` is still dead in
/// `t1`. Every operation on a table preserves this relation.
pub open spec fn preserves_dead(t0: CellTable, t1: CellTable) -> bool {
    forall|j: int|
        t0.valid_index(j) && t1.valid_index(j) && !t0.cell_alive(j)
            ==> !#[trigger] t1.cell_alive(j)
}

/// `t1` is `t0` after exactly one invalidation: cell `j` is dead, and
/// nothing else — not even `j`'s value or parent — changed.
pub open spec fn invalidated_at(t0: CellTable, t1: CellTable, j: int) -> bool {
    &&& t1.len() == t0.len()
    &&& !t1.cell_alive(j)
    &&& t1.cell_value(j) == t0.cell_value(j)
    &&& t1.parent_of(j) == t0.parent_of(j)
    &&& forall|k: int| t0.valid_index(k) && k != j ==> #[trigger] cell_same(t0, t1, k)
}

impl Lock {
    /// The index of the shared cell this lock refers to.
    pub closed spec fn index(self) -> int {
        self.cell as int
    }

    pub open spec fn valid(self, t: CellTable) -> bool {
        t.valid_index(self.index())
    }

    /// Wraps a freshly constructed native handle as a new, alive cell,
    /// chained under `parent`'s cell if a parent lock is given. Never fails.
    pub fn new(t: &mut CellTable, handle: u64, parent: Option<Lock>) -> (r: Lock)
        requires
            old(t).wf(),
            (parent matches Some(p) ==> p.valid(*old(t))),
        ensures
            final(t).wf(),
            r.valid(*final(t)),
            r.index() == old(t).len(),
            final(t).len() == old(t).len() + 1,
            final(t).cell_alive(r.index()),
            final(t).cell_value(r.index()) == handle,
            final(t).parent_of(r.index()) == (match parent {
                Some(p) => Some(p.index()),
                None => None::<int>,
            }),
            forall|j: int| old(t).valid_index(j) ==> #[trigger] cell_same(*old(t), *final(t), j),
            preserves_dead(*old(t), *final(t)),
    {
        let idx = t.cells.len();
        let parent_index = match parent {
            Some(p) => Some(p.cell),
            None => None,
        };
        t.cells.push(HandleCell { value: handle, alive: true, parent: parent_index });
        proof {
            assert forall|j: int| old(t).valid_index(j) implies #[trigger] cell_same(
                *old(t),
                *t,
                j,
            ) by {
                assert(t.cells@[j] == old(t).cells@[j]);
            }
            assert forall|i: int| t.valid_index(i) implies match #[trigger] t.parent_of(i) {
                Some(p) => 0 <= p < i,
                None => true,
            } by {
                if i < old(t).len() {
                    assert(cell_same(*old(t), *t, i));
                    assert(old(t).parent_of(i) == t.parent_of(i));
                }
            }
        }
        Lock { cell: idx }
    }

    /// The validity check run before every native call: walks this lock's
    /// cell and every ancestor, returns the lock's own handle value only if
    /// all of them are alive, and fails the moment any cell on the chain is
    /// dead.
    pub fn check(&self, t: &CellTable) -> (r: Result<u64, Invalid>)
        requires
            t.wf(),
            self.valid(*t),
        ensures
            r is Ok <==> t.chain_alive(self.index()),
            (r matches Ok(h) ==> h == t.cell_value(self.index())),
    {
        let mut i: usize = self.cell;
        loop
            invariant
                t.wf(),
                self.valid(*t),
                t.valid_index(i as int),
                t.chain_alive(self.index()) <==> t.chain_alive(i as int),
            decreases i,
        {
            let c = &t.cells[i];
            if !c.alive {
                return Err(Invalid);
            }
            match c.parent {
                Some(p) => {
                    i = p;
                }
                None => {
                    return Ok(t.cells[self.cell].value);
                }
            }
        }
    }

    /// The invalidation protocol: marks this lock's own cell dead and
    /// touches nothing else. Idempotent, and strictly local — ancestors and
    /// siblings keep their state; dependents notice on their next `check`.
    pub fn invalidate(&self, t: &mut CellTable)
        requires
            old(t).wf(),
            self.valid(*old(t)),
        ensures
            final(t).wf(),
            invalidated_at(*old(t), *final(t), self.index()),
            preserves_dead(*old(t), *final(t)),
    {
        let c = t.cells[self.cell];
        t.cells.set(self.cell, HandleCell { value: c.value, alive: false, parent: c.parent });
        proof {
            assert forall|k: int| old(t).valid_index(k) && k != self.index() implies
                #[trigger] cell_same(*old(t), *t, k) by {
                assert(t.cells@[k] == old(t).cells@[k]);
            }
            assert forall|i: int| t.valid_index(i) implies match #[trigger] t.parent_of(i) {
                Some(p) => 0 <= p < i,
                None => true,
            } by {
                assert(t.parent_of(i) == old(t).parent_of(i));
            }
        }
    }

    /// The release path shared by every wrapper object: if the whole chain
    /// is still alive, hands back the handle that the native free call must
    /// receive; otherwise hands back nothing, so the native free is skipped.
    /// Either way the cell is dead afterwards, so a repeated release finds
    /// nothing to free: the native resource is freed at most once.
    pub fn release(&self, t: &mut CellTable) -> (r: Option<u64>)
        requires
            old(t).wf(),
            self.valid(*old(t)),
        ensures
            final(t).wf(),
            r == (if old(t).chain_alive(self.index()) {
                Some(old(t).cell_value(self.index()))
            } else {
                None::<u64>
            }),
            invalidated_at(*old(t), *final(t), self.index()),
            preserves_dead(*old(t), *final(t)),
            !final(t).chain_alive(self.index()),
    {
        let r = match self.check(t) {
            Ok(h) => Some(h),
            Err(_) => None,
        };
        self.invalidate(t);
        r
    }
}

/// Chain soundness, first half: the transitive check passes exactly when
/// every cell on the ancestor chain — the cell itself included — is alive.
pub proof fn lemma_chain_alive_iff_all(t: CellTable, i: int)
    requires
        t.wf(),
        t.valid_index(i),
    ensures
        t.chain_alive(i) <==> (forall|k: int| t.chain(i).contains(k) ==> t.cell_alive(k)),
    decreases i,
{
    assert(t.chain(i).contains(i));
    match t.parent_of(i) {
        Some(p) => {
            assert(0 <= p < i);
            lemma_chain_alive_iff_all(t, p);
            assert forall|k: int| t.chain(i).contains(k) && k != i implies t.chain(p).contains(
                k,
            ) by {}
        }
        None => {}
    }
}

/// Two tables that agree cell for cell give every chain the same shape and
/// the same check outcome.
pub proof fn lemma_chain_congruence(ta: CellTable, tb: CellTable, i: int)
    requires
        ta.wf(),
        tb.wf(),
        tb.len() == ta.len(),
        ta.valid_index(i),
        forall|k: int| ta.valid_index(k) ==> #[trigger] cell_same(ta, tb, k),
    ensures
        tb.chain(i) == ta.chain(i),
        tb.chain_alive(i) == ta.chain_alive(i),
    decreases i,
{
    assert(cell_same(ta, tb, i));
    match ta.parent_of(i) {
        Some(p) => {
            lemma_chain_congruence(ta, tb, p);
        }
        None => {}
    }
    assert(tb.chain(i) =~= ta.chain(i));
}

/// Invalidation is local: killing cell `j` fails exactly the checks whose
/// ancestor chain passes through `j`, and leaves every chain that avoids
/// `j` — sibling chains in particular — with the outcome it had before.
pub proof fn lemma_invalidate_localized(t0: CellTable, t1: CellTable, j: int, i: int)
    requires
        t0.wf(),
        t1.wf(),
        t0.valid_index(j),
        t0.valid_index(i),
        invalidated_at(t0, t1, j),
    ensures
        t1.chain(i) == t0.chain(i),
        t1.chain_alive(i) <==> (t0.chain_alive(i) && !t0.chain(i).contains(j)),
    decreases i,
{
    if i != j {
        assert(cell_same(t0, t1, i));
    }
    match t0.parent_of(i) {
        Some(p) => {
            lemma_invalidate_localized(t0, t1, j, p);
        }
        None => {}
    }
    assert(t1.chain(i) =~= t0.chain(i));
    assert(t0.chain(i).contains(i));
}

/// Clone sharing: two locks over the same cell are interchangeable — after
/// invalidating through either one, every lock in the table sees the same
/// chain outcome and the same handle values, so invalidating a clone is
/// observably equivalent to invalidating the original.
pub proof fn lemma_clone_invalidate_equivalent(
    t0: CellTable,
    ta: CellTable,
    tb: CellTable,
    a: Lock,
    b: Lock,
    l: Lock,
)
    requires
        t0.wf(),
        ta.wf(),
        tb.wf(),
        a.valid(t0),
        b.valid(t0),
        l.valid(t0),
        a.index() == b.index(),
        invalidated_at(t0, ta, a.index()),
        invalidated_at(t0, tb, b.index()),
    ensures
        ta.chain_alive(l.index()) == tb.chain_alive(l.index()),
        ta.cell_value(l.index()) == tb.cell_value(l.index()),
{
    assert forall|k: int| ta.valid_index(k) implies #[trigger] cell_same(ta, tb, k) by {
        if k != a.index() {
            assert(cell_same(t0, ta, k));
            assert(cell_same(t0, tb, k));
        } else {
            assert(!ta.cell_alive(k) && !tb.cell_alive(k));
        }
    }
    lemma_chain_congruence(ta, tb, l.index());
    if l.index() != a.index() {
        assert(cell_same(t0, ta, l.index()));
        assert(cell_same(t0, tb, l.index()));
    }
}

/// No double free: once a lock's own cell is dead — as it is after any
/// release — the chain check can never pass again, so a repeated release
/// hands back no handle and the native free runs at most once per cell.
pub proof fn lemma_no_double_free(t: CellTable, l: Lock)
    requires
        t.wf(),
        l.valid(t),
        !t.cell_alive(l.index()),
    ensures
        !t.chain_alive(l.index()),
{
}

/// Invalidation is one-way: a cell dead in `t1` is still dead after any
/// later sequence of operations (each of which preserves dead cells), so a
/// released lock can never pass a check again.
pub proof fn lemma_released_stays_released(t1: CellTable, t2: CellTable, l: Lock)
    requires
        t1.wf(),
        t2.wf(),
        l.valid(t1),
        l.valid(t2),
        !t1.cell_alive(l.index()),
        preserves_dead(t1, t2),
    ensures
        !t2.cell_alive(l.index()),
        !t2.chain_alive(l.index()),
{
}

} // verus!
