//! A relation of rows keyed by their string identifier, kept in storage
//! order, with identifiers unique.

use vstd::prelude::*;

verus! {

/// A stored record with a string primary key.
pub trait Row: Sized {
    /// The primary key.
    spec fn key(&self) -> Seq<char>;

    /// The identifier field, whose text is the key.
    fn id(&self) -> (r: &String)
        ensures
            r@ == self.key(),
    ;

    /// A field-by-field copy.
    fn duplicate(&self) -> (r: Self)
        ensures
            r == *self,
    ;
}

/// Some row of `rows` has key `k`.
pub open spec fn has_key<R: Row>(rows: Seq<R>, k: Seq<char>) -> bool {
    exists|i: int| 0 <= i < rows.len() && #[trigger] rows[i].key() == k
}

/// No two rows share a key.
pub open spec fn keys_distinct<R: Row>(rows: Seq<R>) -> bool {
    forall|i: int, j: int|
        0 <= i < rows.len() && 0 <= j < rows.len() && i != j ==> #[trigger] rows[i].key()
            != #[trigger] rows[j].key()
}

/// The position of a row with key `k` (meaningful when `has_key(rows, k)`).
pub open spec fn index_of<R: Row>(rows: Seq<R>, k: Seq<char>) -> int {
    choose|i: int| 0 <= i < rows.len() && #[trigger] rows[i].key() == k
}

/// The row with key `k`, or none.
pub open spec fn row_with_key<R: Row>(rows: Seq<R>, k: Seq<char>) -> Option<R> {
    if has_key(rows, k) {
        Some(rows[index_of(rows, k)])
    } else {
        None
    }
}

/// `rows` with the row keyed `k` taken out; unchanged when there is none.
pub open spec fn without_key<R: Row>(rows: Seq<R>, k: Seq<char>) -> Seq<R> {
    if has_key(rows, k) {
        rows.remove(index_of(rows, k))
    } else {
        rows
    }
}

/// With distinct keys, a position holding key `k` is the position of `k`.
pub proof fn lemma_index_unique<R: Row>(rows: Seq<R>, k: Seq<char>, i: int)
    requires
        keys_distinct(rows),
        0 <= i < rows.len(),
        rows[i].key() == k,
    ensures
        has_key(rows, k),
        index_of(rows, k) == i,
{
    assert(has_key(rows, k));
    let j = index_of(rows, k);
    assert(rows[j].key() == k);
}

/// Taking a row out keeps the remaining keys distinct, and leaves no row
/// with the removed key.
pub proof fn lemma_without_key<R: Row>(rows: Seq<R>, k: Seq<char>)
    requires
        keys_distinct(rows),
    ensures
        keys_distinct(without_key(rows, k)),
        !has_key(without_key(rows, k), k),
        without_key(rows, k).len() == if has_key(rows, k) {
            rows.len() - 1
        } else {
            rows.len() as int
        },
{
    if has_key(rows, k) {
        let x = index_of(rows, k);
        let s = rows.remove(x);
        assert forall|i: int| 0 <= i < s.len() implies #[trigger] s[i] == rows[if i < x {
            i
        } else {
            i + 1
        }] by {}
        assert forall|i: int, j: int|
            0 <= i < s.len() && 0 <= j < s.len() && i != j implies #[trigger] s[i].key()
            != #[trigger] s[j].key() by {
            let ii = if i < x { i } else { i + 1 };
            let jj = if j < x { j } else { j + 1 };
            assert(s[i] == rows[ii]);
            assert(s[j] == rows[jj]);
        }
        assert forall|i: int| 0 <= i < s.len() implies #[trigger] s[i].key() != k by {
            let ii = if i < x { i } else { i + 1 };
            assert(s[i] == rows[ii]);
            assert(rows[x].key() == k);
        }
    }
}

/// A relation of rows in storage order.
pub struct Table<R> {
    rows: Vec<R>,
}

impl<R: Row> View for Table<R> {
    type V = Seq<R>;

    closed spec fn view(&self) -> Seq<R> {
        self.rows@
    }
}

impl<R: Row> Table<R> {
    /// Identifiers are unique.
    pub open spec fn wf(&self) -> bool {
        keys_distinct(self@)
    }

    /// An empty relation.
    pub fn new() -> (r: Table<R>)
        ensures
            r@ == Seq::<R>::empty(),
            r.wf(),
    {
        Table { rows: Vec::new() }
    }

    /// The number of rows.
    pub fn count(&self) -> (r: usize)
        ensures
            r == self@.len(),
    {
        self.rows.len()
    }

    /// The position of the row with key `k`, if any.
    pub fn find(&self, k: &String) -> (r: Option<usize>)
        requires
            self.wf(),
        ensures
            r is None <==> !has_key(self@, k@),
            r matches Some(i) ==> i == index_of(self@, k@) && i < self@.len()
                && self@[i as int].key() == k@,
    {
        let n = self.rows.len();
        let mut i: usize = 0;
        while i < n
            invariant
                n == self@.len(),
                i <= n,
                self.wf(),
                forall|j: int| 0 <= j < i ==> #[trigger] self@[j].key() != k@,
            decreases n - i,
        {
            let id = self.rows[i].id();
            if *id == *k {
                proof {
                    lemma_index_unique(self@, k@, i as int);
                }
                return Some(i);
            }
            i = i + 1;
        }
        None
    }

    /// A copy of the row at position `i`.
    pub fn row_at(&self, i: usize) -> (r: R)
        requires
            i < self@.len(),
        ensures
            r == self@[i as int],
    {
        self.rows[i].duplicate()
    }

    /// A copy of the row with key `k`, if any.
    pub fn get(&self, k: &String) -> (r: Option<R>)
        requires
            self.wf(),
        ensures
            r == row_with_key(self@, k@),
    {
        match self.find(k) {
            Some(i) => Some(self.row_at(i)),
            None => None,
        }
    }

    /// Copies of all rows, in storage order.
    pub fn all(&self) -> (r: Vec<R>)
        ensures
            r@ == self@,
    {
        let n = self.rows.len();
        let mut out: Vec<R> = Vec::new();
        let mut i: usize = 0;
        while i < n
            invariant
                n == self@.len(),
                i <= n,
                out@ == self@.subrange(0, i as int),
            decreases n - i,
        {
            out.push(self.rows[i].duplicate());
            i = i + 1;
            assert(out@ =~= self@.subrange(0, i as int));
        }
        assert(self@.subrange(0, n as int) =~= self@);
        out
    }

    /// Appends `row` unless its key is already present; says whether it did.
    pub fn insert(&mut self, row: R) -> (r: bool)
        requires
            old(self).wf(),
        ensures
            r == !has_key(old(self)@, row.key()),
            r ==> final(self)@ == old(self)@.push(row),
            !r ==> final(self)@ == old(self)@,
            final(self).wf(),
    {
        match self.find(row.id()) {
            Some(_) => false,
            None => {
                let ghost k = row.key();
                self.rows.push(row);
                assert forall|i: int, j: int|
                    0 <= i < self@.len() && 0 <= j < self@.len() && i != j implies #[trigger] self@[i].key()
                    != #[trigger] self@[j].key() by {
                    if i < old(self)@.len() {
                        assert(self@[i] == old(self)@[i]);
                    }
                    if j < old(self)@.len() {
                        assert(self@[j] == old(self)@[j]);
                    }
                }
                true
            },
        }
    }

    /// Deletes the row with key `k`, if any.
    pub fn remove(&mut self, k: &String)
        requires
            old(self).wf(),
        ensures
            final(self)@ == without_key(old(self)@, k@),
            final(self).wf(),
    {
        proof {
            lemma_without_key(self@, k@);
        }
        match self.find(k) {
            Some(i) => {
                self.rows.remove(i);
            },
            None => {},
        }
    }

    /// Puts `row` at position `i`, in place of a row with the same key.
    pub fn replace(&mut self, i: usize, row: R)
        requires
            old(self).wf(),
            i < old(self)@.len(),
            row.key() == old(self)@[i as int].key(),
        ensures
            final(self)@ == old(self)@.update(i as int, row),
            final(self).wf(),
    {
        self.rows.set(i, row);
        assert forall|a: int, b: int|
            0 <= a < self@.len() && 0 <= b < self@.len() && a != b implies #[trigger] self@[a].key()
            != #[trigger] self@[b].key() by {
            assert(old(self)@[a].key() != old(self)@[b].key());
        }
    }
}

} // verus!
