//! Records kept by key, in the order in which their keys first arrived.

use vstd::prelude::*;

verus! {

/// A record that is found by a textual key.
pub trait Record: Sized {
    /// The key of the record.
    spec fn key_spec(&self) -> Seq<char>;

    /// The key of the record.
    fn key(&self) -> (r: &String)
        ensures
            r@ == self.key_spec(),
    ;
}

/// A record that belongs to another one, named by that one's key.
pub trait Child: Record {
    /// The key of the record that this one belongs to.
    spec fn parent_spec(&self) -> Seq<char>;

    /// The key of the record that this one belongs to.
    fn parent(&self) -> (r: &String)
        ensures
            r@ == self.parent_spec(),
    ;
}

/// `r` is the first position in `rows` whose key is `key`, or `None` where
/// no row has that key.
pub open spec fn is_first_with_key<R: Record>(rows: Seq<R>, key: Seq<char>, r: Option<int>) -> bool {
    match r {
        Some(i) => {
            &&& 0 <= i < rows.len()
            &&& rows[i].key_spec() == key
            &&& forall|j: int| 0 <= j < i ==> (#[trigger] rows[j]).key_spec() != key
        },
        None => forall|j: int| 0 <= j < rows.len() ==> (#[trigger] rows[j]).key_spec() != key,
    }
}

/// No two rows share a key.
pub open spec fn distinct_keys<R: Record>(rows: Seq<R>) -> bool {
    forall|i: int, j: int|
        0 <= i < j < rows.len() ==> (#[trigger] rows[i]).key_spec() != (#[trigger] rows[j]).key_spec()
}

/// `rows` with `row` written at the position `at`, or added at the end where
/// `at` is `None`.
pub open spec fn upserted<R>(rows: Seq<R>, row: R, at: Option<int>) -> Seq<R> {
    match at {
        Some(i) => rows.update(i, row),
        None => rows.push(row),
    }
}

/// `after` is `before` with `row` put at `at`, the first position of its
/// key in `before`.
pub open spec fn put_at<R: Record>(before: Seq<R>, after: Seq<R>, row: R, at: Option<int>) -> bool {
    is_first_with_key(before, row.key_spec(), at) && after == upserted(before, row, at)
}

/// `after` is `before` with `row` taken in: put in the place of the first
/// row that has its key, or at the end where no row has it.
pub open spec fn takes_in_row<R: Record>(before: Seq<R>, after: Seq<R>, row: R) -> bool {
    exists|at: Option<int>| put_at(before, after, row, at)
}

/// `after` is `before` with `record` taken in, where there is one.
pub open spec fn takes_in<R: Record>(before: Seq<R>, after: Seq<R>, record: Option<R>) -> bool {
    match record {
        Some(row) => takes_in_row(before, after, row),
        None => after == before,
    }
}

/// Where a record was taken in, the rows are those before with the record
/// at the first position of its key, whichever way that position is known.
pub proof fn lemma_taken_in<R: Record>(before: Seq<R>, after: Seq<R>, row: R, at: Option<int>)
    requires
        takes_in_row(before, after, row),
        is_first_with_key(before, row.key_spec(), at),
    ensures
        after == upserted(before, row, at),
{
    let found = choose|found: Option<int>| put_at(before, after, row, found);
    assert(found == at);
}

/// A record taken into rows that do not have its key stands at the end; one
/// taken into rows that have its key stands where the first of them stood.
pub proof fn lemma_taken_in_at<R: Record>(before: Seq<R>, after: Seq<R>, row: R)
    requires
        takes_in_row(before, after, row),
    ensures
        is_first_with_key(before, row.key_spec(), None) ==> after == before.push(row),
        forall|i: int| #[trigger]
            is_first_with_key(before, row.key_spec(), Some(i)) ==> after == before.update(i, row),
{
    if is_first_with_key(before, row.key_spec(), None) {
        lemma_taken_in(before, after, row, None);
    }
    assert forall|i: int| #[trigger]
        is_first_with_key(before, row.key_spec(), Some(i)) implies after == before.update(
        i,
        row,
    ) by {
        lemma_taken_in(before, after, row, Some(i));
    }
}

/// The positions below `n` of the rows that belong to `parent`, ascending.
pub open spec fn children_upto<R: Child>(rows: Seq<R>, parent: Seq<char>, n: int) -> Seq<usize>
    decreases n,
{
    if n <= 0 {
        Seq::empty()
    } else if rows[n - 1].parent_spec() == parent {
        children_upto(rows, parent, n - 1).push((n - 1) as usize)
    } else {
        children_upto(rows, parent, n - 1)
    }
}

/// The positions of the rows that belong to `parent`, ascending.
pub open spec fn children<R: Child>(rows: Seq<R>, parent: Seq<char>) -> Seq<usize> {
    children_upto(rows, parent, rows.len() as int)
}

/// Every position in `order` is below `n`.
pub open spec fn in_range(order: Seq<usize>, n: int) -> bool {
    forall|k: int| 0 <= k < order.len() ==> (#[trigger] order[k]) < n
}

/// The positions that `children_upto` lists are below `n`, ascend strictly,
/// and are those of rows that belong to `parent`.
pub proof fn lemma_children_upto<R: Child>(rows: Seq<R>, parent: Seq<char>, n: int)
    requires
        0 <= n <= rows.len(),
        n <= usize::MAX,
    ensures
        children_upto(rows, parent, n).len() <= n,
        in_range(children_upto(rows, parent, n), n),
        forall|k: int|
            0 <= k < children_upto(rows, parent, n).len() ==> rows[#[trigger] children_upto(
                rows,
                parent,
                n,
            )[k] as int].parent_spec() == parent,
        forall|k: int, l: int|
            0 <= k < l < children_upto(rows, parent, n).len() ==> children_upto(rows, parent, n)[k]
                < children_upto(rows, parent, n)[l],
    decreases n,
{
    if n > 0 {
        lemma_children_upto(rows, parent, n - 1);
    }
}

/// Every row below `n` that belongs to `parent` is listed by `children_upto`.
pub proof fn lemma_children_complete<R: Child>(rows: Seq<R>, parent: Seq<char>, n: int, i: int)
    requires
        0 <= i < n <= rows.len(),
        n <= usize::MAX,
        rows[i].parent_spec() == parent,
    ensures
        children_upto(rows, parent, n).contains(i as usize),
    decreases n,
{
    if i == n - 1 {
        let s = children_upto(rows, parent, n);
        assert(s[s.len() - 1] == i as usize);
    } else {
        lemma_children_complete(rows, parent, n - 1, i);
        let p = children_upto(rows, parent, n - 1);
        let k = choose|k: int| 0 <= k < p.len() && p[k] == i as usize;
        assert(children_upto(rows, parent, n)[k] == i as usize);
    }
}

/// Records kept by key: at most one per key, in the order in which the keys
/// first arrived.
#[derive(Clone, Debug)]
pub struct Table<R> {
    rows: Vec<R>,
}

impl<R: Record> View for Table<R> {
    type V = Seq<R>;

    /// The records, in the order in which their keys first arrived.
    closed spec fn view(&self) -> Seq<R> {
        self.rows@
    }
}

impl<R: Record> Table<R> {
    /// The table's invariant: no two records share a key.
    pub open spec fn wf(&self) -> bool {
        distinct_keys(self@)
    }

    /// The empty table.
    pub fn new() -> (r: Self)
        ensures
            r@ == Seq::<R>::empty(),
            r.wf(),
    {
        Table { rows: Vec::new() }
    }

    /// The number of records.
    pub fn len(&self) -> (r: usize)
        ensures
            r == self@.len(),
    {
        self.rows.len()
    }

    /// The record at position `i`.
    pub fn row(&self, i: usize) -> (r: &R)
        requires
            i < self@.len(),
        ensures
            *r == self@[i as int],
    {
        &self.rows[i]
    }

    /// The first position whose record has the key `key`.
    pub fn find(&self, key: &String) -> (r: Option<usize>)
        ensures
            is_first_with_key(
                self@,
                key@,
                match r {
                    Some(i) => Some(i as int),
                    None => None,
                },
            ),
    {
        let mut i: usize = 0;
        while i < self.rows.len()
            invariant
                i <= self.rows.len(),
                forall|j: int| 0 <= j < i ==> (#[trigger] self.rows[j]).key_spec() != key@,
            decreases self.rows.len() - i,
        {
            if *self.rows[i].key() == *key {
                return Some(i);
            }
            i += 1;
        }
        None
    }

    /// The record with the key `key`.
    pub fn get(&self, key: &String) -> (r: Option<&R>)
        ensures
            match r {
                Some(row) => exists|i: int|
                    #[trigger] is_first_with_key(self@, key@, Some(i)) && *row == self@[i],
                None => is_first_with_key(self@, key@, None),
            },
    {
        match self.find(key) {
            Some(i) => {
                assert(is_first_with_key(self@, key@, Some(i as int)));
                Some(&self.rows[i])
            },
            None => None,
        }
    }

    /// All records, in the table's order.
    pub fn all(&self) -> (r: Vec<&R>)
        ensures
            r@.len() == self@.len(),
            forall|k: int| 0 <= k < r@.len() ==> *(#[trigger] r@[k]) == self@[k],
    {
        let mut out: Vec<&R> = Vec::new();
        let mut k: usize = 0;
        while k < self.rows.len()
            invariant
                k <= self.rows.len(),
                out.len() == k,
                forall|a: int| 0 <= a < k ==> *(#[trigger] out@[a]) == self@[a],
            decreases self.rows.len() - k,
        {
            out.push(&self.rows[k]);
            k += 1;
        }
        out
    }

    /// Puts `row` in the place of the record that has its key, or at the end
    /// where no record has it.
    pub fn upsert(&mut self, row: R)
        ensures
            old(self).wf() ==> final(self).wf(),
            takes_in_row(old(self)@, final(self)@, row),
    {
        let found = self.find(row.key());
        let ghost at: Option<int> = match found {
            Some(i) => Some(i as int),
            None => None,
        };
        match found {
            Some(i) => {
                self.rows[i] = row;
            },
            None => {
                self.rows.push(row);
            },
        }
        assert(put_at(old(self)@, self@, row, at));
    }
}

impl<R: Child> Table<R> {
    /// The positions of the records that belong to `parent`, ascending.
    pub fn children_of(&self, parent: &String) -> (r: Vec<usize>)
        ensures
            r@ == children(self@, parent@),
            in_range(r@, self@.len() as int),
    {
        let mut out: Vec<usize> = Vec::new();
        let mut i: usize = 0;
        while i < self.rows.len()
            invariant
                i <= self.rows.len(),
                out@ == children_upto(self@, parent@, i as int),
            decreases self.rows.len() - i,
        {
            if *self.rows[i].parent() == *parent {
                out.push(i);
            }
            i += 1;
        }
        proof {
            lemma_children_upto(self@, parent@, self@.len() as int);
        }
        out
    }

    /// The records that belong to `parent`, in the table's order.
    pub fn members_of(&self, parent: &String) -> (r: Vec<&R>)
        ensures
            r@.len() == children(self@, parent@).len(),
            forall|k: int|
                0 <= k < r@.len() ==> *(#[trigger] r@[k]) == self@[children(self@, parent@)[k] as int],
    {
        let picked = self.children_of(parent);
        let mut out: Vec<&R> = Vec::new();
        let mut k: usize = 0;
        while k < picked.len()
            invariant
                k <= picked.len(),
                out.len() == k,
                picked@ == children(self@, parent@),
                in_range(picked@, self@.len() as int),
                forall|a: int| 0 <= a < k ==> *(#[trigger] out@[a]) == self@[picked@[a] as int],
            decreases picked.len() - k,
        {
            out.push(&self.rows[picked[k]]);
            k += 1;
        }
        out
    }

}

} // verus!
