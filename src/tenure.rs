use vstd::prelude::*;

verus! {

/// One yearly membership period. `id` is the 128-bit value of the record's UUID.
#[derive(Clone, Copy, Debug, PartialEq, Eq, Structural)]
pub struct Tenure {
    pub id: u128,
    pub year: i32,
    pub is_active: bool,
}

/// No two rows share an id.
pub open spec fn ids_unique(rows: Set<Tenure>) -> bool {
    forall|a: Tenure, b: Tenure| rows.contains(a) && rows.contains(b) && a.id == b.id ==> a == b
}

/// No two rows share a year.
pub open spec fn years_unique(rows: Set<Tenure>) -> bool {
    forall|a: Tenure, b: Tenure| rows.contains(a) && rows.contains(b) && a.year == b.year ==> a == b
}

/// No two rows are active.
pub open spec fn single_active(rows: Set<Tenure>) -> bool {
    forall|a: Tenure, b: Tenure| rows.contains(a) && rows.contains(b) && a.is_active && b.is_active ==> a == b
}

/// A committed state of the tenure table.
pub open spec fn consistent(rows: Set<Tenure>) -> bool {
    &&& rows.finite()
    &&& ids_unique(rows)
    &&& years_unique(rows)
    &&& single_active(rows)
}

pub open spec fn active_rows(rows: Set<Tenure>) -> Set<Tenure> {
    rows.filter(|t: Tenure| t.is_active)
}

/// Whether the row `t` is not the one excluded.
pub open spec fn not_excluded(t: Tenure, exclude: Option<u128>) -> bool {
    exclude != Some(t.id)
}

pub open spec fn has_id(rows: Set<Tenure>, id: u128) -> bool {
    exists|t: Tenure| rows.contains(t) && t.id == id
}

pub open spec fn has_year(rows: Set<Tenure>, year: i32) -> bool {
    exists|t: Tenure| rows.contains(t) && t.year == year
}

/// Some row other than `exclude` has `year`.
pub open spec fn year_taken_by_other(rows: Set<Tenure>, year: i32, exclude: Option<u128>) -> bool {
    exists|t: Tenure| rows.contains(t) && t.year == year && not_excluded(t, exclude)
}

/// Some row other than `exclude` is active.
pub open spec fn active_other(rows: Set<Tenure>, exclude: Option<u128>) -> bool {
    exists|t: Tenure| rows.contains(t) && t.is_active && not_excluded(t, exclude)
}

/// The rows left once the row with `id` is gone.
pub open spec fn without_id(rows: Set<Tenure>, id: u128) -> Set<Tenure> {
    rows.filter(|t: Tenure| t.id != id)
}

/// Years strictly decrease along the sequence.
pub open spec fn descending(rows: Seq<Tenure>) -> bool {
    forall|i: int, j: int| 0 <= i < j < rows.len() ==> rows[i].year > rows[j].year
}

/// No two rows of the sequence share an id or a year, or are both active.
pub open spec fn compatible(rows: Seq<Tenure>) -> bool {
    forall|i: int, j: int|
        0 <= i < j < rows.len() ==> rows[i].id != rows[j].id && rows[i].year != rows[j].year
            && !(rows[i].is_active && rows[j].is_active)
}

/// A failure of the store itself, on which the enclosing transaction is rolled back.
#[derive(Clone, Copy, Debug, PartialEq, Eq, Structural)]
pub enum StorageError {
    /// The row addressed by id is not there.
    RowNotFound,
    /// The write would break a uniqueness constraint of the table
    /// (id, year, or the single active row).
    UniqueViolation,
}

/// The tenure table, with its rows kept in descending order of year.
pub struct TenureTable {
    rows: Vec<Tenure>,
}

impl View for TenureTable {
    type V = Set<Tenure>;

    closed spec fn view(&self) -> Set<Tenure> {
        self.rows@.to_set()
    }
}

proof fn lemma_insert_to_set(s: Seq<Tenure>, i: int, x: Tenure)
    requires
        0 <= i <= s.len(),
    ensures
        s.insert(i, x).to_set() =~= s.to_set().insert(x),
{
    let n = s.insert(i, x);
    assert forall|y: Tenure| n.to_set().contains(y) <==> s.to_set().insert(x).contains(y) by {
        if n.contains(y) {
            let k = choose|k: int| 0 <= k < n.len() && n[k] == y;
            if k < i {
                assert(s[k] == y);
            } else if k > i {
                assert(s[k - 1] == y);
            }
        }
        if s.contains(y) {
            let k = choose|k: int| 0 <= k < s.len() && s[k] == y;
            if k < i {
                assert(n[k] == y);
            } else {
                assert(n[k + 1] == y);
            }
        }
        if y == x {
            assert(n[i] == x);
        }
    }
}

proof fn lemma_remove_to_set(s: Seq<Tenure>, i: int)
    requires
        0 <= i < s.len(),
        forall|a: int, b: int| 0 <= a < b < s.len() ==> s[a].id != s[b].id,
    ensures
        s.remove(i).to_set() =~= without_id(s.to_set(), s[i].id),
{
    let n = s.remove(i);
    let id = s[i].id;
    assert forall|y: Tenure| n.to_set().contains(y) <==> without_id(s.to_set(), id).contains(y) by {
        if n.contains(y) {
            let k = choose|k: int| 0 <= k < n.len() && n[k] == y;
            if k < i {
                assert(s[k] == y);
            } else {
                assert(s[k + 1] == y);
            }
        }
        if s.contains(y) && y.id != id {
            let k = choose|k: int| 0 <= k < s.len() && s[k] == y;
            if k < i {
                assert(n[k] == y);
            } else {
                assert(k != i);
                assert(n[k - 1] == y);
            }
        }
    }
}

impl TenureTable {
    /// The table's own invariant: rows in strictly descending order of year
    /// (hence unique years), unique ids, at most one active row.
    pub closed spec fn wf(&self) -> bool {
        &&& descending(self.rows@)
        &&& forall|i: int, j: int| 0 <= i < j < self.rows@.len() ==> self.rows@[i].id != self.rows@[j].id
        &&& forall|i: int, j: int|
            0 <= i < j < self.rows@.len() ==> !(self.rows@[i].is_active && self.rows@[j].is_active)
    }

    /// A well-formed table holds a consistent set of rows.
    pub proof fn lemma_wf_consistent(&self)
        requires
            self.wf(),
        ensures
            consistent(self@),
    {
        let s = self.rows@;
        assert forall|a: Tenure, b: Tenure| self@.contains(a) && self@.contains(b) implies
            (a.id == b.id ==> a == b) && (a.year == b.year ==> a == b)
                && (a.is_active && b.is_active ==> a == b) by {
            let i = choose|i: int| 0 <= i < s.len() && s[i] == a;
            let j = choose|j: int| 0 <= j < s.len() && s[j] == b;
            if i < j {
                assert(s[i].year > s[j].year);
            } else if j < i {
                assert(s[j].year > s[i].year);
            }
        }
        vstd::seq_lib::seq_to_set_is_finite(s);
    }

    pub fn new() -> (r: Self)
        ensures
            r.wf(),
            r@ == Set::<Tenure>::empty(),
    {
        let r = TenureTable { rows: Vec::new() };
        assert(r@ =~= Set::<Tenure>::empty());
        r
    }

    /// Every row, in descending order of year.
    pub fn get_all(&self) -> (r: Vec<Tenure>)
        requires
            self.wf(),
        ensures
            r@.to_set() == self@,
            r@.len() == self@.len(),
            descending(r@),
    {
        let mut out: Vec<Tenure> = Vec::new();
        let mut i: usize = 0;
        while i < self.rows.len()
            invariant
                0 <= i <= self.rows@.len(),
                out@ == self.rows@.take(i as int),
            decreases self.rows.len() - i,
        {
            out.push(self.rows[i]);
            assert(out@ =~= self.rows@.take(i as int + 1));
            i += 1;
        }
        assert(out@ =~= self.rows@);
        proof {
            assert(self.rows@.no_duplicates()) by {
                assert forall|a: int, b: int| 0 <= a < self.rows@.len() && 0 <= b < self.rows@.len() && a != b
                    implies self.rows@[a] != self.rows@[b] by {
                    if a < b {
                        assert(self.rows@[a].id != self.rows@[b].id);
                    } else {
                        assert(self.rows@[b].id != self.rows@[a].id);
                    }
                }
            }
            self.rows@.unique_seq_to_set();
        }
        out
    }

    pub fn exists_by_id(&self, id: u128) -> (r: bool)
        ensures
            r == has_id(self@, id),
    {
        let mut i: usize = 0;
        while i < self.rows.len()
            invariant
                0 <= i <= self.rows@.len(),
                forall|k: int| 0 <= k < i ==> (#[trigger] self.rows@[k]).id != id,
            decreases self.rows.len() - i,
        {
            if self.rows[i].id == id {
                assert(self.rows@.contains(self.rows@[i as int]));
                assert(self@.contains(self.rows@[i as int]));
                return true;
            }
            i += 1;
        }
        false
    }

    pub fn exists_by_year(&self, year: i32) -> (r: bool)
        ensures
            r == has_year(self@, year),
    {
        let mut i: usize = 0;
        while i < self.rows.len()
            invariant
                0 <= i <= self.rows@.len(),
                forall|k: int| 0 <= k < i ==> (#[trigger] self.rows@[k]).year != year,
            decreases self.rows.len() - i,
        {
            if self.rows[i].year == year {
                assert(self.rows@.contains(self.rows@[i as int]));
                assert(self@.contains(self.rows@[i as int]));
                return true;
            }
            i += 1;
        }
        false
    }

    /// Whether some row other than `exclude_id` has `year`.
    pub fn is_year_taken_by_other(&self, year: i32, exclude_id: Option<u128>) -> (r: bool)
        ensures
            r == year_taken_by_other(self@, year, exclude_id),
    {
        let mut i: usize = 0;
        while i < self.rows.len()
            invariant
                0 <= i <= self.rows@.len(),
                forall|k: int| 0 <= k < i ==>
                    !((#[trigger] self.rows@[k]).year == year && not_excluded(self.rows@[k], exclude_id)),
            decreases self.rows.len() - i,
        {
            let t = self.rows[i];
            let excluded = match exclude_id {
                Some(x) => x == t.id,
                None => false,
            };
            if t.year == year && !excluded {
                assert(self.rows@.contains(self.rows@[i as int]));
                assert(self@.contains(self.rows@[i as int]));
                return true;
            }
            i += 1;
        }
        false
    }

    /// Whether some row other than `exclude_id` is active.
    pub fn has_active_tenure(&self, exclude_id: Option<u128>) -> (r: bool)
        ensures
            r == active_other(self@, exclude_id),
    {
        let mut i: usize = 0;
        while i < self.rows.len()
            invariant
                0 <= i <= self.rows@.len(),
                forall|k: int| 0 <= k < i ==>
                    !((#[trigger] self.rows@[k]).is_active && not_excluded(self.rows@[k], exclude_id)),
            decreases self.rows.len() - i,
        {
            let t = self.rows[i];
            let excluded = match exclude_id {
                Some(x) => x == t.id,
                None => false,
            };
            if t.is_active && !excluded {
                assert(self.rows@.contains(self.rows@[i as int]));
                assert(self@.contains(self.rows@[i as int]));
                return true;
            }
            i += 1;
        }
        false
    }

    /// The row with `id`, if there is one.
    pub fn find_by_id(&self, id: u128) -> (r: Option<Tenure>)
        requires
            self.wf(),
        ensures
            match r {
                Some(t) => self@.contains(t) && t.id == id,
                None => !has_id(self@, id),
            },
    {
        match self.position_of(id) {
            Some(i) => Some(self.rows[i]),
            None => None,
        }
    }

    fn position_of(&self, id: u128) -> (r: Option<usize>)
        ensures
            match r {
                Some(i) => i < self.rows@.len() && self.rows@[i as int].id == id,
                None => !has_id(self@, id),
            },
    {
        let mut i: usize = 0;
        while i < self.rows.len()
            invariant
                0 <= i <= self.rows@.len(),
                forall|k: int| 0 <= k < i ==> (#[trigger] self.rows@[k]).id != id,
            decreases self.rows.len() - i,
        {
            if self.rows[i].id == id {
                return Some(i);
            }
            i += 1;
        }
        None
    }

    /// Puts `t` at its place in year order.
    fn insert_sorted(&mut self, t: Tenure)
        requires
            old(self).wf(),
            !has_id(old(self)@, t.id),
            !has_year(old(self)@, t.year),
            t.is_active ==> !active_other(old(self)@, None),
        ensures
            final(self).wf(),
            final(self)@ == old(self)@.insert(t),
    {
        let ghost s = self.rows@;
        let mut i: usize = 0;
        while i < self.rows.len() && self.rows[i].year > t.year
            invariant
                self.rows@ == s,
                0 <= i <= s.len(),
                forall|k: int| 0 <= k < i ==> (#[trigger] s[k]).year > t.year,
            decreases self.rows.len() - i,
        {
            i += 1;
        }
        assert forall|k: int| 0 <= k < s.len() implies (#[trigger] s[k]).id != t.id && s[k].year != t.year
            && !(s[k].is_active && t.is_active) by {
            assert(s.contains(s[k]));
            assert(self@.contains(s[k]));
        }
        assert forall|k: int| i <= k < s.len() implies (#[trigger] s[k]).year < t.year by {
            if k > i {
                assert(s[i as int].year > s[k].year);
            }
        }
        self.rows.insert(i, t);
        proof {
            lemma_insert_to_set(s, i as int, t);
            let n = self.rows@;
            assert forall|a: int, b: int| 0 <= a < b < n.len() implies n[a].year > n[b].year by {
                if b < i {
                } else if b == i {
                } else if a < i {
                } else if a == i {
                } else {
                    assert(n[a] == s[a - 1] && n[b] == s[b - 1]);
                }
            }
        }
    }

    /// Takes out the row at `pos`.
    fn remove_at(&mut self, pos: usize) -> (r: Tenure)
        requires
            old(self).wf(),
            pos < old(self).rows@.len(),
        ensures
            final(self).wf(),
            r == old(self).rows@[pos as int],
            old(self)@.contains(r),
            final(self)@ == without_id(old(self)@, r.id),
    {
        let ghost s = self.rows@;
        proof {
            lemma_remove_to_set(s, pos as int);
            assert(s.contains(s[pos as int]));
        }
        let r = self.rows.remove(pos);
        proof {
            let n = self.rows@;
            assert forall|a: int, b: int| 0 <= a < b < n.len() implies n[a].year > n[b].year
                && n[a].id != n[b].id && !(n[a].is_active && n[b].is_active) by {
                if b < pos {
                } else if a < pos {
                    assert(n[b] == s[b + 1]);
                } else {
                    assert(n[a] == s[a + 1] && n[b] == s[b + 1]);
                }
            }
        }
        r
    }

    /// Inserts a new row. The table refuses a row whose id or year is taken,
    /// or a second active row.
    pub fn create(&mut self, id: u128, year: i32, is_active: bool) -> (r: Result<Tenure, StorageError>)
        requires
            old(self).wf(),
        ensures
            final(self).wf(),
            r is Ok <==> !has_id(old(self)@, id) && !has_year(old(self)@, year)
                && !(is_active && active_other(old(self)@, None)),
            r is Ok ==> r->Ok_0 == (Tenure { id, year, is_active })
                && final(self)@ == old(self)@.insert(r->Ok_0),
            r is Err ==> r->Err_0 == StorageError::UniqueViolation && final(self)@ == old(self)@,
    {
        if self.exists_by_id(id) || self.exists_by_year(year) || (is_active && self.has_active_tenure(None)) {
            return Err(StorageError::UniqueViolation);
        }
        let t = Tenure { id, year, is_active };
        self.insert_sorted(t);
        Ok(t)
    }

    /// Replaces year and active flag of the row with `id`, under the same
    /// constraints as `create`, the row itself left out of them.
    pub fn update(&mut self, id: u128, year: i32, is_active: bool) -> (r: Result<Tenure, StorageError>)
        requires
            old(self).wf(),
        ensures
            final(self).wf(),
            !has_id(old(self)@, id) ==> r == Err::<Tenure, StorageError>(StorageError::RowNotFound),
            has_id(old(self)@, id) && (year_taken_by_other(old(self)@, year, Some(id))
                || (is_active && active_other(old(self)@, Some(id))))
                ==> r == Err::<Tenure, StorageError>(StorageError::UniqueViolation),
            r is Ok <==> has_id(old(self)@, id) && !year_taken_by_other(old(self)@, year, Some(id))
                && !(is_active && active_other(old(self)@, Some(id))),
            r is Ok ==> r->Ok_0 == (Tenure { id, year, is_active })
                && final(self)@ == without_id(old(self)@, id).insert(r->Ok_0),
            r is Err ==> final(self)@ == old(self)@,
    {
        let pos = match self.position_of(id) {
            Some(p) => p,
            None => return Err(StorageError::RowNotFound),
        };
        proof {
            assert(self@.contains(self.rows@[pos as int]));
        }
        if self.is_year_taken_by_other(year, Some(id)) || (is_active && self.has_active_tenure(Some(id))) {
            return Err(StorageError::UniqueViolation);
        }
        let ghost before = self@;
        self.remove_at(pos);
        let t = Tenure { id, year, is_active };
        proof {
            assert(!has_id(self@, id));
            assert(!has_year(self@, year)) by {
                if has_year(self@, year) {
                    let w = choose|w: Tenure| self@.contains(w) && w.year == year;
                    assert(before.contains(w) && w.id != id);
                }
            }
            assert(is_active ==> !active_other(self@, None)) by {
                if is_active && active_other(self@, None) {
                    let w = choose|w: Tenure| self@.contains(w) && w.is_active && not_excluded(w, None);
                    assert(before.contains(w) && w.id != id);
                }
            }
        }
        self.insert_sorted(t);
        Ok(t)
    }

    /// Removes the row with `id`, handing back its id.
    pub fn delete(&mut self, id: u128) -> (r: Result<u128, StorageError>)
        requires
            old(self).wf(),
        ensures
            final(self).wf(),
            r is Ok <==> has_id(old(self)@, id),
            r is Ok ==> r->Ok_0 == id && final(self)@ == without_id(old(self)@, id),
            r is Err ==> r->Err_0 == StorageError::RowNotFound && final(self)@ == old(self)@,
    {
        match self.position_of(id) {
            Some(pos) => {
                self.remove_at(pos);
                Ok(id)
            },
            None => Err(StorageError::RowNotFound),
        }
    }

    /// Builds a table from rows read elsewhere; refused when two of them clash.
    pub fn load(rows: &Vec<Tenure>) -> (r: Result<TenureTable, StorageError>)
        ensures
            r is Ok <==> compatible(rows@),
            r is Ok ==> r->Ok_0.wf() && r->Ok_0@ == rows@.to_set(),
            r is Err ==> r->Err_0 == StorageError::UniqueViolation,
    {
        let mut table = TenureTable::new();
        let mut i: usize = 0;
        while i < rows.len()
            invariant
                0 <= i <= rows@.len(),
                table.wf(),
                table@ == rows@.take(i as int).to_set(),
                compatible(rows@.take(i as int)),
            decreases rows.len() - i,
        {
            let t = rows[i];
            let ghost pre = rows@.take(i as int);
            let ghost next = rows@.take(i as int + 1);
            assert(next =~= pre.push(t));
            proof {
                pre.lemma_push_to_set_commute(t);
            }
            let ghost before = table@;
            match table.create(t.id, t.year, t.is_active) {
                Ok(_) => {
                    proof {
                        assert forall|a: int| 0 <= a < i implies next[a].id != t.id && next[a].year != t.year
                            && !(next[a].is_active && t.is_active) by {
                            assert(next[a] == pre[a]);
                            assert(pre.contains(pre[a]));
                            assert(before.contains(pre[a]));
                            assert(not_excluded(pre[a], None));
                        }
                        assert forall|a: int, b: int| 0 <= a < b < next.len() implies next[a].id != next[b].id
                            && next[a].year != next[b].year && !(next[a].is_active && next[b].is_active) by {
                            if b < i {
                                assert(next[a] == pre[a] && next[b] == pre[b]);
                            }
                        }
                    }
                },
                Err(e) => {
                    proof {
                        assert(!compatible(rows@)) by {
                            if has_id(pre.to_set(), t.id) {
                                let w = choose|w: Tenure| pre.to_set().contains(w) && w.id == t.id;
                                let k = choose|k: int| 0 <= k < pre.len() && pre[k] == w;
                                assert(rows@[k] == w);
                            } else if has_year(pre.to_set(), t.year) {
                                let w = choose|w: Tenure| pre.to_set().contains(w) && w.year == t.year;
                                let k = choose|k: int| 0 <= k < pre.len() && pre[k] == w;
                                assert(rows@[k] == w);
                            } else {
                                let w = choose|w: Tenure| pre.to_set().contains(w) && w.is_active
                                    && not_excluded(w, None);
                                let k = choose|k: int| 0 <= k < pre.len() && pre[k] == w;
                                assert(rows@[k] == w);
                            }
                        }
                    }
                    return Err(e);
                },
            }
            i += 1;
        }
        assert(rows@.take(rows@.len() as int) =~= rows@);
        Ok(table)
    }
}

} // verus!
