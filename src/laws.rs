use vstd::prelude::*;

use crate::api::active_id;
use crate::tenure::{
    active_other, active_rows, consistent, has_id, not_excluded, single_active, without_id,
    year_taken_by_other, Tenure, TenureTable,
};

verus! {

/// In a consistent state at most one tenure is active.
pub proof fn lemma_at_most_one_active(rows: Set<Tenure>)
    requires
        consistent(rows),
    ensures
        active_rows(rows).len() <= 1,
{
    let a = active_rows(rows);
    assert(a.finite());
    if a.len() != 0 {
        let x = a.choose();
        assert(a.contains(x));
        assert(a.remove(x) =~= Set::<Tenure>::empty()) by {
            assert forall|y: Tenure| !a.remove(x).contains(y) by {
                if a.remove(x).contains(y) {
                    assert(single_active(rows));
                }
            }
        }
        assert(a.remove(x).len() == 0);
    }
}

/// Every state a table reaches through its operations is committed and
/// consistent: ids and years unique, at most one tenure active.
pub proof fn lemma_table_state_consistent(store: &TenureTable)
    requires
        store.wf(),
    ensures
        consistent(store@),
        active_rows(store@).len() <= 1,
{
    store.lemma_wf_consistent();
    lemma_at_most_one_active(store@);
}

/// A create that passes its guards (year free, no active tenure if the new
/// one is active, fresh id) leads from a consistent state to a consistent one.
pub proof fn lemma_create_keeps_consistent(rows: Set<Tenure>, t: Tenure)
    requires
        consistent(rows),
        !has_id(rows, t.id),
        !year_taken_by_other(rows, t.year, None),
        !(t.is_active && active_other(rows, None)),
    ensures
        consistent(rows.insert(t)),
{
    let n = rows.insert(t);
    assert forall|a: Tenure, b: Tenure| n.contains(a) && n.contains(b) implies (a.id == b.id ==> a == b)
        && (a.year == b.year ==> a == b) && (a.is_active && b.is_active ==> a == b) by {
        if a != t && b == t {
            assert(rows.contains(a) && not_excluded(a, None));
        } else if a == t && b != t {
            assert(rows.contains(b) && not_excluded(b, None));
        }
    }
}

/// An update of the tenure with `t.id` that passes its guards (the id
/// exists, no other tenure has the year, no other tenure is active if it is
/// to be active) leads from a consistent state to a consistent one.
pub proof fn lemma_update_keeps_consistent(rows: Set<Tenure>, t: Tenure)
    requires
        consistent(rows),
        has_id(rows, t.id),
        !year_taken_by_other(rows, t.year, Some(t.id)),
        !(t.is_active && active_other(rows, Some(t.id))),
    ensures
        consistent(without_id(rows, t.id).insert(t)),
{
    let rest = without_id(rows, t.id);
    let n = rest.insert(t);
    assert(rest.finite());
    assert forall|a: Tenure, b: Tenure| n.contains(a) && n.contains(b) implies (a.id == b.id ==> a == b)
        && (a.year == b.year ==> a == b) && (a.is_active && b.is_active ==> a == b) by {
        if a != t && b == t {
            assert(rows.contains(a) && not_excluded(a, Some(t.id)));
        } else if a == t && b != t {
            assert(rows.contains(b) && not_excluded(b, Some(t.id)));
        }
    }
}

/// Removing a tenure never breaks consistency.
pub proof fn lemma_delete_keeps_consistent(rows: Set<Tenure>, id: u128)
    requires
        consistent(rows),
    ensures
        consistent(without_id(rows, id)),
{
    assert(without_id(rows, id).finite());
}

/// Writing back a tenure's own year and active flag passes every guard of
/// an update and leaves the table as it was.
pub proof fn lemma_update_to_current_succeeds(rows: Set<Tenure>, t: Tenure)
    requires
        consistent(rows),
        rows.contains(t),
    ensures
        has_id(rows, t.id),
        !year_taken_by_other(rows, t.year, Some(t.id)),
        !(t.is_active && active_other(rows, Some(t.id))),
        without_id(rows, t.id).insert(t) == rows,
{
    assert(without_id(rows, t.id).insert(t) =~= rows);
}

/// Once some tenure is active, every create or update that would make a
/// different tenure active is refused by the activation guard.
pub proof fn lemma_active_blocks_activation(rows: Set<Tenure>, active: Tenure, id: u128)
    requires
        rows.contains(active),
        active.is_active,
        active.id != id,
    ensures
        active_other(rows, None),
        active_other(rows, Some(id)),
{
    assert(not_excluded(active, None));
    assert(not_excluded(active, Some(id)));
}

/// An active tenure can never be deleted: in a consistent state no other
/// tenure is active beside it.
pub proof fn lemma_active_never_deleted(rows: Set<Tenure>, id: u128)
    requires
        consistent(rows),
        active_id(rows, id),
    ensures
        !active_other(rows, Some(id)),
{
    if active_other(rows, Some(id)) {
        let a = choose|a: Tenure| rows.contains(a) && a.id == id && a.is_active;
        let b = choose|b: Tenure| rows.contains(b) && b.is_active && not_excluded(b, Some(id));
        assert(single_active(rows));
        assert(a == b);
    }
}

} // verus!
