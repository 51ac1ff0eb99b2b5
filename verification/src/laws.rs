use vstd::prelude::*;

use crate::rows::{has_id, remove_id, row_for, unique_ids, update_rows};
use crate::user_model::UserView;

verus! {

/// Round trip: creating a row whose identifier is fresh keeps identifiers
/// unique, makes the identifier visible, and a lookup of it can find only
/// the created row.
pub proof fn lemma_round_trip(rows: Seq<UserView>, u: UserView)
    requires
        unique_ids(rows),
        !has_id(rows, u.id),
    ensures
        unique_ids(rows.push(u)),
        has_id(rows.push(u), u.id),
        forall|v: UserView| row_for(rows.push(u), u.id, v) ==> v == u,
{
    let pushed = rows.push(u);
    assert(pushed[rows.len() as int] == u);
    assert forall|i: int, j: int| 0 <= i < j < pushed.len() implies pushed[i].id
        != pushed[j].id by {
        if j == rows.len() {
            assert(pushed[i] == rows[i]);
            if rows[i].id == u.id {
                assert(has_id(rows, u.id));
            }
        }
    }
    assert forall|v: UserView| row_for(pushed, u.id, v) implies v == u by {
        let i = choose|i: int| 0 <= i < pushed.len() && pushed[i] == v;
        if i < rows.len() {
            assert(rows[i] == v);
            assert(has_id(rows, u.id));
        }
    }
}

/// Update confirms persisted state: after an update keyed by `u.id`, a row
/// found under that identifier can only be `u` itself; each row keeps its
/// identifier, so uniqueness and visibility are preserved; and when no row
/// carries the identifier the rows are unchanged.
pub proof fn lemma_update_confirms(rows: Seq<UserView>, u: UserView)
    ensures
        forall|v: UserView| row_for(update_rows(rows, u), u.id, v) ==> v == u,
        has_id(rows, u.id) ==> has_id(update_rows(rows, u), u.id),
        forall|i: int| 0 <= i < rows.len() ==> (#[trigger] update_rows(rows, u)[i]).id
            == rows[i].id,
        unique_ids(rows) ==> unique_ids(update_rows(rows, u)),
        !has_id(rows, u.id) ==> update_rows(rows, u) == rows,
{
    let updated = update_rows(rows, u);
    assert(updated.len() == rows.len());
    assert forall|v: UserView| row_for(updated, u.id, v) implies v == u by {
        let i = choose|i: int| 0 <= i < updated.len() && updated[i] == v;
        assert(updated[i] == if rows[i].id == u.id {
            u
        } else {
            rows[i]
        });
    }
    if has_id(rows, u.id) {
        let i = choose|i: int| 0 <= i < rows.len() && rows[i].id == u.id;
        assert(updated[i] == u);
    }
    if !has_id(rows, u.id) {
        assert forall|i: int| 0 <= i < rows.len() implies updated[i] == rows[i] by {
            if rows[i].id == u.id {
                assert(has_id(rows, u.id));
            }
        }
        assert(updated =~= rows);
    }
}

/// Delete removes visibility: after removing the rows keyed by `id`, no row
/// carries `id` any more; exactly the rows with another identifier remain;
/// and uniqueness of identifiers is preserved.
pub proof fn lemma_delete_removes(rows: Seq<UserView>, id: Seq<char>)
    ensures
        !has_id(remove_id(rows, id), id),
        forall|v: UserView| #[trigger] remove_id(rows, id).contains(v) <==> rows.contains(v)
            && v.id != id,
        unique_ids(rows) ==> unique_ids(remove_id(rows, id)),
        remove_id(rows, id).len() <= rows.len(),
    decreases rows.len(),
{
    let out = remove_id(rows, id);
    if rows.len() == 0 {
        assert forall|v: UserView| #[trigger] out.contains(v) <==> rows.contains(v) && v.id
            != id by {
            if out.contains(v) {
                let i = choose|i: int| 0 <= i < out.len() && out[i] == v;
            }
        }
        assert(!has_id(out, id)) by {
            if has_id(out, id) {
                let i = choose|i: int| 0 <= i < out.len() && out[i].id == id;
            }
        }
    } else {
        let prefix = rows.drop_last();
        let last = rows.last();
        lemma_delete_removes(prefix, id);
        let rest = remove_id(prefix, id);
        assert(unique_ids(rows) ==> unique_ids(prefix)) by {
            if unique_ids(rows) {
                assert forall|i: int, j: int| 0 <= i < j < prefix.len() implies prefix[i].id
                    != prefix[j].id by {
                    assert(prefix[i] == rows[i]);
                    assert(prefix[j] == rows[j]);
                }
            }
        }
        assert forall|v: UserView| prefix.contains(v) implies rows.contains(v) by {
            let i = choose|i: int| 0 <= i < prefix.len() && prefix[i] == v;
            assert(rows[i] == v);
        }
        assert forall|v: UserView| rows.contains(v) implies v == last || prefix.contains(
            v,
        ) by {
            let i = choose|i: int| 0 <= i < rows.len() && rows[i] == v;
            if i < rows.len() - 1 {
                assert(prefix[i] == v);
            }
        }
        if last.id == id {
            assert(out == rest);
        } else {
            assert(out == rest.push(last));
            assert forall|v: UserView| out.contains(v) implies rest.contains(v) || v
                == last by {
                let i = choose|i: int| 0 <= i < out.len() && out[i] == v;
                if i < rest.len() {
                    assert(rest[i] == v);
                }
            }
            assert forall|v: UserView| rest.contains(v) implies out.contains(v) by {
                let i = choose|i: int| 0 <= i < rest.len() && rest[i] == v;
                assert(out[i] == v);
            }
            assert(out[rest.len() as int] == last);
            assert(!has_id(out, id)) by {
                if has_id(out, id) {
                    let i = choose|i: int| 0 <= i < out.len() && out[i].id == id;
                    assert(out.contains(out[i]));
                }
            }
            if unique_ids(rows) {
                assert forall|i: int, j: int| 0 <= i < j < out.len() implies out[i].id
                    != out[j].id by {
                    if j == rest.len() {
                        assert(rest.contains(rest[i]));
                        assert(prefix.contains(rest[i]));
                        let k = choose|k: int| 0 <= k < prefix.len() && prefix[k] == rest[i];
                        assert(rows[k] == prefix[k]);
                        assert(rows[rows.len() - 1] == last);
                    }
                }
            }
        }
    }
}

/// Rewriting the just-created row of a fresh identifier with another row
/// carrying the same identifier touches only that row.
pub proof fn lemma_update_fresh_push(rows: Seq<UserView>, w: UserView, u: UserView)
    requires
        !has_id(rows, u.id),
        w.id == u.id,
    ensures
        update_rows(rows.push(w), u) == rows.push(u),
{
    let pushed = rows.push(w);
    let updated = update_rows(pushed, u);
    assert forall|i: int| 0 <= i < pushed.len() implies updated[i] == rows.push(u)[i] by {
        if i < rows.len() {
            assert(pushed[i] == rows[i]);
            if rows[i].id == u.id {
                assert(has_id(rows, u.id));
            }
        } else {
            assert(pushed[i] == w);
        }
    }
    assert(updated =~= rows.push(u));
}

/// Removing an absent identifier changes nothing.
pub proof fn lemma_remove_absent(rows: Seq<UserView>, id: Seq<char>)
    requires
        !has_id(rows, id),
    ensures
        remove_id(rows, id) == rows,
    decreases rows.len(),
{
    if rows.len() > 0 {
        let prefix = rows.drop_last();
        assert(!has_id(prefix, id)) by {
            if has_id(prefix, id) {
                let i = choose|i: int| 0 <= i < prefix.len() && prefix[i].id == id;
                assert(rows[i] == prefix[i]);
            }
        }
        lemma_remove_absent(prefix, id);
        assert(rows[rows.len() - 1] == rows.last());
        if rows.last().id == id {
            assert(has_id(rows, id));
        }
        assert(remove_id(rows, id) == prefix.push(rows.last()));
        assert(prefix.push(rows.last()) =~= rows);
    } else {
        assert(remove_id(rows, id) =~= rows);
    }
}

/// Deleting a freshly created identifier restores the earlier rows.
pub proof fn lemma_remove_fresh_push(rows: Seq<UserView>, u: UserView)
    requires
        !has_id(rows, u.id),
    ensures
        remove_id(rows.push(u), u.id) == rows,
{
    let pushed = rows.push(u);
    assert(pushed.drop_last() =~= rows);
    assert(pushed.last() == u);
    lemma_remove_absent(rows, u.id);
}

} // verus!
