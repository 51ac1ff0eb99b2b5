use vstd::prelude::*;

use crate::user_model::UserView;

verus! {

/// Whether some row of `rows` carries the identifier `id`.
pub open spec fn has_id(rows: Seq<UserView>, id: Seq<char>) -> bool {
    exists|i: int| 0 <= i < rows.len() && rows[i].id == id
}

/// Whether `u` is a row of `rows` and carries the identifier `id`.
pub open spec fn row_for(rows: Seq<UserView>, id: Seq<char>, u: UserView) -> bool {
    u.id == id && rows.contains(u)
}

/// No two rows share an identifier: the primary-key invariant of the store.
pub open spec fn unique_ids(rows: Seq<UserView>) -> bool {
    forall|i: int, j: int| 0 <= i < j < rows.len() ==> rows[i].id != rows[j].id
}

/// The rows after an update keyed by `u.id`: the row carrying that
/// identifier, if any, is replaced by `u`; every other row is unchanged.
pub open spec fn update_rows(rows: Seq<UserView>, u: UserView) -> Seq<UserView> {
    rows.map_values(|r: UserView| if r.id == u.id { u } else { r })
}

/// The rows after a delete keyed by `id`: every row but those carrying that
/// identifier, in their original order.
pub open spec fn remove_id(rows: Seq<UserView>, id: Seq<char>) -> Seq<UserView>
    decreases rows.len(),
{
    if rows.len() == 0 {
        Seq::empty()
    } else {
        let rest = remove_id(rows.drop_last(), id);
        if rows.last().id == id {
            rest
        } else {
            rest.push(rows.last())
        }
    }
}

/// The set of identifiers carried by the rows.
pub open spec fn id_set(rows: Seq<UserView>) -> Set<Seq<char>> {
    rows.map_values(|r: UserView| r.id).to_set()
}

} // verus!
