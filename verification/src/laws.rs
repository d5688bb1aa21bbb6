//! The laws of the store, proved once over the mathematical views that the
//! record operations' contracts speak of.

use vstd::prelude::*;

use crate::member::MemberView;
use crate::registry::StoredMemberView;
use crate::registry::cnic_conflict;
use crate::registry::has_cnic;
use crate::registry::has_id;
use crate::registry::member_of_row;
use crate::registry::row_of_member;
use crate::registry::same_member_data;
use crate::registry::unique_cnics;
use crate::registry::unique_ids;

verus! {

/// How many rows of `rows` carry the CNIC number `c`.
pub open spec fn count_with_cnic(rows: Seq<StoredMemberView>, c: Seq<char>) -> nat
    decreases rows.len(),
{
    if rows.len() == 0 {
        0
    } else {
        count_with_cnic(rows.drop_last(), c) + if rows.last().cnic_number == c {
            1nat
        } else {
            0nat
        }
    }
}

/// Law: in a store whose CNIC numbers are unique — as every record operation
/// keeps them — exactly one row carries a number the store has, and none
/// carries a number it lacks. So when `create_member` refuses a second record
/// under an existing number, exactly one row with that number stands.
pub proof fn lemma_unique_cnic_count(rows: Seq<StoredMemberView>, c: Seq<char>)
    requires
        unique_cnics(rows),
    ensures
        has_cnic(rows, c) ==> count_with_cnic(rows, c) == 1,
        !has_cnic(rows, c) ==> count_with_cnic(rows, c) == 0,
    decreases rows.len(),
{
    if rows.len() > 0 {
        let butlast = rows.drop_last();
        assert(unique_cnics(butlast)) by {
            assert(forall|i: int, j: int|
                0 <= i < j < butlast.len() ==> butlast[i] == rows[i] && butlast[j] == rows[j]);
        }
        lemma_unique_cnic_count(butlast, c);
        if rows.last().cnic_number == c {
            assert(has_cnic(rows, c));
            assert(!has_cnic(butlast, c)) by {
                if has_cnic(butlast, c) {
                    let i = choose|i: int|
                        0 <= i < butlast.len() && butlast[i].cnic_number == c;
                    assert(rows[i].cnic_number == rows[rows.len() - 1].cnic_number);
                    assert(false);
                }
            }
        } else {
            if has_cnic(rows, c) {
                let i = choose|i: int| 0 <= i < rows.len() && rows[i].cnic_number == c;
                assert(butlast[i].cnic_number == c);
            }
            if has_cnic(butlast, c) {
                let i = choose|i: int| 0 <= i < butlast.len() && butlast[i].cnic_number == c;
                assert(rows[i].cnic_number == c);
            }
        }
    }
}

/// Law: a member created under a CNIC number the store lacked is found again
/// under that number, equal in all nine data fields; only the id and the
/// creation stamp are store-assigned, and they are the assigned ones.
pub proof fn lemma_create_then_find(
    rows: Seq<StoredMemberView>,
    stored: Seq<StoredMemberView>,
    id: int,
    m: MemberView,
    stamp: Seq<char>,
)
    requires
        !has_cnic(rows, m.cnic_number),
        stored == rows.push(row_of_member(id, m, stamp)),
    ensures
        has_cnic(stored, m.cnic_number),
        forall|i: int|
            0 <= i < stored.len() && (#[trigger] stored[i]).cnic_number == m.cnic_number
                ==> member_of_row(stored[i]).id == Some(id) && same_member_data(
                member_of_row(stored[i]),
                m,
            ) && stored[i].created_at == stamp,
{
    assert(stored[rows.len() as int] == row_of_member(id, m, stamp));
    assert forall|i: int|
        0 <= i < stored.len() && (#[trigger] stored[i]).cnic_number
            == m.cnic_number implies member_of_row(stored[i]).id == Some(id) && same_member_data(
        member_of_row(stored[i]),
        m,
    ) && stored[i].created_at == stamp by {
        if i < rows.len() {
            assert(rows[i].cnic_number == m.cnic_number);
            assert(false);
        }
    }
}

/// Law: an update replaces every data field and keeps the creation stamp.
/// After the row carrying an id is replaced with new data whose CNIC number
/// no other row carries, every row found under that number holds exactly the
/// new data fields, the same id, and the stamp the row had before the update.
pub proof fn lemma_update_then_find(
    rows: Seq<StoredMemberView>,
    updated: Seq<StoredMemberView>,
    i: int,
    m: MemberView,
)
    requires
        unique_ids(rows),
        0 <= i < rows.len(),
        !cnic_conflict(rows, rows[i].id, m.cnic_number),
        updated == rows.update(i, row_of_member(rows[i].id, m, rows[i].created_at)),
    ensures
        has_cnic(updated, m.cnic_number),
        forall|j: int|
            0 <= j < updated.len() && (#[trigger] updated[j]).cnic_number == m.cnic_number
                ==> member_of_row(updated[j]).id == Some(rows[i].id) && same_member_data(
                member_of_row(updated[j]),
                m,
            ) && updated[j].created_at == rows[i].created_at,
{
    assert(updated[i].cnic_number == m.cnic_number);
    assert forall|j: int|
        0 <= j < updated.len() && (#[trigger] updated[j]).cnic_number
            == m.cnic_number implies member_of_row(updated[j]).id == Some(rows[i].id)
        && same_member_data(member_of_row(updated[j]), m) && updated[j].created_at == rows[
        i
    ].created_at by {
        if j != i {
            assert(updated[j] == rows[j]);
            assert(rows[j].id != rows[i].id);
            assert(rows[j].id != rows[i].id && rows[j].cnic_number == m.cnic_number);
            assert(cnic_conflict(rows, rows[i].id, m.cnic_number));
            assert(false);
        }
    }
}

/// Law: deletion is idempotent. Removing the one row that carries an id
/// leaves a store that carries it nowhere, and `delete_member` on a store
/// that does not carry the id reports success and changes nothing — so two
/// deletes of the same id in a row behave identically.
pub proof fn lemma_delete_idempotent(rows: Seq<StoredMemberView>, i: int, id: int)
    requires
        unique_ids(rows),
        0 <= i < rows.len(),
        rows[i].id == id,
    ensures
        !has_id(rows.remove(i), id),
{
    let removed = rows.remove(i);
    assert forall|j: int| 0 <= j < removed.len() implies (#[trigger] removed[j]).id != id by {
        if j < i {
            assert(removed[j] == rows[j]);
        } else {
            assert(removed[j] == rows[j + 1]);
        }
    }
}

} // verus!
