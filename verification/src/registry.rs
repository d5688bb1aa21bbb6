//! The registry store: the persisted records and the five record operations.

use vstd::prelude::*;
use vstd::pervasive::VecAdditionalExecFns;

use crate::member::Member;
use crate::member::MemberView;

verus! {

/// One persisted row of the store: a [`Member`]'s nine data fields together
/// with the store-assigned id and creation stamp.
///
/// `created_at` is set when the record is created and never changes
/// afterwards; updates replace the nine data fields only.
#[derive(Debug, Clone, PartialEq)]
pub struct StoredMember {
    pub id: i64,
    pub name: String,
    pub father_husband_name: String,
    pub gender: String,
    pub cnic_number: String,
    pub date_of_birth: String,
    pub date_of_issue: String,
    pub date_of_expiry: String,
    pub cnic_front_image: Option<Vec<u8>>,
    pub cnic_back_image: Option<Vec<u8>>,
    pub created_at: String,
}

/// The mathematical value of a [`StoredMember`].
#[verifier::ext_equal]
pub struct StoredMemberView {
    pub id: int,
    pub name: Seq<char>,
    pub father_husband_name: Seq<char>,
    pub gender: Seq<char>,
    pub cnic_number: Seq<char>,
    pub date_of_birth: Seq<char>,
    pub date_of_issue: Seq<char>,
    pub date_of_expiry: Seq<char>,
    pub cnic_front_image: Option<Seq<u8>>,
    pub cnic_back_image: Option<Seq<u8>>,
    pub created_at: Seq<char>,
}

impl View for StoredMember {
    type V = StoredMemberView;

    open spec fn view(&self) -> StoredMemberView {
        StoredMemberView {
            id: self.id as int,
            name: self.name@,
            father_husband_name: self.father_husband_name@,
            gender: self.gender@,
            cnic_number: self.cnic_number@,
            date_of_birth: self.date_of_birth@,
            date_of_issue: self.date_of_issue@,
            date_of_expiry: self.date_of_expiry@,
            cnic_front_image: match self.cnic_front_image {
                Some(ref v) => Some(v@),
                None => None,
            },
            cnic_back_image: match self.cnic_back_image {
                Some(ref v) => Some(v@),
                None => None,
            },
            created_at: self.created_at@,
        }
    }
}

/// The [`Member`] value a stored row is handed back as: the same nine data
/// fields, with the store-assigned id filled in.
pub open spec fn member_of_row(r: StoredMemberView) -> MemberView {
    MemberView {
        id: Some(r.id),
        name: r.name,
        father_husband_name: r.father_husband_name,
        gender: r.gender,
        cnic_number: r.cnic_number,
        date_of_birth: r.date_of_birth,
        date_of_issue: r.date_of_issue,
        date_of_expiry: r.date_of_expiry,
        cnic_front_image: r.cnic_front_image,
        cnic_back_image: r.cnic_back_image,
    }
}

/// The row a create operation persists: the member's nine data fields under
/// a store-assigned id and creation stamp. The member's own `id` field is
/// ignored.
pub open spec fn row_of_member(id: int, m: MemberView, created_at: Seq<char>) -> StoredMemberView {
    StoredMemberView {
        id: id,
        name: m.name,
        father_husband_name: m.father_husband_name,
        gender: m.gender,
        cnic_number: m.cnic_number,
        date_of_birth: m.date_of_birth,
        date_of_issue: m.date_of_issue,
        date_of_expiry: m.date_of_expiry,
        cnic_front_image: m.cnic_front_image,
        cnic_back_image: m.cnic_back_image,
        created_at: created_at,
    }
}

/// Whether `a` and `b` agree on the nine caller-supplied data fields; the
/// store-assigned id is not compared.
pub open spec fn same_member_data(a: MemberView, b: MemberView) -> bool {
    &&& a.name == b.name
    &&& a.father_husband_name == b.father_husband_name
    &&& a.gender == b.gender
    &&& a.cnic_number == b.cnic_number
    &&& a.date_of_birth == b.date_of_birth
    &&& a.date_of_issue == b.date_of_issue
    &&& a.date_of_expiry == b.date_of_expiry
    &&& a.cnic_front_image == b.cnic_front_image
    &&& a.cnic_back_image == b.cnic_back_image
}

/// Whether some row of `rows` carries the CNIC number `c`.
pub open spec fn has_cnic(rows: Seq<StoredMemberView>, c: Seq<char>) -> bool {
    exists|i: int| 0 <= i < rows.len() && rows[i].cnic_number == c
}

/// Whether some row of `rows` carries the id `id`.
pub open spec fn has_id(rows: Seq<StoredMemberView>, id: int) -> bool {
    exists|i: int| 0 <= i < rows.len() && rows[i].id == id
}

/// Whether a row other than the one carrying `id` carries the CNIC number
/// `c`; updating the record `id` to `c` would then break uniqueness.
pub open spec fn cnic_conflict(rows: Seq<StoredMemberView>, id: int, c: Seq<char>) -> bool {
    exists|i: int| 0 <= i < rows.len() && rows[i].id != id && rows[i].cnic_number == c
}

/// No two rows share a CNIC number.
pub open spec fn unique_cnics(rows: Seq<StoredMemberView>) -> bool {
    forall|i: int, j: int|
        0 <= i < j < rows.len() ==> rows[i].cnic_number != rows[j].cnic_number
}

/// No two rows share an id.
pub open spec fn unique_ids(rows: Seq<StoredMemberView>) -> bool {
    forall|i: int, j: int| 0 <= i < j < rows.len() ==> rows[i].id != rows[j].id
}

/// Whether rows handed back by durable storage can make a well-formed store:
/// ids and CNIC numbers are unique, and every id leaves room for a fresh one
/// above it.
pub open spec fn adoptable(rows: Seq<StoredMemberView>) -> bool {
    &&& unique_ids(rows)
    &&& unique_cnics(rows)
    &&& forall|i: int| 0 <= i < rows.len() ==> 1 <= (#[trigger] rows[i]).id < i64::MAX
}

/// The errors a record operation can report.
///
/// A lookup that finds nothing is not among them: `find_member_by_cnic`
/// reports that outcome as `None`, and deleting an absent id is plain
/// success.
#[derive(Clone, Copy, Debug, PartialEq, Eq, Structural)]
pub enum RegistryError {
    /// The persisted rows could not be accepted as a store.
    StoreUnavailable,
    /// The operation would leave two records with the same CNIC number.
    ConstraintViolation,
    /// An update named an id that no record carries.
    NotFound,
}

/// The registry store: all persisted records, in creation order, together
/// with the id counter that keeps assigned ids unique forever.
pub struct Registry {
    rows: Vec<StoredMember>,
    next_id: i64,
}

impl View for Registry {
    type V = Seq<StoredMemberView>;

    closed spec fn view(&self) -> Seq<StoredMemberView> {
        self.rows@.map_values(|r: StoredMember| r@)
    }
}

impl Registry {
    /// The next id the store will assign. Ids only ever grow, so no id is
    /// reused, not even after a delete.
    pub closed spec fn next_id_spec(&self) -> int {
        self.next_id as int
    }

    /// The store's invariant: ids and CNIC numbers are unique, every id is
    /// at least 1, and every id is below the next one to be assigned.
    pub open spec fn wf(&self) -> bool {
        &&& unique_ids(self@)
        &&& unique_cnics(self@)
        &&& forall|i: int| 0 <= i < self@.len() ==> 1 <= #[trigger] self@[i].id < self.next_id_spec()
        &&& 1 <= self.next_id_spec() <= i64::MAX
    }

    /// A freshly initialized store: no records, ids start at 1.
    pub fn new() -> (r: Registry)
        ensures
            r.wf(),
            r@ =~= Seq::<StoredMemberView>::empty(),
            r.next_id_spec() == 1,
    {
        Registry { rows: Vec::new(), next_id: 1 }
    }

    /// The persisted rows, in creation order: what durable storage should
    /// hold, creation stamps included.
    pub fn rows(&self) -> (r: &Vec<StoredMember>)
        ensures
            r@.map_values(|x: StoredMember| x@) == self@,
    {
        &self.rows
    }

    /// Whether the store can still assign a fresh id; only an astronomically
    /// long-lived store runs out.
    pub fn can_assign_id(&self) -> (b: bool)
        ensures
            b == (self.next_id_spec() < i64::MAX),
    {
        self.next_id < i64::MAX
    }

    /// Create one record from the member's nine data fields; the member's
    /// own `id` field is ignored and a fresh id is assigned. `created_at` is
    /// the creation stamp the store files the record under; it never changes
    /// afterwards.
    ///
    /// Fails with `ConstraintViolation`, leaving the store unchanged, exactly
    /// when a record already carries the member's CNIC number; otherwise the
    /// record is appended and its id returned. The fresh id is one no record
    /// ever carried: ids only grow.
    pub fn create_member(&mut self, member: Member, created_at: String) -> (r: Result<
        i64,
        RegistryError,
    >)
        requires
            old(self).wf(),
            old(self).next_id_spec() < i64::MAX,
        ensures
            final(self).wf(),
            has_cnic(old(self)@, member@.cnic_number) ==> {
                &&& r == Err::<i64, RegistryError>(RegistryError::ConstraintViolation)
                &&& final(self)@ == old(self)@
                &&& final(self).next_id_spec() == old(self).next_id_spec()
            },
            !has_cnic(old(self)@, member@.cnic_number) ==> {
                &&& r is Ok
                &&& r->Ok_0 as int == old(self).next_id_spec()
                &&& !has_id(old(self)@, r->Ok_0 as int)
                &&& final(self)@ =~= old(self)@.push(
                    row_of_member(old(self).next_id_spec(), member@, created_at@),
                )
                &&& final(self).next_id_spec() == old(self).next_id_spec() + 1
            },
    {
        if self.find_index_by_cnic(&member.cnic_number).is_some() {
            return Err(RegistryError::ConstraintViolation);
        }
        let id = self.next_id;
        let row = StoredMember {
            id,
            name: member.name,
            father_husband_name: member.father_husband_name,
            gender: member.gender,
            cnic_number: member.cnic_number,
            date_of_birth: member.date_of_birth,
            date_of_issue: member.date_of_issue,
            date_of_expiry: member.date_of_expiry,
            cnic_front_image: member.cnic_front_image,
            cnic_back_image: member.cnic_back_image,
            created_at,
        };
        self.rows.push(row);
        self.next_id = self.next_id + 1;
        assert(self@ =~= old(self)@.push(row@));
        assert forall|i: int, j: int| 0 <= i < j < self@.len() implies self@[i].cnic_number
            != self@[j].cnic_number by {
            if j == self@.len() - 1 {
                assert(!has_cnic(old(self)@, member@.cnic_number));
                assert(old(self)@[i].cnic_number != member@.cnic_number);
            }
        }
        Ok(id)
    }

    /// All records, in creation order, each under its store-assigned id.
    /// A store with no records yields the empty sequence.
    pub fn list_members(&self) -> (r: Vec<Member>)
        ensures
            r@.len() == self@.len(),
            forall|i: int| 0 <= i < self@.len() ==> (#[trigger] r@[i])@ == member_of_row(self@[i]),
    {
        let mut out: Vec<Member> = Vec::new();
        let mut i: usize = 0;
        while i < self.rows.len()
            invariant
                i <= self.rows.len(),
                out@.len() == i,
                forall|j: int| 0 <= j < i ==> (#[trigger] out@[j])@ == member_of_row(self@[j]),
            decreases self.rows.len() - i,
        {
            let m = member_of(&self.rows[i]);
            out.push(m);
            i += 1;
        }
        out
    }

    /// The record carrying the CNIC number, or `None` when no record does.
    /// An unknown number is a valid outcome, not an error; the store's
    /// uniqueness invariant guarantees at most one record can match.
    pub fn find_member_by_cnic(&self, cnic_number: &String) -> (r: Option<Member>)
        ensures
            match r {
                Some(m) => exists|i: int|
                    0 <= i < self@.len() && (#[trigger] self@[i]).cnic_number == cnic_number@
                        && m@ == member_of_row(self@[i]),
                None => !has_cnic(self@, cnic_number@),
            },
            r is Some <==> has_cnic(self@, cnic_number@),
    {
        match self.find_index_by_cnic(cnic_number) {
            Some(i) => {
                let m = member_of(&self.rows[i]);
                assert(self@[i as int].cnic_number == cnic_number@ && m@ == member_of_row(
                    self@[i as int],
                ));
                Some(m)
            },
            None => None,
        }
    }

    /// Replace all nine data fields of the record carrying `id` with the
    /// member's; partial updates are not supported. The record keeps its id
    /// and its creation stamp.
    ///
    /// Fails with `NotFound` when no record carries `id`, and with
    /// `ConstraintViolation` when the member's CNIC number is already carried
    /// by a different record; either failure leaves the store unchanged.
    pub fn update_member(&mut self, id: i64, member: Member) -> (r: Result<(), RegistryError>)
        requires
            old(self).wf(),
        ensures
            final(self).wf(),
            final(self).next_id_spec() == old(self).next_id_spec(),
            !has_id(old(self)@, id as int) ==> {
                &&& r == Err::<(), RegistryError>(RegistryError::NotFound)
                &&& final(self)@ == old(self)@
            },
            has_id(old(self)@, id as int) && cnic_conflict(old(self)@, id as int, member@.cnic_number)
                ==> {
                &&& r == Err::<(), RegistryError>(RegistryError::ConstraintViolation)
                &&& final(self)@ == old(self)@
            },
            has_id(old(self)@, id as int) && !cnic_conflict(
                old(self)@,
                id as int,
                member@.cnic_number,
            ) ==> {
                &&& r == Ok::<(), RegistryError>(())
                &&& exists|i: int|
                    0 <= i < old(self)@.len() && (#[trigger] old(self)@[i]).id == id as int
                        && final(self)@ =~= old(self)@.update(
                        i,
                        row_of_member(id as int, member@, old(self)@[i].created_at),
                    )
            },
    {
        let idx = match self.find_index_by_id(id) {
            None => {
                return Err(RegistryError::NotFound);
            },
            Some(i) => i,
        };
        if self.has_cnic_conflict(id, &member.cnic_number) {
            return Err(RegistryError::ConstraintViolation);
        }
        let created_at = self.rows[idx].created_at.clone();
        let row = StoredMember {
            id,
            name: member.name,
            father_husband_name: member.father_husband_name,
            gender: member.gender,
            cnic_number: member.cnic_number,
            date_of_birth: member.date_of_birth,
            date_of_issue: member.date_of_issue,
            date_of_expiry: member.date_of_expiry,
            cnic_front_image: member.cnic_front_image,
            cnic_back_image: member.cnic_back_image,
            created_at,
        };
        self.rows.set(idx, row);
        assert(self@ =~= old(self)@.update(
            idx as int,
            row_of_member(id as int, member@, old(self)@[idx as int].created_at),
        ));
        assert forall|i: int, j: int| 0 <= i < j < self@.len() implies self@[i].cnic_number
            != self@[j].cnic_number by {
            if i == idx {
                assert(!(old(self)@[j].id != id as int && old(self)@[j].cnic_number
                    == member@.cnic_number));
            }
            if j == idx {
                assert(!(old(self)@[i].id != id as int && old(self)@[i].cnic_number
                    == member@.cnic_number));
            }
        }
        Ok(())
    }

    /// Remove the record carrying `id`, if one does; ids are never reassigned
    /// afterwards. Deleting an id no record carries is plain success, not an
    /// error, so deleting twice in a row behaves as deleting once: afterwards
    /// no record carries the id either way.
    pub fn delete_member(&mut self, id: i64)
        requires
            old(self).wf(),
        ensures
            final(self).wf(),
            final(self).next_id_spec() == old(self).next_id_spec(),
            !has_id(old(self)@, id as int) ==> final(self)@ == old(self)@,
            has_id(old(self)@, id as int) ==> exists|i: int|
                0 <= i < old(self)@.len() && (#[trigger] old(self)@[i]).id == id as int
                    && final(self)@ =~= old(self)@.remove(i),
            !has_id(final(self)@, id as int),
    {
        match self.find_index_by_id(id) {
            None => {},
            Some(i) => {
                let _removed = self.rows.remove(i);
                assert(self@ =~= old(self)@.remove(i as int));
                assert forall|j: int| 0 <= j < self@.len() implies (#[trigger] self@[j]).id
                    != id as int by {
                    if j < i {
                        assert(self@[j] == old(self)@[j]);
                    } else {
                        assert(self@[j] == old(self)@[j + 1]);
                    }
                }
            },
        }
    }

    /// Adopt rows handed back by durable storage as the store's records, in
    /// the order given. The next id to assign is set above every adopted id,
    /// so no id is ever reused.
    ///
    /// Fails with `StoreUnavailable` exactly when the rows cannot make a
    /// well-formed store: a duplicated id or CNIC number, an id below 1, or
    /// an id at the very top of the id range.
    pub fn load(rows: Vec<StoredMember>) -> (r: Result<Registry, RegistryError>)
        ensures
            match r {
                Ok(reg) => {
                    &&& adoptable(rows@.map_values(|x: StoredMember| x@))
                    &&& reg.wf()
                    &&& reg@ =~= rows@.map_values(|x: StoredMember| x@)
                    &&& forall|i: int|
                        0 <= i < reg@.len() ==> (#[trigger] reg@[i]).id < reg.next_id_spec()
                },
                Err(e) => {
                    &&& e == RegistryError::StoreUnavailable
                    &&& !adoptable(rows@.map_values(|x: StoredMember| x@))
                },
            },
    {
        let ghost v = rows@.map_values(|x: StoredMember| x@);
        let mut max_id: i64 = 0;
        let mut i: usize = 0;
        while i < rows.len()
            invariant
                i <= rows.len(),
                v == rows@.map_values(|x: StoredMember| x@),
                0 <= max_id < i64::MAX,
                forall|j: int| 0 <= j < i ==> 1 <= (#[trigger] v[j]).id <= max_id,
                forall|j: int, k: int| 0 <= j < k < i ==> v[j].id != v[k].id,
                forall|j: int, k: int| 0 <= j < k < i ==> v[j].cnic_number != v[k].cnic_number,
            decreases rows.len() - i,
        {
            let row_id = rows[i].id;
            if row_id < 1 || row_id == i64::MAX {
                assert(!adoptable(v));
                return Err(RegistryError::StoreUnavailable);
            }
            let mut j: usize = 0;
            while j < i
                invariant
                    j <= i < rows.len(),
                    v == rows@.map_values(|x: StoredMember| x@),
                    row_id as int == v[i as int].id,
                    forall|k: int|
                        0 <= k < j ==> (#[trigger] v[k]).id != v[i as int].id && v[k].cnic_number
                            != v[i as int].cnic_number,
                decreases i - j,
            {
                if rows[j].id == row_id {
                    assert(0 <= j < i < v.len() && v[j as int].id == v[i as int].id);
                    assert(!unique_ids(v));
                    return Err(RegistryError::StoreUnavailable);
                }
                if rows[j].cnic_number == rows[i].cnic_number {
                    assert(0 <= j < i < v.len() && v[j as int].cnic_number == v[
                        i as int
                    ].cnic_number);
                    assert(!unique_cnics(v));
                    return Err(RegistryError::StoreUnavailable);
                }
                j += 1;
            }
            if row_id > max_id {
                max_id = row_id;
            }
            i += 1;
        }
        Ok(Registry { rows, next_id: max_id + 1 })
    }

    /// The index of the row carrying the CNIC number, if any row does.
    fn find_index_by_cnic(&self, cnic_number: &String) -> (r: Option<usize>)
        ensures
            match r {
                Some(i) => i < self@.len() && self@[i as int].cnic_number == cnic_number@,
                None => !has_cnic(self@, cnic_number@),
            },
    {
        let mut i: usize = 0;
        while i < self.rows.len()
            invariant
                i <= self.rows.len(),
                forall|j: int| 0 <= j < i ==> #[trigger] self@[j].cnic_number != cnic_number@,
            decreases self.rows.len() - i,
        {
            if self.rows[i].cnic_number == *cnic_number {
                return Some(i);
            }
            i += 1;
        }
        None
    }

    /// The index of the row carrying the id, if any row does.
    fn find_index_by_id(&self, id: i64) -> (r: Option<usize>)
        ensures
            match r {
                Some(i) => i < self@.len() && self@[i as int].id == id as int,
                None => !has_id(self@, id as int),
            },
    {
        let mut i: usize = 0;
        while i < self.rows.len()
            invariant
                i <= self.rows.len(),
                forall|j: int| 0 <= j < i ==> #[trigger] self@[j].id != id as int,
            decreases self.rows.len() - i,
        {
            if self.rows[i].id == id {
                return Some(i);
            }
            i += 1;
        }
        None
    }

    /// Whether a row other than the one carrying `id` carries the CNIC
    /// number.
    fn has_cnic_conflict(&self, id: i64, cnic_number: &String) -> (b: bool)
        ensures
            b == cnic_conflict(self@, id as int, cnic_number@),
    {
        let mut i: usize = 0;
        while i < self.rows.len()
            invariant
                i <= self.rows.len(),
                forall|j: int|
                    0 <= j < i ==> !((#[trigger] self@[j]).id != id as int
                        && self@[j].cnic_number == cnic_number@),
            decreases self.rows.len() - i,
        {
            if self.rows[i].id != id && self.rows[i].cnic_number == *cnic_number {
                assert(self@[i as int].id != id as int
                    && self@[i as int].cnic_number == cnic_number@);
                return true;
            }
            i += 1;
        }
        false
    }
}

/// A copy of an optional binary blob, equal in value to the original.
fn clone_blob(b: &Option<Vec<u8>>) -> (r: Option<Vec<u8>>)
    ensures
        match *b {
            Some(ref v) => r is Some && r->0@ == v@,
            None => r is None,
        },
{
    match b {
        Some(v) => {
            let c = v.clone();
            assert(c@ =~= v@);
            Some(c)
        },
        None => None,
    }
}

/// The [`Member`] value a stored row is handed back as.
fn member_of(row: &StoredMember) -> (m: Member)
    ensures
        m@ == member_of_row(row@),
{
    let m = Member {
        id: Some(row.id),
        name: row.name.clone(),
        father_husband_name: row.father_husband_name.clone(),
        gender: row.gender.clone(),
        cnic_number: row.cnic_number.clone(),
        date_of_birth: row.date_of_birth.clone(),
        date_of_issue: row.date_of_issue.clone(),
        date_of_expiry: row.date_of_expiry.clone(),
        cnic_front_image: clone_blob(&row.cnic_front_image),
        cnic_back_image: clone_blob(&row.cnic_back_image),
    };
    assert(m@ =~= member_of_row(row@));
    m
}

} // verus!
