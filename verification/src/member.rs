//! The record types of the registry and their mathematical views.

use vstd::prelude::*;

verus! {

/// One identity-registry record as a caller hands it in or receives it.
///
/// `id` is assigned by the store: it is `None` on a record that has not been
/// persisted yet, and `Some` on every record the store hands back. All text
/// fields are free-form; the store performs no format validation on the
/// dates, the gender or the CNIC number. The two images are optional binary
/// blobs.
#[derive(Debug, Clone, PartialEq)]
pub struct Member {
    pub id: Option<i64>,
    pub name: String,
    pub father_husband_name: String,
    pub gender: String,
    pub cnic_number: String,
    pub date_of_birth: String,
    pub date_of_issue: String,
    pub date_of_expiry: String,
    pub cnic_front_image: Option<Vec<u8>>,
    pub cnic_back_image: Option<Vec<u8>>,
}

/// The mathematical value of a [`Member`]: every field replaced by its view.
#[verifier::ext_equal]
pub struct MemberView {
    pub id: Option<int>,
    pub name: Seq<char>,
    pub father_husband_name: Seq<char>,
    pub gender: Seq<char>,
    pub cnic_number: Seq<char>,
    pub date_of_birth: Seq<char>,
    pub date_of_issue: Seq<char>,
    pub date_of_expiry: Seq<char>,
    pub cnic_front_image: Option<Seq<u8>>,
    pub cnic_back_image: Option<Seq<u8>>,
}

impl View for Member {
    type V = MemberView;

    open spec fn view(&self) -> MemberView {
        MemberView {
            id: match self.id {
                Some(i) => Some(i as int),
                None => None,
            },
            name: self.name@,
            father_husband_name: self.father_husband_name@,
            gender: self.gender@,
            cnic_number: self.cnic_number@,
            date_of_birth: self.date_of_birth@,
            date_of_issue: self.date_of_issue@,
            date_of_expiry: self.date_of_expiry@,
            cnic_front_image: match self.cnic_front_image {
                Some(ref v) => Some(v@),
                None => None,
            },
            cnic_back_image: match self.cnic_back_image {
                Some(ref v) => Some(v@),
                None => None,
            },
        }
    }
}

} // verus!
