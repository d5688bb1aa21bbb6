use member_registry::member::Member;
use member_registry::registry::Registry;
use member_registry::registry::RegistryError;
use member_registry::registry::StoredMember;

fn member(name: &str, cnic: &str) -> Member {
    Member {
        id: None,
        name: name.to_owned(),
        father_husband_name: "Ahmed".to_owned(),
        gender: "Male".to_owned(),
        cnic_number: cnic.to_owned(),
        date_of_birth: "1990-01-01".to_owned(),
        date_of_issue: "2020-01-01".to_owned(),
        date_of_expiry: "2030-01-01".to_owned(),
        cnic_front_image: Some(vec![1, 2, 3]),
        cnic_back_image: None,
    }
}

fn stored(id: i64, name: &str, cnic: &str, created_at: &str) -> StoredMember {
    StoredMember {
        id,
        name: name.to_owned(),
        father_husband_name: "Ahmed".to_owned(),
        gender: "Male".to_owned(),
        cnic_number: cnic.to_owned(),
        date_of_birth: "1990-01-01".to_owned(),
        date_of_issue: "2020-01-01".to_owned(),
        date_of_expiry: "2030-01-01".to_owned(),
        cnic_front_image: None,
        cnic_back_image: Some(vec![9, 9]),
        created_at: created_at.to_owned(),
    }
}

#[test]
fn empty_store_lists_nothing() {
    let reg = Registry::new();
    assert_eq!(reg.list_members().len(), 0);
}

#[test]
fn create_assigns_ids_from_one() {
    let mut reg = Registry::new();
    let a = reg.create_member(member("Ali", "12345-1234567-1"), "t1".to_owned());
    let b = reg.create_member(member("Bilal", "12345-1234567-2"), "t2".to_owned());
    assert_eq!(a, Ok(1));
    assert_eq!(b, Ok(2));
}

#[test]
fn duplicate_cnic_is_constraint_violation() {
    let mut reg = Registry::new();
    let first = reg.create_member(member("Ali", "12345-1234567-1"), "t1".to_owned());
    assert!(first.is_ok());
    let second = reg.create_member(member("Bilal", "12345-1234567-1"), "t2".to_owned());
    assert_eq!(second, Err(RegistryError::ConstraintViolation));
    let listed = reg.list_members();
    assert_eq!(listed.len(), 1);
    assert_eq!(listed[0].name, "Ali");
    let matching = listed
        .iter()
        .filter(|m| m.cnic_number == "12345-1234567-1")
        .count();
    assert_eq!(matching, 1);
}

#[test]
fn create_then_find_round_trips_all_data_fields() {
    let mut reg = Registry::new();
    let m = member("Ali", "12345-1234567-1");
    let id = reg
        .create_member(m.clone(), "t1".to_owned())
        .expect("fresh cnic must be accepted");
    let found = reg
        .find_member_by_cnic(&"12345-1234567-1".to_owned())
        .expect("created member must be found");
    assert_eq!(found.id, Some(id));
    assert_eq!(found.name, m.name);
    assert_eq!(found.father_husband_name, m.father_husband_name);
    assert_eq!(found.gender, m.gender);
    assert_eq!(found.cnic_number, m.cnic_number);
    assert_eq!(found.date_of_birth, m.date_of_birth);
    assert_eq!(found.date_of_issue, m.date_of_issue);
    assert_eq!(found.date_of_expiry, m.date_of_expiry);
    assert_eq!(found.cnic_front_image, m.cnic_front_image);
    assert_eq!(found.cnic_back_image, m.cnic_back_image);
}

#[test]
fn find_unknown_cnic_is_none_not_error() {
    let mut reg = Registry::new();
    reg.create_member(member("Ali", "12345-1234567-1"), "t1".to_owned())
        .unwrap();
    assert!(reg.find_member_by_cnic(&"99999-9999999-9".to_owned()).is_none());
    assert!(Registry::new().find_member_by_cnic(&"1".to_owned()).is_none());
}

#[test]
fn update_replaces_all_fields_and_keeps_created_at() {
    let mut reg = Registry::load(vec![stored(7, "Ali", "12345-1234567-1", "stamp-0")])
        .expect("rows are adoptable");
    let mut m2 = member("Ali Khan", "54321-7654321-9");
    m2.gender = "male".to_owned();
    m2.cnic_front_image = None;
    m2.cnic_back_image = Some(vec![4, 5]);
    assert_eq!(reg.update_member(7, m2.clone()), Ok(()));
    assert!(reg.find_member_by_cnic(&"12345-1234567-1".to_owned()).is_none());
    let found = reg
        .find_member_by_cnic(&"54321-7654321-9".to_owned())
        .expect("updated cnic must be found");
    assert_eq!(found.id, Some(7));
    assert_eq!(found.name, "Ali Khan");
    assert_eq!(found.father_husband_name, m2.father_husband_name);
    assert_eq!(found.gender, "male");
    assert_eq!(found.date_of_birth, m2.date_of_birth);
    assert_eq!(found.date_of_issue, m2.date_of_issue);
    assert_eq!(found.date_of_expiry, m2.date_of_expiry);
    assert_eq!(found.cnic_front_image, None);
    assert_eq!(found.cnic_back_image, Some(vec![4, 5]));
}

#[test]
fn update_missing_id_is_not_found() {
    let mut reg = Registry::new();
    reg.create_member(member("Ali", "12345-1234567-1"), "t1".to_owned())
        .unwrap();
    let r = reg.update_member(42, member("Bilal", "12345-1234567-2"));
    assert_eq!(r, Err(RegistryError::NotFound));
    assert_eq!(reg.list_members()[0].name, "Ali");
}

#[test]
fn update_to_taken_cnic_is_constraint_violation() {
    let mut reg = Registry::new();
    let a = reg
        .create_member(member("Ali", "12345-1234567-1"), "t1".to_owned())
        .unwrap();
    reg.create_member(member("Bilal", "12345-1234567-2"), "t2".to_owned())
        .unwrap();
    let r = reg.update_member(a, member("Ali", "12345-1234567-2"));
    assert_eq!(r, Err(RegistryError::ConstraintViolation));
    let found = reg
        .find_member_by_cnic(&"12345-1234567-1".to_owned())
        .expect("failed update must leave the store unchanged");
    assert_eq!(found.name, "Ali");
}

#[test]
fn update_keeping_own_cnic_succeeds() {
    let mut reg = Registry::new();
    let id = reg
        .create_member(member("Ali", "12345-1234567-1"), "t1".to_owned())
        .unwrap();
    let r = reg.update_member(id, member("Ali Khan", "12345-1234567-1"));
    assert_eq!(r, Ok(()));
    let found = reg
        .find_member_by_cnic(&"12345-1234567-1".to_owned())
        .unwrap();
    assert_eq!(found.name, "Ali Khan");
}

#[test]
fn delete_missing_id_succeeds_twice_identically() {
    let mut reg = Registry::new();
    reg.create_member(member("Ali", "12345-1234567-1"), "t1".to_owned())
        .unwrap();
    reg.delete_member(42);
    assert_eq!(reg.list_members().len(), 1);
    reg.delete_member(42);
    assert_eq!(reg.list_members().len(), 1);
}

#[test]
fn delete_removes_and_second_delete_is_noop() {
    let mut reg = Registry::new();
    let id = reg
        .create_member(member("Ali", "12345-1234567-1"), "t1".to_owned())
        .unwrap();
    reg.delete_member(id);
    assert_eq!(reg.list_members().len(), 0);
    reg.delete_member(id);
    assert_eq!(reg.list_members().len(), 0);
}

#[test]
fn ids_are_never_reused_after_delete() {
    let mut reg = Registry::new();
    let a = reg
        .create_member(member("Ali", "12345-1234567-1"), "t1".to_owned())
        .unwrap();
    reg.delete_member(a);
    let b = reg
        .create_member(member("Bilal", "12345-1234567-2"), "t2".to_owned())
        .unwrap();
    assert_ne!(a, b);
    assert_eq!(b, 2);
}

#[test]
fn list_keeps_creation_order() {
    let mut reg = Registry::new();
    reg.create_member(member("Ali", "1"), "t1".to_owned()).unwrap();
    reg.create_member(member("Bilal", "2"), "t2".to_owned()).unwrap();
    reg.create_member(member("Chand", "3"), "t3".to_owned()).unwrap();
    let names: Vec<String> = reg.list_members().into_iter().map(|m| m.name).collect();
    assert_eq!(names, vec!["Ali".to_owned(), "Bilal".to_owned(), "Chand".to_owned()]);
}

#[test]
fn full_member_lifecycle() {
    let mut reg = Registry::new();
    let id = reg
        .create_member(member("Ali", "12345-1234567-1"), "t1".to_owned())
        .expect("create must succeed on a fresh store");
    let listed = reg.list_members();
    assert_eq!(listed.len(), 1);
    assert_eq!(listed[0].name, "Ali");
    assert_eq!(listed[0].cnic_number, "12345-1234567-1");
    let r = reg.update_member(id, member("Ali Khan", "12345-1234567-1"));
    assert!(r.is_ok());
    let found = reg
        .find_member_by_cnic(&"12345-1234567-1".to_owned())
        .expect("updated member must be found");
    assert_eq!(found.name, "Ali Khan");
    reg.delete_member(id);
    assert!(reg.list_members().is_empty());
}

#[test]
fn load_accepts_unique_rows_and_assigns_above_them() {
    let rows = vec![
        stored(3, "Ali", "1", "s1"),
        stored(1, "Bilal", "2", "s2"),
    ];
    let mut reg = Registry::load(rows).expect("unique rows are adoptable");
    assert_eq!(reg.list_members().len(), 2);
    let id = reg
        .create_member(member("Chand", "3"), "t".to_owned())
        .unwrap();
    assert_eq!(id, 4);
}

#[test]
fn load_rejects_duplicate_ids() {
    let rows = vec![stored(1, "Ali", "1", "s1"), stored(1, "Bilal", "2", "s2")];
    assert_eq!(Registry::load(rows).err(), Some(RegistryError::StoreUnavailable));
}

#[test]
fn load_rejects_duplicate_cnics() {
    let rows = vec![stored(1, "Ali", "1", "s1"), stored(2, "Bilal", "1", "s2")];
    assert_eq!(Registry::load(rows).err(), Some(RegistryError::StoreUnavailable));
}

#[test]
fn load_rejects_out_of_range_ids() {
    assert!(Registry::load(vec![stored(0, "Ali", "1", "s1")]).is_err());
    assert!(Registry::load(vec![stored(-5, "Ali", "1", "s1")]).is_err());
    assert!(Registry::load(vec![stored(i64::MAX, "Ali", "1", "s1")]).is_err());
}

#[test]
fn created_at_survives_update() {
    let mut reg = Registry::new();
    let id = reg
        .create_member(member("Ali", "1"), "2024-05-01 12:00:00".to_owned())
        .unwrap();
    assert_eq!(reg.rows()[0].created_at, "2024-05-01 12:00:00");
    reg.update_member(id, member("Ali Khan", "1")).unwrap();
    reg.update_member(id, member("Ali K.", "2")).unwrap();
    assert_eq!(reg.list_members()[0].name, "Ali K.");
    assert_eq!(reg.list_members()[0].cnic_number, "2");
    assert_eq!(reg.rows()[0].created_at, "2024-05-01 12:00:00");
}

#[test]
fn fresh_store_can_assign_ids() {
    let reg = Registry::new();
    assert!(reg.can_assign_id());
}
