use phone_verification::model::{CreateVerificationRequest, PhoneVerification};
use phone_verification::service::{plan_upsert, UpsertPlan};
use phone_verification::store::{RecordTable, StorageError};

fn request(phone: &str, username: &str, code: &str) -> CreateVerificationRequest {
    CreateVerificationRequest {
        phone: phone.to_string(),
        username: username.to_string(),
        verification_code: code.to_string(),
    }
}

#[test]
fn upsert_example_create_then_update() {
    let mut table = RecordTable::new();
    let first = table
        .upsert_by_username(request("13800000000", "alice", "1234"), "id-1".to_string(), 100)
        .unwrap();
    assert_eq!(first.id, "id-1");
    assert_eq!(first.phone, "13800000000");
    assert_eq!(first.verification_code, "1234");
    assert_eq!(first.created_at, first.updated_at);
    assert!(!first.is_update());

    let second = table
        .upsert_by_username(request("13800000001", "alice", "5678"), "id-2".to_string(), 200)
        .unwrap();
    assert_eq!(second.id, "id-1");
    assert_eq!(second.phone, "13800000001");
    assert_eq!(second.verification_code, "5678");
    assert_eq!(second.created_at, 100);
    assert_eq!(second.updated_at, 200);
    assert!(second.is_update());
    assert_eq!(table.len(), 1);
}

#[test]
fn upsert_new_username_inserts_one_row() {
    let mut table = RecordTable::new();
    table.upsert_by_username(request("1", "bob", "1111"), "b".to_string(), 5).unwrap();
    let rec = table.upsert_by_username(request("2", "carol", "2222"), "c".to_string(), 7).unwrap();
    assert_eq!(table.len(), 2);
    assert_eq!(rec.created_at, 7);
    assert_eq!(rec.updated_at, 7);
    let rows = table.list_by_username("carol");
    assert_eq!(rows.len(), 1);
    assert_eq!(rows[0].id, "c");
}

#[test]
fn upsert_existing_keeps_created_and_advances_updated() {
    let mut table = RecordTable::new();
    table.upsert_by_username(request("1", "dave", "1111"), "d".to_string(), 10).unwrap();
    let rec = table.upsert_by_username(request("9", "dave", "9999"), "x".to_string(), 11).unwrap();
    assert_eq!(rec.created_at, 10);
    assert!(rec.updated_at > 10);
    let stored = table.find_latest_by_username("dave").unwrap();
    assert_eq!(stored.phone, "9");
    assert_eq!(stored.verification_code, "9999");
    assert_eq!(stored.updated_at, 11);
}

#[test]
fn two_upserts_list_one_row() {
    let mut table = RecordTable::new();
    table.upsert_by_username(request("1", "erin", "1111"), "e1".to_string(), 1).unwrap();
    table.upsert_by_username(request("2", "erin", "2222"), "e2".to_string(), 2).unwrap();
    let rows = table.list_by_username("erin");
    assert_eq!(rows.len(), 1);
    assert_eq!(rows[0].phone, "2");
    assert_eq!(rows[0].verification_code, "2222");
}

#[test]
fn missing_phone_is_none() {
    let mut table = RecordTable::new();
    assert!(table.find_phone_by_username("nobody").is_none());
    table.upsert_by_username(request("555", "frank", "1234"), "f".to_string(), 1).unwrap();
    assert!(table.find_phone_by_username("nobody").is_none());
    assert_eq!(table.find_phone_by_username("frank"), Some("555".to_string()));
    assert!(table.find_latest_by_username("nobody").is_none());
}

#[test]
fn list_all_newest_first() {
    let mut table = RecordTable::new();
    table.upsert_by_username(request("1", "u1", "1111"), "a".to_string(), 20).unwrap();
    table.upsert_by_username(request("2", "u2", "2222"), "b".to_string(), 40).unwrap();
    table.upsert_by_username(request("3", "u3", "3333"), "c".to_string(), 30).unwrap();
    table.upsert_by_username(request("4", "u4", "4444"), "d".to_string(), 10).unwrap();
    let rows = table.list_all();
    let created: Vec<i64> = rows.iter().map(|r| r.created_at).collect();
    assert_eq!(created, vec![40, 30, 20, 10]);
    let ids: Vec<&str> = rows.iter().map(|r| r.id.as_str()).collect();
    assert_eq!(ids, vec!["b", "c", "a", "d"]);
}

#[test]
fn list_all_empty_table() {
    let table = RecordTable::new();
    assert!(table.list_all().is_empty());
    assert!(table.list_by_username("anyone").is_empty());
}

#[test]
fn latest_is_newest_of_history() {
    let mut table = RecordTable::new();
    table.insert(PhoneVerification::new_at("h1".to_string(), "1".to_string(), "gina".to_string(), "1111".to_string(), 5)).unwrap();
    table.insert(PhoneVerification::new_at("h2".to_string(), "2".to_string(), "gina".to_string(), "2222".to_string(), 9)).unwrap();
    table.insert(PhoneVerification::new_at("h3".to_string(), "3".to_string(), "gina".to_string(), "3333".to_string(), 7)).unwrap();
    assert_eq!(table.find_latest_by_username("gina").unwrap().id, "h2");
    let rows = table.list_by_username("gina");
    let ids: Vec<&str> = rows.iter().map(|r| r.id.as_str()).collect();
    assert_eq!(ids, vec!["h2", "h3", "h1"]);
    let rec = table.upsert_by_username(request("4", "gina", "4444"), "h4".to_string(), 10).unwrap();
    assert_eq!(rec.id, "h2");
    assert_eq!(table.len(), 3);
}

#[test]
fn duplicate_id_is_refused() {
    let mut table = RecordTable::new();
    table.upsert_by_username(request("1", "hank", "1111"), "same".to_string(), 1).unwrap();
    let r = table.upsert_by_username(request("2", "ivy", "2222"), "same".to_string(), 2);
    assert!(matches!(r, Err(StorageError::DuplicateId)));
    assert_eq!(table.len(), 1);
    assert!(table.find_latest_by_username("ivy").is_none());
}

#[test]
fn plan_upsert_update_and_insert() {
    let existing = PhoneVerification::new_at("k".to_string(), "1".to_string(), "jo".to_string(), "1111".to_string(), 3);
    match plan_upsert(Some(existing), request("2", "jo", "2222"), "n".to_string(), 8) {
        UpsertPlan::Update(r) => {
            assert_eq!(r.id, "k");
            assert_eq!(r.phone, "2");
            assert_eq!(r.verification_code, "2222");
            assert_eq!(r.created_at, 3);
            assert_eq!(r.updated_at, 8);
        }
        UpsertPlan::Insert(_) => panic!("expected an update"),
    }
    match plan_upsert(None, request("2", "jo", "2222"), "n".to_string(), 8) {
        UpsertPlan::Insert(r) => {
            assert_eq!(r.id, "n");
            assert_eq!(r.username, "jo");
            assert_eq!(r.created_at, 8);
            assert_eq!(r.updated_at, 8);
        }
        UpsertPlan::Update(_) => panic!("expected an insert"),
    }
}

#[test]
fn new_record_has_uuid_and_equal_stamps() {
    let r = PhoneVerification::new("1".to_string(), "kim".to_string(), "1234".to_string());
    assert_eq!(r.id.chars().count(), 36);
    assert_eq!(r.id.matches('-').count(), 4);
    assert_eq!(r.created_at, r.updated_at);
    assert!(r.created_at > 0);
    let s = PhoneVerification::new("1".to_string(), "kim".to_string(), "1234".to_string());
    assert_ne!(r.id, s.id);
}

#[test]
fn update_by_id_changes_one_row() {
    let mut table = RecordTable::new();
    table.upsert_by_username(request("1", "lee", "1111"), "l".to_string(), 1).unwrap();
    table.upsert_by_username(request("2", "max", "2222"), "m".to_string(), 2).unwrap();
    assert!(table.update_by_id("l", "7".to_string(), "7777".to_string(), 9));
    let lee = table.find_latest_by_username("lee").unwrap();
    assert_eq!(lee.phone, "7");
    assert_eq!(lee.verification_code, "7777");
    assert_eq!(lee.created_at, 1);
    assert_eq!(lee.updated_at, 9);
    let max = table.find_latest_by_username("max").unwrap();
    assert_eq!(max.phone, "2");
    assert!(!table.update_by_id("zzz", "0".to_string(), "0000".to_string(), 10));
    assert_eq!(table.len(), 2);
}
