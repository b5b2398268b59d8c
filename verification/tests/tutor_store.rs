use tutor_db::dbaccess::tutor::{
    by_id, create, create_with, get_tutors, soft_delete, soft_delete_at, update, update_at,
    TutorTable,
};
use tutor_db::errors::EzyTutorError;
use tutor_db::models::tutor::{CreateTutorDto, PatchTutorDto, Tutor};
use tutor_db::services::tutor_service;

fn ada() -> CreateTutorDto {
    CreateTutorDto { name: "Ada".to_string(), pic_url: "u".to_string(), profile: "p".to_string() }
}

fn dto(name: &str, pic_url: &str, profile: &str) -> CreateTutorDto {
    CreateTutorDto {
        name: name.to_string(),
        pic_url: pic_url.to_string(),
        profile: profile.to_string(),
    }
}

fn assert_not_found(outcome: Result<Tutor, EzyTutorError>) {
    match outcome {
        Err(EzyTutorError::NotFound(msg)) => assert_eq!(msg, "Requested resource not found"),
        other => panic!("expected not found, got {:?}", other),
    }
}

fn wait_until_after(instant: i64) {
    while chrono::Utc::now().timestamp_micros() <= instant {}
}

#[test]
fn empty_table_lists_nothing() {
    let table = TutorTable::new();
    assert_eq!(get_tutors(&table).unwrap(), vec![]);
}

#[test]
fn create_with_builds_the_row() {
    let mut table = TutorTable::new();
    let row = create_with(&mut table, ada(), 17, 1_700_000_000_000_000).unwrap();
    let expected = Tutor {
        id: 17,
        name: "Ada".to_string(),
        pic_url: "u".to_string(),
        profile: "p".to_string(),
        created_at: 1_700_000_000_000_000,
        updated_at: Some(1_700_000_000_000_000),
        deleted_at: None,
    };
    assert_eq!(row, expected);
    assert_eq!(by_id(&table, 17).unwrap(), expected);
    assert_eq!(get_tutors(&table).unwrap(), vec![expected]);
}

#[test]
fn create_with_taken_identifier_is_storage_failure() {
    let mut table = TutorTable::new();
    let first = create_with(&mut table, ada(), 17, 10).unwrap();
    match create_with(&mut table, dto("Grace", "g", "q"), 17, 20) {
        Err(EzyTutorError::DBError(msg)) => {
            assert_eq!(msg, "duplicate key value violates unique constraint")
        }
        other => panic!("expected a storage failure, got {:?}", other),
    }
    assert_eq!(get_tutors(&table).unwrap(), vec![first]);
}

#[test]
fn create_with_identifier_of_deleted_row_is_storage_failure() {
    let mut table = TutorTable::new();
    create_with(&mut table, ada(), 17, 10).unwrap();
    soft_delete_at(&mut table, 17, 11).unwrap();
    match create_with(&mut table, dto("Grace", "g", "q"), 17, 20) {
        Err(EzyTutorError::DBError(_)) => {}
        other => panic!("expected a storage failure, got {:?}", other),
    }
    assert_not_found(by_id(&table, 17));
}

#[test]
fn create_draws_identifier_and_instant() {
    let mut table = TutorTable::new();
    let before = chrono::Utc::now().timestamp_micros();
    let row = create(&mut table, ada()).unwrap();
    let after = chrono::Utc::now().timestamp_micros();
    assert_eq!(uuid::Uuid::from_u128(row.id).get_version_num(), 4);
    assert_eq!(row.id & 0xf000_c000_0000_0000_0000, 0x4000_8000_0000_0000_0000);
    assert!(before <= row.created_at && row.created_at <= after);
    assert_eq!(row.updated_at, Some(row.created_at));
    assert_eq!(row.deleted_at, None);
    assert_eq!(row.name, "Ada");
    assert_eq!(row.pic_url, "u");
    assert_eq!(row.profile, "p");
    let other = create(&mut table, ada()).unwrap();
    assert_ne!(row.id, other.id);
}

#[test]
fn created_tutor_reads_back() {
    let mut table = TutorTable::new();
    let row = create(&mut table, ada()).unwrap();
    assert_eq!(by_id(&table, row.id).unwrap(), row);
}

#[test]
fn by_id_of_unknown_tutor_is_not_found() {
    let mut table = TutorTable::new();
    create_with(&mut table, ada(), 1, 10).unwrap();
    assert_not_found(by_id(&table, 2));
}

#[test]
fn update_at_replaces_fields_and_stamps() {
    let mut table = TutorTable::new();
    create_with(&mut table, ada(), 1, 10).unwrap();
    create_with(&mut table, dto("Grace", "g", "q"), 2, 11).unwrap();
    let row = update_at(&mut table, dto("Ada L.", "v", "w"), 1, 25).unwrap();
    let expected = Tutor {
        id: 1,
        name: "Ada L.".to_string(),
        pic_url: "v".to_string(),
        profile: "w".to_string(),
        created_at: 10,
        updated_at: Some(25),
        deleted_at: None,
    };
    assert_eq!(row, expected);
    assert_eq!(by_id(&table, 1).unwrap(), expected);
    let untouched = by_id(&table, 2).unwrap();
    assert_eq!(untouched.name, "Grace");
    assert_eq!(untouched.updated_at, Some(11));
}

#[test]
fn update_of_unknown_tutor_changes_nothing() {
    let mut table = TutorTable::new();
    let row = create_with(&mut table, ada(), 1, 10).unwrap();
    assert_not_found(update_at(&mut table, dto("x", "y", "z"), 2, 25));
    assert_not_found(update(&mut table, dto("x", "y", "z"), 2));
    assert_eq!(get_tutors(&table).unwrap(), vec![row]);
}

#[test]
fn update_of_deleted_tutor_changes_nothing() {
    let mut table = TutorTable::new();
    create_with(&mut table, ada(), 1, 10).unwrap();
    let deleted = soft_delete_at(&mut table, 1, 20).unwrap();
    assert_not_found(update_at(&mut table, dto("x", "y", "z"), 1, 25));
    assert_not_found(tutor_service::partial_update_at(
        &mut table,
        PatchTutorDto { name: Some("x".to_string()), pic_url: None, profile: None },
        1,
        26,
    ));
    assert_eq!(deleted.name, "Ada");
    assert_eq!(get_tutors(&table).unwrap(), vec![]);
}

#[test]
fn update_stamps_the_present() {
    let mut table = TutorTable::new();
    let row = create(&mut table, ada()).unwrap();
    wait_until_after(row.created_at);
    let changed = update(&mut table, dto("Ada L.", "v", "w"), row.id).unwrap();
    assert_eq!(changed.created_at, row.created_at);
    assert!(changed.updated_at.unwrap() > row.created_at);
    assert_eq!(changed.name, "Ada L.");
}

#[test]
fn soft_delete_at_returns_stamped_row_and_hides_it() {
    let mut table = TutorTable::new();
    create_with(&mut table, ada(), 1, 10).unwrap();
    let kept = create_with(&mut table, dto("Grace", "g", "q"), 2, 11).unwrap();
    let deleted = soft_delete_at(&mut table, 1, 30).unwrap();
    let expected = Tutor {
        id: 1,
        name: "Ada".to_string(),
        pic_url: "u".to_string(),
        profile: "p".to_string(),
        created_at: 10,
        updated_at: Some(10),
        deleted_at: Some(30),
    };
    assert_eq!(deleted, expected);
    assert_not_found(by_id(&table, 1));
    assert_eq!(get_tutors(&table).unwrap(), vec![kept]);
}

#[test]
fn soft_delete_twice_is_not_found() {
    let mut table = TutorTable::new();
    create_with(&mut table, ada(), 1, 10).unwrap();
    soft_delete_at(&mut table, 1, 30).unwrap();
    assert_not_found(soft_delete_at(&mut table, 1, 31));
    assert_not_found(soft_delete(&mut table, 1));
}

#[test]
fn soft_delete_of_unknown_tutor_is_not_found() {
    let mut table = TutorTable::new();
    assert_not_found(soft_delete_at(&mut table, 1, 30));
    assert_not_found(soft_delete(&mut table, 1));
}

#[test]
fn soft_delete_stamps_the_present() {
    let mut table = TutorTable::new();
    let row = create(&mut table, ada()).unwrap();
    let deleted = soft_delete(&mut table, row.id).unwrap();
    assert!(deleted.deleted_at.unwrap() >= row.created_at);
    assert_eq!(deleted.id, row.id);
    assert_not_found(by_id(&table, row.id));
}

#[test]
fn list_keeps_visible_rows_only() {
    let mut table = TutorTable::new();
    let a = create_with(&mut table, ada(), 1, 10).unwrap();
    create_with(&mut table, dto("Grace", "g", "q"), 2, 11).unwrap();
    let c = create_with(&mut table, dto("Edsger", "e", "r"), 3, 12).unwrap();
    soft_delete_at(&mut table, 2, 13).unwrap();
    let mut rows = get_tutors(&table).unwrap();
    rows.sort_by_key(|row| row.id);
    assert_eq!(rows, vec![a, c]);
}

#[test]
fn patch_scenario_ada() {
    let mut table = TutorTable::new();
    let created = tutor_service::create_tutor(&mut table, ada()).unwrap();
    let t1 = created.created_at;
    assert_eq!(created.updated_at, Some(t1));
    wait_until_after(t1);
    let patched = tutor_service::partial_update(
        &mut table,
        PatchTutorDto { name: Some("Ada L.".to_string()), pic_url: None, profile: None },
        created.id,
    )
    .unwrap();
    assert_eq!(patched.name, "Ada L.");
    assert_eq!(patched.pic_url, "u");
    assert_eq!(patched.profile, "p");
    assert!(patched.updated_at.unwrap() > t1);
    assert_eq!(patched.created_at, t1);
    tutor_service::soft_delete(&mut table, created.id).unwrap();
    assert_not_found(tutor_service::get_by_id(&table, created.id));
}

#[test]
fn patch_at_merges_each_field() {
    let mut table = TutorTable::new();
    create_with(&mut table, ada(), 1, 10).unwrap();
    let row = tutor_service::partial_update_at(
        &mut table,
        PatchTutorDto { name: None, pic_url: Some("v".to_string()), profile: None },
        1,
        20,
    )
    .unwrap();
    let expected = Tutor {
        id: 1,
        name: "Ada".to_string(),
        pic_url: "v".to_string(),
        profile: "p".to_string(),
        created_at: 10,
        updated_at: Some(20),
        deleted_at: None,
    };
    assert_eq!(row, expected);
    let row = tutor_service::partial_update_at(
        &mut table,
        PatchTutorDto {
            name: Some("A".to_string()),
            pic_url: Some("B".to_string()),
            profile: Some("C".to_string()),
        },
        1,
        30,
    )
    .unwrap();
    assert_eq!((row.name.as_str(), row.pic_url.as_str(), row.profile.as_str()), ("A", "B", "C"));
    let row = tutor_service::partial_update_at(
        &mut table,
        PatchTutorDto { name: None, pic_url: None, profile: None },
        1,
        40,
    )
    .unwrap();
    assert_eq!((row.name.as_str(), row.pic_url.as_str(), row.profile.as_str()), ("A", "B", "C"));
    assert_eq!(row.updated_at, Some(40));
    assert_eq!(tutor_service::get_by_id(&table, 1).unwrap(), row);
}

#[test]
fn patch_of_unknown_tutor_is_not_found() {
    let mut table = TutorTable::new();
    let row = create_with(&mut table, ada(), 1, 10).unwrap();
    assert_not_found(tutor_service::partial_update_at(
        &mut table,
        PatchTutorDto { name: Some("x".to_string()), pic_url: None, profile: None },
        2,
        20,
    ));
    assert_not_found(tutor_service::partial_update(
        &mut table,
        PatchTutorDto { name: Some("x".to_string()), pic_url: None, profile: None },
        2,
    ));
    assert_eq!(tutor_service::get_tutors(&table).unwrap(), vec![row]);
}

#[test]
fn merged_fills_absent_fields_from_current_row() {
    let current = Tutor {
        id: 9,
        name: "Ada".to_string(),
        pic_url: "u".to_string(),
        profile: "p".to_string(),
        created_at: 1,
        updated_at: Some(1),
        deleted_at: None,
    };
    let merged =
        PatchTutorDto { name: None, pic_url: None, profile: Some("q".to_string()) }.merged(&current);
    assert_eq!(merged.name, "Ada");
    assert_eq!(merged.pic_url, "u");
    assert_eq!(merged.profile, "q");
}

#[test]
fn service_update_and_delete_go_to_the_store() {
    let mut table = TutorTable::new();
    let row = tutor_service::create_tutor(&mut table, ada()).unwrap();
    let changed = tutor_service::update(&mut table, dto("n", "u2", "p2"), row.id).unwrap();
    assert_eq!(changed.name, "n");
    assert_eq!(tutor_service::get_by_id(&table, row.id).unwrap(), changed);
    assert_eq!(tutor_service::get_tutors(&table).unwrap(), vec![changed.clone()]);
    let deleted = tutor_service::soft_delete(&mut table, row.id).unwrap();
    assert!(deleted.deleted_at.is_some());
    assert_eq!(tutor_service::get_tutors(&table).unwrap(), vec![]);
}
