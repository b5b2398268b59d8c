use tutor_db::dbaccess::tutor::TutorTable;
use tutor_db::models::tutor::Tutor;

fn row(id: u128, name: &str, deleted_at: Option<i64>) -> Tutor {
    Tutor {
        id,
        name: name.to_string(),
        pic_url: "u".to_string(),
        profile: "p".to_string(),
        created_at: 1,
        updated_at: None,
        deleted_at,
    }
}

#[test]
fn new_table_is_empty() {
    let table = TutorTable::new();
    assert_eq!(table.select(&()), vec![]);
    assert_eq!(table.get(1), None);
}

#[test]
fn insert_keeps_one_row_per_key() {
    let mut table = TutorTable::new();
    assert!(table.insert(row(1, "a", None)));
    assert!(table.insert(row(2, "b", Some(5))));
    assert!(!table.insert(row(1, "c", None)));
    assert_eq!(table.get(1), Some(row(1, "a", None)));
    assert_eq!(table.get(2), Some(row(2, "b", Some(5))));
    assert_eq!(table.get(3), None);
    let mut seen = table.select(&());
    seen.sort_by_key(|r| r.id);
    assert_eq!(seen, vec![row(1, "a", None)]);
}

#[test]
fn replace_needs_the_key() {
    let mut table = TutorTable::new();
    assert!(!table.replace(row(1, "a", None)));
    assert_eq!(table.select(&()), vec![]);
    assert!(table.insert(row(1, "a", None)));
    assert!(table.insert(row(2, "b", None)));
    assert!(table.replace(row(1, "z", Some(9))));
    assert_eq!(table.get(1), Some(row(1, "z", Some(9))));
    assert_eq!(table.get(2), Some(row(2, "b", None)));
    assert_eq!(table.select(&()), vec![row(2, "b", None)]);
}

#[test]
fn select_leaves_deleted_rows_out() {
    let mut table = TutorTable::new();
    assert!(table.insert(row(1, "a", None)));
    assert!(table.insert(row(2, "b", Some(5))));
    assert!(table.insert(row(3, "c", None)));
    let mut seen = table.select(&());
    seen.sort_by_key(|r| r.id);
    assert_eq!(seen, vec![row(1, "a", None), row(3, "c", None)]);
    assert_eq!(table.get(2), Some(row(2, "b", Some(5))));
}

#[test]
fn visibility_is_the_absence_of_a_deletion_stamp() {
    assert!(row(1, "a", None).is_visible());
    assert!(!row(1, "a", Some(0)).is_visible());
}
