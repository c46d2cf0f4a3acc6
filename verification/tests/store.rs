use listkeeper::AppError;
use listkeeper::BackendError;
use listkeeper::Repo;

#[test]
fn created_row_is_fetched_with_identical_name() {
    let mut repo = Repo::new();
    let created = repo.create_list("Groceries").unwrap();
    let fetched = repo.get_list(created.id).unwrap();
    assert_eq!(fetched.name, "Groceries");
    assert_eq!(fetched.id, created.id);
    assert_eq!(fetched.created_at, created.created_at);
    assert_eq!(fetched.updated_at, created.updated_at);
}

#[test]
fn creation_stamps_equal_timestamps() {
    let mut repo = Repo::new();
    let created = repo.create_list("Groceries").unwrap();
    assert_eq!(created.created_at, created.updated_at);
}

#[test]
fn update_with_same_name_keeps_updated_at() {
    let mut repo = Repo::new();
    let created = repo.create_list("Groceries").unwrap();
    let updated = repo.update_list(created.id, "Groceries").unwrap();
    assert_eq!(updated.name, "Groceries");
    assert_eq!(updated.updated_at, created.updated_at);
    let fetched = repo.get_list(created.id).unwrap();
    assert_eq!(fetched.updated_at, created.updated_at);
}

#[test]
fn update_with_different_name_advances_updated_at() {
    let mut repo = Repo::new();
    let created = repo.create_list("Groceries").unwrap();
    let updated = repo.update_list(created.id, "Shopping").unwrap();
    assert_eq!(updated.name, "Shopping");
    assert!(updated.updated_at > created.updated_at);
    assert_eq!(updated.created_at, created.created_at);
}

#[test]
fn update_of_missing_id_is_record_not_found() {
    let mut repo = Repo::new();
    let err = repo.update_list(5, "Anything").unwrap_err();
    assert!(matches!(err, AppError::RecordNotFound));
    assert_eq!(err.status_code(), 404);
}

#[test]
fn get_of_missing_id_is_record_not_found() {
    let repo = Repo::new();
    let err = repo.get_list(1).unwrap_err();
    assert!(matches!(err, AppError::RecordNotFound));
}

#[test]
fn delete_of_missing_id_succeeds() {
    let mut repo = Repo::new();
    assert!(repo.delete_list(77).is_ok());
    assert!(repo.filter_lists().unwrap().is_empty());
}

#[test]
fn delete_removes_only_the_matching_row() {
    let mut repo = Repo::new();
    let a = repo.create_list("a").unwrap();
    let b = repo.create_list("b").unwrap();
    let c = repo.create_list("c").unwrap();
    repo.delete_list(b.id).unwrap();
    let rows = repo.filter_lists().unwrap();
    let ids: Vec<i64> = rows.iter().map(|l| l.id).collect();
    assert_eq!(ids, vec![a.id, c.id]);
    assert!(matches!(
        repo.get_list(b.id).unwrap_err(),
        AppError::RecordNotFound
    ));
}

#[test]
fn listing_is_ordered_ascending_by_id() {
    let mut repo = Repo::new();
    repo.create_list("first").unwrap();
    let second = repo.create_list("second").unwrap();
    repo.create_list("third").unwrap();
    repo.delete_list(second.id).unwrap();
    let fourth = repo.create_list("fourth").unwrap();
    let rows = repo.filter_lists().unwrap();
    let ids: Vec<i64> = rows.iter().map(|l| l.id).collect();
    let mut sorted = ids.clone();
    sorted.sort();
    assert_eq!(ids, sorted);
    assert_eq!(ids, vec![1, 3, fourth.id]);
}

#[test]
fn empty_store_lists_nothing_without_error() {
    let repo = Repo::new();
    let rows = repo.filter_lists().unwrap();
    assert!(rows.is_empty());
}

#[test]
fn ids_are_not_reused_after_deletion() {
    let mut repo = Repo::new();
    let a = repo.create_list("a").unwrap();
    repo.delete_list(a.id).unwrap();
    let b = repo.create_list("b").unwrap();
    assert!(b.id > a.id);
}

#[test]
fn instants_advance_one_per_stamping_write() {
    let mut repo = Repo::new();
    let first = repo.create_list("a").unwrap();
    assert_eq!(first.created_at, 1);
    assert_eq!(first.updated_at, 1);
    let second = repo.create_list("b").unwrap();
    assert_eq!(second.created_at, 2);
    let renamed = repo.update_list(first.id, "c").unwrap();
    assert_eq!(renamed.updated_at, 3);
    // a skipped write draws no instant
    let untouched = repo.update_list(second.id, "b").unwrap();
    assert_eq!(untouched.updated_at, 2);
    let third = repo.create_list("d").unwrap();
    assert_eq!(third.created_at, 4);
}

#[test]
fn classifier_maps_zero_row_lookup_to_not_found() {
    let err = AppError::from(BackendError::RowNotFound);
    assert!(matches!(err, AppError::RecordNotFound));
    assert_eq!(err.status_code(), 404);
}

#[test]
fn classifier_maps_every_other_failure_to_internal() {
    let err = AppError::from(BackendError::Other("connection reset".to_string()));
    match &err {
        AppError::Other(msg) => assert_eq!(msg, "connection reset"),
        AppError::RecordNotFound => panic!("misclassified"),
    }
    assert_eq!(err.status_code(), 500);
}
