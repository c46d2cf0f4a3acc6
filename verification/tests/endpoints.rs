use listkeeper::handlers::create_list;
use listkeeper::handlers::delete_list;
use listkeeper::handlers::edit_list;
use listkeeper::handlers::lists_index;
use listkeeper::handlers::update_list;
use listkeeper::handlers::CreateOutcome;
use listkeeper::handlers::UpdateOutcome;
use listkeeper::AppError;
use listkeeper::CreateListForm;
use listkeeper::Repo;
use listkeeper::UpdateListForm;

#[test]
fn create_trims_the_submitted_name() {
    let mut repo = Repo::new();
    let form = CreateListForm {
        name: "  Groceries \t\n".to_string(),
    };
    let outcome = create_list(&mut repo, &form).unwrap();
    match outcome {
        CreateOutcome::Created(card) => {
            assert_eq!(card.list.name, "Groceries");
            assert!(!card.editing_name);
        }
        CreateOutcome::ValidationFailed(_) => panic!("non-empty name was rejected"),
    }
    let fetched = repo.get_list(1).unwrap();
    assert_eq!(fetched.name, "Groceries");
}

#[test]
fn create_rejects_empty_name() {
    let mut repo = Repo::new();
    let form = CreateListForm {
        name: String::new(),
    };
    let outcome = create_list(&mut repo, &form).unwrap();
    assert_eq!(outcome.status_code(), 400);
    match outcome {
        CreateOutcome::ValidationFailed(view) => {
            assert_eq!(view.new_list.name, "");
            assert_eq!(view.new_list.id, 0);
            assert_eq!(view.message, "name cannot be empty");
        }
        CreateOutcome::Created(_) => panic!("empty name was accepted"),
    }
    assert!(repo.filter_lists().unwrap().is_empty());
}

#[test]
fn create_rejects_whitespace_only_name() {
    let mut repo = Repo::new();
    let form = CreateListForm {
        name: " \t \n ".to_string(),
    };
    let outcome = create_list(&mut repo, &form).unwrap();
    assert_eq!(outcome.status_code(), 400);
    match outcome {
        CreateOutcome::ValidationFailed(view) => {
            assert_eq!(view.message, "name cannot be empty");
        }
        CreateOutcome::Created(_) => panic!("whitespace-only name was accepted"),
    }
    assert!(repo.filter_lists().unwrap().is_empty());
}

#[test]
fn create_success_has_ok_status() {
    let mut repo = Repo::new();
    let form = CreateListForm {
        name: "Groceries".to_string(),
    };
    let outcome = create_list(&mut repo, &form).unwrap();
    assert_eq!(outcome.status_code(), 200);
}

#[test]
fn update_rejects_whitespace_only_name_and_leaves_row_unmodified() {
    let mut repo = Repo::new();
    let created = create_card(&mut repo, "Groceries");
    let form = UpdateListForm {
        name: "   ".to_string(),
    };
    let outcome = update_list(&mut repo, created.id, &form).unwrap();
    assert_eq!(outcome.status_code(), 400);
    assert!(matches!(outcome, UpdateOutcome::ValidationFailed));
    let fetched = repo.get_list(created.id).unwrap();
    assert_eq!(fetched.name, "Groceries");
    assert_eq!(fetched.updated_at, created.updated_at);
}

#[test]
fn update_of_missing_id_propagates_not_found() {
    let mut repo = Repo::new();
    let form = UpdateListForm {
        name: "Anything".to_string(),
    };
    let err = update_list(&mut repo, 9, &form).unwrap_err();
    assert!(matches!(err, AppError::RecordNotFound));
    assert_eq!(err.status_code(), 404);
}

#[test]
fn update_trims_before_comparing_with_the_stored_name() {
    let mut repo = Repo::new();
    let created = create_card(&mut repo, "Groceries");
    let form = UpdateListForm {
        name: "  Groceries  ".to_string(),
    };
    let outcome = update_list(&mut repo, created.id, &form).unwrap();
    match outcome {
        UpdateOutcome::Updated(card) => {
            assert_eq!(card.list.name, "Groceries");
            assert_eq!(card.list.updated_at, created.updated_at);
            assert!(!card.editing_name);
        }
        UpdateOutcome::ValidationFailed => panic!("non-empty name was rejected"),
    }
}

#[test]
fn groceries_scenario() {
    let mut repo = Repo::new();
    let form = CreateListForm {
        name: "Groceries".to_string(),
    };
    let created = match create_list(&mut repo, &form).unwrap() {
        CreateOutcome::Created(card) => card.list,
        CreateOutcome::ValidationFailed(_) => panic!("creation was rejected"),
    };
    assert_eq!(created.name, "Groceries");
    assert_eq!(created.created_at, created.updated_at);

    let same = UpdateListForm {
        name: "Groceries".to_string(),
    };
    let unchanged = match update_list(&mut repo, created.id, &same).unwrap() {
        UpdateOutcome::Updated(card) => card.list,
        UpdateOutcome::ValidationFailed => panic!("non-empty name was rejected"),
    };
    assert_eq!(unchanged.name, "Groceries");
    assert_eq!(unchanged.updated_at, created.updated_at);
    assert_eq!(unchanged.created_at, created.created_at);

    let different = UpdateListForm {
        name: "Shopping".to_string(),
    };
    let changed = match update_list(&mut repo, created.id, &different).unwrap() {
        UpdateOutcome::Updated(card) => card.list,
        UpdateOutcome::ValidationFailed => panic!("non-empty name was rejected"),
    };
    assert_eq!(changed.name, "Shopping");
    assert!(changed.updated_at > unchanged.updated_at);
    assert_eq!(changed.created_at, created.created_at);
}

#[test]
fn edit_marks_the_entity_as_in_edit_mode() {
    let mut repo = Repo::new();
    let created = create_card(&mut repo, "Groceries");
    let card = edit_list(&repo, created.id).unwrap();
    assert!(card.editing_name);
    assert_eq!(card.list.name, "Groceries");
}

#[test]
fn edit_of_missing_id_propagates_not_found() {
    let repo = Repo::new();
    let err = edit_list(&repo, 4).unwrap_err();
    assert!(matches!(err, AppError::RecordNotFound));
}

#[test]
fn delete_endpoint_always_reports_no_content() {
    let mut repo = Repo::new();
    let created = create_card(&mut repo, "Groceries");
    assert_eq!(delete_list(&mut repo, created.id).unwrap(), 204);
    assert_eq!(delete_list(&mut repo, created.id).unwrap(), 204);
    assert_eq!(delete_list(&mut repo, 12345).unwrap(), 204);
}

#[test]
fn index_lists_rows_ascending_with_a_blank_template() {
    let mut repo = Repo::new();
    create_card(&mut repo, "first");
    create_card(&mut repo, "second");
    let view = lists_index(&repo).unwrap();
    let ids: Vec<i64> = view.lists.iter().map(|l| l.id).collect();
    assert_eq!(ids, vec![1, 2]);
    assert_eq!(view.new_list.name, "");
    assert_eq!(view.new_list.id, 0);
    assert_eq!(view.new_list.created_at, 0);
    assert_eq!(view.new_list.updated_at, 0);
    assert!(!view.editing_name);
}

#[test]
fn index_of_empty_store_is_empty() {
    let repo = Repo::new();
    let view = lists_index(&repo).unwrap();
    assert!(view.lists.is_empty());
}

fn create_card(repo: &mut Repo, name: &str) -> listkeeper::List {
    let form = CreateListForm {
        name: name.to_string(),
    };
    match create_list(repo, &form).unwrap() {
        CreateOutcome::Created(card) => card.list,
        CreateOutcome::ValidationFailed(_) => panic!("non-empty name was rejected"),
    }
}
