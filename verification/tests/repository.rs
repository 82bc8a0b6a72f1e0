use todolist::models::{Task, UpdateTask};
use todolist::repository::{RepoError, Repository};
use todolist::validation::{TitlePolicy, ValidationError};

fn titles(repo: &Repository) -> Vec<String> {
    repo.list().into_iter().map(|t| t.title).collect()
}

#[test]
fn new_repository_is_empty() {
    let repo = Repository::new(TitlePolicy::Strict);
    assert_eq!(repo.len(), 0);
    assert!(repo.list().is_empty());
    assert_eq!(repo.title_policy(), TitlePolicy::Strict);
    assert_eq!(Repository::new(TitlePolicy::Permissive).title_policy(), TitlePolicy::Permissive);
}

#[test]
fn create_returns_the_new_task() {
    let mut repo = Repository::new(TitlePolicy::Strict);
    let task = repo.create("Buy milk").unwrap();
    assert_eq!(task.title, "Buy milk");
    assert!(!task.completed);
    assert_eq!(repo.list(), vec![task]);
}

#[test]
fn created_identifier_is_a_random_uuid() {
    let mut repo = Repository::new(TitlePolicy::Strict);
    let task = repo.create("Buy milk").unwrap();
    assert_eq!(task.id.len(), 36);
    let chars: Vec<char> = task.id.chars().collect();
    let mut i = 0;
    while i < 36 {
        if i == 8 || i == 13 || i == 18 || i == 23 {
            assert_eq!(chars[i], '-');
        } else {
            assert!(matches!(chars[i], '0'..='9' | 'a'..='f'));
        }
        i += 1;
    }
    assert_eq!(chars[14], '4');
    assert!(matches!(chars[19], '8' | '9' | 'a' | 'b'));
    let parsed = uuid::Uuid::parse_str(&task.id).unwrap();
    assert_eq!(parsed.get_version_num(), 4);
    assert_eq!(parsed.to_string(), task.id);
}

#[test]
fn created_identifiers_differ() {
    let mut repo = Repository::new(TitlePolicy::Strict);
    let a = repo.create("one").unwrap();
    let b = repo.create("two").unwrap();
    let c = repo.create("three").unwrap();
    assert_ne!(a.id, b.id);
    assert_ne!(a.id, c.id);
    assert_ne!(b.id, c.id);
}

#[test]
fn list_is_in_insertion_order() {
    let mut repo = Repository::new(TitlePolicy::Strict);
    repo.create("first").unwrap();
    repo.create("second").unwrap();
    repo.create("third").unwrap();
    assert_eq!(titles(&repo), vec!["first", "second", "third"]);
    assert_eq!(repo.len(), 3);
}

#[test]
fn list_is_a_snapshot() {
    let mut repo = Repository::new(TitlePolicy::Strict);
    let task = repo.create("first").unwrap();
    let snapshot = repo.list();
    repo.toggle(&task.id).unwrap();
    repo.create("second").unwrap();
    assert_eq!(snapshot, vec![task]);
    assert_eq!(repo.len(), 2);
}

#[test]
fn create_rejects_invalid_titles() {
    let mut repo = Repository::new(TitlePolicy::Strict);
    assert_eq!(
        repo.create(""),
        Err(RepoError::ValidationFailed(ValidationError::EmptyTitle))
    );
    assert_eq!(
        repo.create("   "),
        Err(RepoError::ValidationFailed(ValidationError::EmptyTitle))
    );
    let long: String = std::iter::repeat('a').take(256).collect();
    assert_eq!(repo.create(&long), Err(RepoError::ValidationFailed(ValidationError::TooLong)));
    assert_eq!(
        repo.create("a@b"),
        Err(RepoError::ValidationFailed(ValidationError::InvalidCharacters))
    );
    assert!(repo.list().is_empty());
}

#[test]
fn create_follows_the_policy_of_the_repository() {
    let mut strict = Repository::new(TitlePolicy::Strict);
    let mut permissive = Repository::new(TitlePolicy::Permissive);
    assert_eq!(
        strict.create("caf\u{e9}"),
        Err(RepoError::ValidationFailed(ValidationError::InvalidCharacters))
    );
    assert_eq!(permissive.create("caf\u{e9}").unwrap().title, "caf\u{e9}");
}

#[test]
fn create_rejects_a_title_that_differs_only_in_case() {
    let mut repo = Repository::new(TitlePolicy::Strict);
    repo.create("Buy milk").unwrap();
    assert_eq!(repo.create("Buy milk"), Err(RepoError::DuplicateTitle));
    assert_eq!(repo.create("buy milk"), Err(RepoError::DuplicateTitle));
    assert_eq!(repo.create("BUY MILK"), Err(RepoError::DuplicateTitle));
    assert_eq!(repo.len(), 1);
    assert!(repo.create("Buy milk ").is_ok());
    assert_eq!(repo.len(), 2);
}

#[test]
fn case_is_ignored_for_letters_of_any_script() {
    let mut repo = Repository::new(TitlePolicy::Permissive);
    repo.create("\u{c9}cole").unwrap();
    assert_eq!(repo.create("\u{e9}COLE"), Err(RepoError::DuplicateTitle));
    assert_eq!(repo.create("\u{c9}COLE"), Err(RepoError::DuplicateTitle));
    assert!(repo.create("ecole").is_ok());
    assert_eq!(repo.len(), 2);
}

#[test]
fn a_case_variant_that_fails_validation_is_reported_as_invalid() {
    let mut repo = Repository::new(TitlePolicy::Strict);
    repo.create("k").unwrap();
    assert_eq!(
        repo.create("\u{212a}"),
        Err(RepoError::ValidationFailed(ValidationError::InvalidCharacters))
    );
    assert_eq!(repo.create("K"), Err(RepoError::DuplicateTitle));
}

#[test]
fn of_many_case_variants_one_is_created() {
    let variants = ["walk dog", "Walk dog", "WALK DOG", "wAlK dOg", "walk Dog", "walk doG"];
    let mut repo = Repository::new(TitlePolicy::Strict);
    let mut created = 0;
    let mut duplicates = 0;
    for title in variants.iter() {
        match repo.create(title) {
            Ok(_) => created += 1,
            Err(RepoError::DuplicateTitle) => duplicates += 1,
            Err(other) => panic!("unexpected error {:?}", other),
        }
    }
    assert_eq!(created, 1);
    assert_eq!(duplicates, 5);
    assert_eq!(titles(&repo), vec!["walk dog"]);
}

#[test]
fn validation_comes_before_the_duplicate_check() {
    let mut repo = Repository::new(TitlePolicy::Permissive);
    repo.create("a").unwrap();
    assert_eq!(
        repo.create("a!"),
        Err(RepoError::ValidationFailed(ValidationError::InvalidCharacters))
    );
}

#[test]
fn admits_reports_without_changing_anything() {
    let mut repo = Repository::new(TitlePolicy::Strict);
    repo.create("Buy milk").unwrap();
    assert_eq!(repo.admits("Walk dog"), Ok(()));
    assert_eq!(repo.admits("buy MILK"), Err(RepoError::DuplicateTitle));
    assert_eq!(
        repo.admits(""),
        Err(RepoError::ValidationFailed(ValidationError::EmptyTitle))
    );
    assert_eq!(repo.len(), 1);
}

#[test]
fn create_with_id_uses_the_identifier() {
    let mut repo = Repository::new(TitlePolicy::Strict);
    let task = repo.create_with_id("Buy milk", "id-1".to_string()).unwrap();
    assert_eq!(
        task,
        Task { id: "id-1".to_string(), title: "Buy milk".to_string(), completed: false }
    );
    assert_eq!(repo.list(), vec![task]);
}

#[test]
fn create_with_id_refuses_an_identifier_that_is_taken() {
    let mut repo = Repository::new(TitlePolicy::Strict);
    repo.create_with_id("Buy milk", "id-1".to_string()).unwrap();
    assert_eq!(
        repo.create_with_id("Walk dog", "id-1".to_string()),
        Err(RepoError::StorageUnavailable)
    );
    assert_eq!(
        repo.create_with_id("buy milk", "id-1".to_string()),
        Err(RepoError::DuplicateTitle)
    );
    assert_eq!(
        repo.create_with_id("!", "id-1".to_string()),
        Err(RepoError::ValidationFailed(ValidationError::InvalidCharacters))
    );
    assert_eq!(titles(&repo), vec!["Buy milk"]);
}

#[test]
fn update_of_completed_alone_keeps_the_title() {
    let mut repo = Repository::new(TitlePolicy::Strict);
    let task = repo.create("Buy milk").unwrap();
    let patch = UpdateTask { title: None, completed: Some(true) };
    let updated = repo.update(&task.id, &patch).unwrap();
    assert_eq!(
        updated,
        Task { id: task.id.clone(), title: "Buy milk".to_string(), completed: true }
    );
    assert_eq!(repo.list(), vec![updated]);
}

#[test]
fn update_of_title_alone_keeps_completed() {
    let mut repo = Repository::new(TitlePolicy::Strict);
    let task = repo.create("Buy milk").unwrap();
    repo.toggle(&task.id).unwrap();
    let patch = UpdateTask { title: Some("Buy bread".to_string()), completed: None };
    let updated = repo.update(&task.id, &patch).unwrap();
    assert_eq!(
        updated,
        Task { id: task.id.clone(), title: "Buy bread".to_string(), completed: true }
    );
    assert_eq!(repo.list(), vec![updated]);
}

#[test]
fn update_of_both_fields() {
    let mut repo = Repository::new(TitlePolicy::Strict);
    let task = repo.create("Buy milk").unwrap();
    let patch = UpdateTask { title: Some("Buy bread".to_string()), completed: Some(true) };
    let updated = repo.update(&task.id, &patch).unwrap();
    assert_eq!(updated.id, task.id);
    assert_eq!(updated.title, "Buy bread");
    assert!(updated.completed);
}

#[test]
fn update_with_an_empty_patch_changes_nothing() {
    let mut repo = Repository::new(TitlePolicy::Strict);
    let task = repo.create("Buy milk").unwrap();
    let patch = UpdateTask { title: None, completed: None };
    assert_eq!(repo.update(&task.id, &patch), Ok(task.clone()));
    assert_eq!(repo.list(), vec![task]);
}

#[test]
fn update_leaves_the_other_tasks_alone() {
    let mut repo = Repository::new(TitlePolicy::Strict);
    let a = repo.create("one").unwrap();
    let b = repo.create("two").unwrap();
    let c = repo.create("three").unwrap();
    let patch = UpdateTask { title: Some("deux".to_string()), completed: Some(true) };
    let changed = repo.update(&b.id, &patch).unwrap();
    assert_eq!(repo.list(), vec![a, changed, c]);
}

#[test]
fn update_of_an_unknown_identifier_is_not_found() {
    let mut repo = Repository::new(TitlePolicy::Strict);
    repo.create("Buy milk").unwrap();
    let patch = UpdateTask { title: None, completed: Some(true) };
    assert_eq!(repo.update("no such id", &patch), Err(RepoError::NotFound));
    let invalid = UpdateTask { title: Some("@".to_string()), completed: None };
    assert_eq!(repo.update("no such id", &invalid), Err(RepoError::NotFound));
}

#[test]
fn update_validates_a_new_title() {
    let mut repo = Repository::new(TitlePolicy::Strict);
    let task = repo.create("Buy milk").unwrap();
    let blank = UpdateTask { title: Some("  ".to_string()), completed: Some(true) };
    assert_eq!(
        repo.update(&task.id, &blank),
        Err(RepoError::ValidationFailed(ValidationError::EmptyTitle))
    );
    let long: String = std::iter::repeat('b').take(300).collect();
    let too_long = UpdateTask { title: Some(long), completed: None };
    assert_eq!(
        repo.update(&task.id, &too_long),
        Err(RepoError::ValidationFailed(ValidationError::TooLong))
    );
    let invalid = UpdateTask { title: Some("milk?".to_string()), completed: None };
    assert_eq!(
        repo.update(&task.id, &invalid),
        Err(RepoError::ValidationFailed(ValidationError::InvalidCharacters))
    );
    assert_eq!(repo.list(), vec![task]);
}

#[test]
fn update_rejects_the_title_of_another_task() {
    let mut repo = Repository::new(TitlePolicy::Strict);
    let milk = repo.create("Buy milk").unwrap();
    let dog = repo.create("Walk dog").unwrap();
    let patch = UpdateTask { title: Some("BUY MILK".to_string()), completed: Some(true) };
    assert_eq!(repo.update(&dog.id, &patch), Err(RepoError::DuplicateTitle));
    assert_eq!(repo.list(), vec![milk, dog]);
}

#[test]
fn update_may_change_the_case_of_its_own_title() {
    let mut repo = Repository::new(TitlePolicy::Strict);
    let milk = repo.create("Buy milk").unwrap();
    repo.create("Walk dog").unwrap();
    let patch = UpdateTask { title: Some("BUY MILK".to_string()), completed: None };
    let updated = repo.update(&milk.id, &patch).unwrap();
    assert_eq!(updated.title, "BUY MILK");
    assert_eq!(titles(&repo), vec!["BUY MILK", "Walk dog"]);
}

#[test]
fn toggle_negates_completed() {
    let mut repo = Repository::new(TitlePolicy::Strict);
    let task = repo.create("Buy milk").unwrap();
    let once = repo.toggle(&task.id).unwrap();
    assert_eq!(once, Task { id: task.id.clone(), title: task.title.clone(), completed: true });
    assert_eq!(repo.list(), vec![once]);
    let twice = repo.toggle(&task.id).unwrap();
    assert_eq!(twice, task);
    assert_eq!(repo.list(), vec![twice]);
}

#[test]
fn toggle_of_an_unknown_identifier_is_not_found() {
    let mut repo = Repository::new(TitlePolicy::Strict);
    let task = repo.create("Buy milk").unwrap();
    assert_eq!(repo.toggle(""), Err(RepoError::NotFound));
    assert_eq!(repo.toggle("nope"), Err(RepoError::NotFound));
    assert_eq!(repo.list(), vec![task]);
}

#[test]
fn identifier_survives_updates_and_toggles() {
    let mut repo = Repository::new(TitlePolicy::Strict);
    let task = repo.create("Buy milk").unwrap();
    let other = repo.create("Walk dog").unwrap();
    let renamed = repo
        .update(&task.id, &UpdateTask { title: Some("Buy bread".to_string()), completed: None })
        .unwrap();
    assert_eq!(renamed.id, task.id);
    let toggled = repo.toggle(&task.id).unwrap();
    assert_eq!(toggled.id, task.id);
    let ids: Vec<String> = repo.list().into_iter().map(|t| t.id).collect();
    assert_eq!(ids, vec![task.id, other.id]);
}

#[test]
fn delete_twice_is_success_then_not_found() {
    let mut repo = Repository::new(TitlePolicy::Strict);
    let task = repo.create("Buy milk").unwrap();
    assert_eq!(repo.delete(&task.id), Ok(()));
    assert_eq!(repo.delete(&task.id), Err(RepoError::NotFound));
    assert_eq!(repo.delete(&task.id), Err(RepoError::NotFound));
    assert!(repo.list().is_empty());
}

#[test]
fn delete_keeps_the_order_of_the_others() {
    let mut repo = Repository::new(TitlePolicy::Strict);
    let a = repo.create("one").unwrap();
    let b = repo.create("two").unwrap();
    let c = repo.create("three").unwrap();
    assert_eq!(repo.delete(&b.id), Ok(()));
    assert_eq!(repo.list(), vec![a.clone(), c.clone()]);
    assert_eq!(repo.delete(&a.id), Ok(()));
    assert_eq!(repo.list(), vec![c]);
}

#[test]
fn a_deleted_title_can_be_created_again() {
    let mut repo = Repository::new(TitlePolicy::Strict);
    let task = repo.create("Buy milk").unwrap();
    repo.delete(&task.id).unwrap();
    let again = repo.create("buy milk").unwrap();
    assert_ne!(again.id, task.id);
    assert_eq!(repo.update(&task.id, &UpdateTask { title: None, completed: Some(true) }),
        Err(RepoError::NotFound));
}

#[test]
fn patched_applies_the_fields_that_are_present() {
    let task = Task { id: "x".to_string(), title: "old".to_string(), completed: false };
    let both = UpdateTask { title: Some("new".to_string()), completed: Some(true) };
    assert_eq!(
        task.patched(&both),
        Task { id: "x".to_string(), title: "new".to_string(), completed: true }
    );
    let neither = UpdateTask { title: None, completed: None };
    assert_eq!(task.patched(&neither), task);
}
