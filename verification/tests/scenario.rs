use todolist::handlers::{create_task, delete_task, get_tasks, update_task, Payload, Status};
use todolist::models::CreateTask;
use todolist::repository::{RepoError, Repository};
use todolist::validation::TitlePolicy;

#[test]
fn create_toggle_delete_scenario() {
    let mut repo = Repository::new(TitlePolicy::Strict);

    let created = repo.create("Buy milk").unwrap();
    assert_eq!(created.title, "Buy milk");
    assert!(!created.completed);

    assert_eq!(repo.create("buy milk"), Err(RepoError::DuplicateTitle));

    let toggled = repo.toggle(&created.id).unwrap();
    assert!(toggled.completed);
    assert_eq!(toggled.id, created.id);

    assert_eq!(repo.delete(&created.id), Ok(()));
    assert!(repo.list().is_empty());
    assert_eq!(repo.delete(&created.id), Err(RepoError::NotFound));
}

#[test]
fn create_toggle_delete_scenario_through_handlers() {
    let mut repo = Repository::new(TitlePolicy::Strict);

    let first = create_task(&mut repo, &CreateTask { title: "Buy milk".to_string() });
    assert_eq!(first.status, Status::Created);
    assert_eq!(first.status.code(), 201);
    let task = match first.payload {
        Payload::Task(task) => task,
        other => panic!("unexpected payload {:?}", other),
    };
    assert!(!task.completed);

    let second = create_task(&mut repo, &CreateTask { title: "buy milk".to_string() });
    assert_eq!(second.status.code(), 400);
    assert_eq!(second.payload, Payload::Duplicate);

    let toggled = update_task(&mut repo, &task.id, None);
    assert_eq!(toggled.status.code(), 200);
    match toggled.payload {
        Payload::Task(t) => assert!(t.completed),
        other => panic!("unexpected payload {:?}", other),
    }

    let deleted = delete_task(&mut repo, &task.id);
    assert_eq!(deleted.status.code(), 200);
    assert_eq!(deleted.payload, Payload::Deleted);

    let listed = get_tasks(&repo);
    assert_eq!(listed.status.code(), 200);
    assert_eq!(listed.payload, Payload::Tasks(vec![]));

    let again = delete_task(&mut repo, &task.id);
    assert_eq!(again.status.code(), 404);
    assert_eq!(again.payload, Payload::Missing);
}
