use task_tracker::entities::Task;
use task_tracker::in_memory::InMemoryTaskRepository;
use task_tracker::repositories::TaskRepository;
use task_tracker::services::{TaskService, TaskServiceError};

fn task(id: i64, title: &str, description: &str, status: bool) -> Task {
    Task { id, title: title.to_string(), description: description.to_string(), status }
}

fn service_with(tasks: Vec<Task>) -> TaskService<InMemoryTaskRepository> {
    let mut repo = InMemoryTaskRepository::new();
    for t in tasks {
        repo.create(t).unwrap();
    }
    TaskService::new(repo)
}

#[test]
fn get_all_tasks_returns_empty_vec_if_no_tasks() {
    let service = service_with(vec![]);
    let tasks = service.get_all();
    assert!(tasks.is_empty());
}

#[test]
fn get_all_tasks_returns_all_tasks() {
    let task1 = task(1, "T1", "D1", false);
    let task2 = task(2, "T2", "D2", true);
    let service = service_with(vec![task1.clone(), task2.clone()]);
    let tasks = service.get_all();
    assert_eq!(tasks.len(), 2);
    assert_eq!(tasks[0].id, 1);
    assert_eq!(tasks[1].id, 2);
}

#[test]
fn get_by_id_returns_task_if_found() {
    let service = service_with(vec![task(1, "Test", "Desc", false)]);
    let result = service.get_by_id(1);
    assert!(result.is_ok());
    assert_eq!(result.unwrap().id, 1);
}

#[test]
fn get_by_id_returns_error_if_not_found() {
    let service = service_with(vec![]);
    let result = service.get_by_id(99);
    assert!(matches!(result, Err(TaskServiceError::TaskNotFound)));
}

#[test]
fn create_task_success() {
    let mut service = service_with(vec![]);
    let result = service.create("New Task".to_string(), "New Description".to_string());
    assert!(result.is_ok());
    let stored = service.get_by_id(1).unwrap();
    assert!(stored.id == 1 && stored.title == "New Task" && stored.description == "New Description");
}

#[test]
fn create_task_missing_title() {
    let mut service = service_with(vec![]);
    let result = service.create("".to_string(), "Description".to_string());
    assert!(matches!(result, Err(TaskServiceError::MissingTitle)));
}

#[test]
fn create_task_missing_description() {
    let mut service = service_with(vec![]);
    let result = service.create("Title".to_string(), "".to_string());
    assert!(matches!(result, Err(TaskServiceError::MissingDescription)));
}

#[test]
fn services_create_task_already_exists() {
    // The store already holds identifier 1, which is the next one issued.
    let mut service = service_with(vec![task(1, "Existing Task", "Description", false)]);
    let result = service.create("Existing Task".to_string(), "Description".to_string());
    assert!(matches!(result, Err(TaskServiceError::TaskAlreadyExists)));
}

#[test]
fn delete_task_success() {
    let mut service = service_with(vec![task(1, "T", "D", false)]);
    let result = service.delete(1);
    assert!(result.is_ok());
}

#[test]
fn delete_task_not_found() {
    let mut service = service_with(vec![]);
    let result = service.delete(99);
    assert!(matches!(result, Err(TaskServiceError::TaskNotFound)));
}

#[test]
fn toggle_task_success() {
    let mut service = service_with(vec![task(1, "T", "D", false)]);
    let result = service.toggle(1);
    assert!(result.is_ok());
}

#[test]
fn toggle_task_not_found() {
    let mut service = service_with(vec![]);
    let result = service.toggle(99);
    assert!(matches!(result, Err(TaskServiceError::TaskNotFound)));
}

#[test]
fn create_then_get_gives_fields_and_incomplete_status() {
    let mut service = service_with(vec![]);
    service.create("Write report".to_string(), "Quarterly numbers".to_string()).unwrap();
    let t = service.get_by_id(1).unwrap();
    assert_eq!(t, task(1, "Write report", "Quarterly numbers", false));
}

#[test]
fn create_with_both_fields_empty_reports_missing_title() {
    let mut service = service_with(vec![]);
    let result = service.create("".to_string(), "".to_string());
    assert_eq!(result, Err(TaskServiceError::MissingTitle));
    assert!(service.get_all().is_empty());
}

#[test]
fn failed_validation_issues_no_identifier() {
    let mut service = service_with(vec![]);
    assert_eq!(service.create("".to_string(), "x".to_string()), Err(TaskServiceError::MissingTitle));
    assert_eq!(service.create("x".to_string(), "".to_string()), Err(TaskServiceError::MissingDescription));
    service.create("x".to_string(), "y".to_string()).unwrap();
    assert_eq!(service.get_by_id(1).unwrap().id, 1);
}

#[test]
fn unknown_identifier_is_not_found_everywhere() {
    let mut service = service_with(vec![]);
    service.create("A".to_string(), "B".to_string()).unwrap();
    assert_eq!(service.get_by_id(7), Err(TaskServiceError::TaskNotFound));
    assert_eq!(service.delete(7), Err(TaskServiceError::TaskNotFound));
    assert_eq!(service.toggle(7), Err(TaskServiceError::TaskNotFound));
    assert_eq!(service.get_all().len(), 1);
}

#[test]
fn toggle_twice_restores_status() {
    let mut service = service_with(vec![task(4, "T", "D", true)]);
    service.toggle(4).unwrap();
    assert!(!service.get_by_id(4).unwrap().status);
    service.toggle(4).unwrap();
    assert_eq!(service.get_by_id(4).unwrap(), task(4, "T", "D", true));
}

#[test]
fn identifiers_are_not_reused_after_delete() {
    let mut service = service_with(vec![]);
    service.create("A".to_string(), "a".to_string()).unwrap();
    service.create("B".to_string(), "b".to_string()).unwrap();
    service.delete(2).unwrap();
    service.create("C".to_string(), "c".to_string()).unwrap();
    let ids: Vec<i64> = service.get_all().iter().map(|t| t.id).collect();
    assert_eq!(ids, vec![1, 3]);
}

#[test]
fn walkthrough_of_create_toggle_delete() {
    let mut service = service_with(vec![]);
    service.create("T1".to_string(), "D1".to_string()).unwrap();
    let a = service.get_by_id(1).unwrap();
    assert_eq!(a.id, 1);
    assert!(!a.status);
    service.create("T2".to_string(), "D2".to_string()).unwrap();
    let b = service.get_by_id(2).unwrap();
    assert_eq!(b.id, 2);
    let all = service.get_all();
    assert_eq!(all.len(), 2);
    assert!(all.contains(&task(1, "T1", "D1", false)));
    assert!(all.contains(&task(2, "T2", "D2", false)));
    service.toggle(1).unwrap();
    assert!(service.get_by_id(1).unwrap().status);
    service.delete(2).unwrap();
    assert_eq!(service.get_all(), vec![task(1, "T1", "D1", true)]);
    assert_eq!(service.delete(2), Err(TaskServiceError::TaskNotFound));
}
