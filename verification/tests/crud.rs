use user_crud::errors::RepoError;
use user_crud::memory_repository::MemoryRepository;
use user_crud::repository_trait::RepositoryTrait;
use user_crud::service_trait::ServiceTrait;
use user_crud::user_model::User;
use user_crud::user_service::Service;

fn user(id: &str, username: &str, email: &str) -> User {
    User { id: id.to_string(), username: username.to_string(), email: email.to_string() }
}

fn new_service() -> Service<MemoryRepository> {
    Service::new(MemoryRepository::new())
}

#[test]
fn round_trip_create_then_get() {
    let mut service = new_service();
    let created = service.create(user("id-1", "alice", "alice@example.com")).unwrap();
    assert_eq!(created.id, "id-1");
    assert_eq!(created.username, "alice");
    assert_eq!(created.email, "alice@example.com");
    let fetched = service.get_by_id("id-1".to_string()).unwrap();
    assert_eq!(fetched.id, "id-1");
    assert_eq!(fetched.username, "alice");
    assert_eq!(fetched.email, "alice@example.com");
}

#[test]
fn update_returns_freshly_read_row() {
    let mut service = new_service();
    service.create(user("id-2", "bob", "bob@example.com")).unwrap();
    let returned = service.update(user("id-2", "robert", "robert@example.com")).unwrap();
    let fetched = service.get_by_id("id-2".to_string()).unwrap();
    assert_eq!(returned.id, fetched.id);
    assert_eq!(returned.username, fetched.username);
    assert_eq!(returned.email, fetched.email);
    assert_eq!(fetched.username, "robert");
    assert_eq!(fetched.email, "robert@example.com");
}

#[test]
fn delete_removes_visibility() {
    let mut service = new_service();
    service.create(user("id-3", "carol", "carol@example.com")).unwrap();
    service.delete("id-3".to_string()).unwrap();
    let after = service.get_by_id("id-3".to_string());
    assert!(matches!(after, Err(RepoError::NotFound)));
}

#[test]
fn get_all_lists_exactly_the_persisted_ids() {
    let mut service = new_service();
    service.create(user("a", "ua", "a@example.com")).unwrap();
    service.create(user("b", "ub", "b@example.com")).unwrap();
    service.create(user("c", "uc", "c@example.com")).unwrap();
    service.delete("b".to_string()).unwrap();
    let mut ids: Vec<String> = service.get_all().unwrap().into_iter().map(|u| u.id).collect();
    ids.sort();
    assert_eq!(ids, vec!["a".to_string(), "c".to_string()]);
}

#[test]
fn get_all_on_empty_store_is_empty() {
    let service = new_service();
    assert!(service.get_all().unwrap().is_empty());
}

#[test]
fn repository_update_of_missing_id_succeeds() {
    // The documented gap kept from the storage contract: the repository
    // reports success even when no row matched, and changes nothing.
    let mut repo = MemoryRepository::new();
    assert!(repo.update(user("ghostly", "nobody", "nobody@example.com")).is_ok());
    assert!(repo.get_all().unwrap().is_empty());
}

#[test]
fn service_update_of_missing_id_fails_on_refetch() {
    // The service layers the re-fetch rule on top, so the same call
    // surfaces the absence as a not-found error.
    let mut service = new_service();
    let r = service.update(user("ghostly", "nobody", "nobody@example.com"));
    assert!(matches!(r, Err(RepoError::NotFound)));
}

#[test]
fn create_duplicate_id_fails() {
    let mut service = new_service();
    service.create(user("dup", "first", "first@example.com")).unwrap();
    let second = service.create(user("dup", "second", "second@example.com"));
    assert!(matches!(second, Err(RepoError::Duplicate)));
    let kept = service.get_by_id("dup".to_string()).unwrap();
    assert_eq!(kept.username, "first");
}

#[test]
fn get_by_id_on_empty_store_is_not_found() {
    let service = new_service();
    assert!(matches!(service.get_by_id("none".to_string()), Err(RepoError::NotFound)));
}

#[test]
fn storage_error_carries_the_backend_message() {
    let e = RepoError::Storage("connection refused".to_string());
    assert!(matches!(e, RepoError::Storage(m) if m == "connection refused"));
}
