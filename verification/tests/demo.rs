use user_crud::demo::{example_crud, example_crud_with_id, generate_email, generate_username};
use user_crud::errors::RepoError;
use user_crud::memory_repository::MemoryRepository;
use user_crud::service_trait::ServiceTrait;
use user_crud::user_model::User;
use user_crud::user_service::Service;

fn new_service() -> Service<MemoryRepository> {
    Service::new(MemoryRepository::new())
}

#[test]
fn scenario_fixed_identifier_full_script() {
    let mut service = new_service();

    let created = service
        .create(User {
            id: "abc".to_string(),
            username: "user-abc".to_string(),
            email: "abc@example.com".to_string(),
        })
        .unwrap();
    assert_eq!(created.id, "abc");
    assert_eq!(created.username, "user-abc");
    assert_eq!(created.email, "abc@example.com");

    let fetched = service.get_by_id("abc".to_string()).unwrap();
    assert_eq!(fetched.id, "abc");
    assert_eq!(fetched.username, "user-abc");
    assert_eq!(fetched.email, "abc@example.com");

    let updated = service
        .update(User {
            id: "abc".to_string(),
            username: "updated-user-abc".to_string(),
            email: "updated-abc@example.com".to_string(),
        })
        .unwrap();
    assert_eq!(updated.username, "updated-user-abc");
    assert_eq!(updated.email, "updated-abc@example.com");
    let refetched = service.get_by_id("abc".to_string()).unwrap();
    assert_eq!(refetched.username, "updated-user-abc");
    assert_eq!(refetched.email, "updated-abc@example.com");

    service.delete("abc".to_string()).unwrap();
    assert!(matches!(service.get_by_id("abc".to_string()), Err(RepoError::NotFound)));
    assert!(service.get_all().unwrap().iter().all(|u| u.id != "abc"));
}

#[test]
fn generate_username_prefixes_the_identifier() {
    assert_eq!(generate_username("abc"), "user-abc");
    assert_eq!(generate_username(""), "user-");
}

#[test]
fn generate_email_appends_the_domain() {
    assert_eq!(generate_email("abc"), "abc@example.com");
    assert_eq!(generate_email(""), "@example.com");
}

#[test]
fn example_crud_with_id_runs_the_script_and_restores_the_store() {
    let mut service = new_service();
    service
        .create(User {
            id: "keep".to_string(),
            username: "keeper".to_string(),
            email: "keep@example.com".to_string(),
        })
        .unwrap();

    let report = example_crud_with_id(&mut service, "abc".to_string()).unwrap();
    assert_eq!(report.created.id, "abc");
    assert_eq!(report.created.username, "user-abc");
    assert_eq!(report.created.email, "abc@example.com");
    assert_eq!(report.fetched.username, "user-abc");
    assert_eq!(report.updated.username, "updated-user-abc");
    assert_eq!(report.updated.email, "updated-abc@example.com");
    assert_eq!(report.remaining.len(), 1);
    assert_eq!(report.remaining[0].id, "keep");

    let left = service.get_all().unwrap();
    assert_eq!(left.len(), 1);
    assert_eq!(left[0].id, "keep");
}

#[test]
fn example_crud_with_id_rejects_a_taken_identifier() {
    let mut service = new_service();
    service
        .create(User {
            id: "abc".to_string(),
            username: "original".to_string(),
            email: "original@example.com".to_string(),
        })
        .unwrap();

    let r = example_crud_with_id(&mut service, "abc".to_string());
    assert!(matches!(r, Err(RepoError::Duplicate)));
    let kept = service.get_by_id("abc".to_string()).unwrap();
    assert_eq!(kept.username, "original");
}

#[test]
fn example_crud_draws_an_identifier_and_cleans_up() {
    let mut service = new_service();
    let report = example_crud(&mut service).unwrap();
    let id = report.created.id.as_bytes();
    assert_eq!(id.len(), 36);
    for hyphen in [8, 13, 18, 23] {
        assert_eq!(id[hyphen], b'-');
    }
    assert_eq!(id[14], b'4');
    assert!(matches!(id[19], b'8' | b'9' | b'a' | b'b'));
    assert_eq!(report.created.username, format!("user-{}", report.created.id));
    assert_eq!(report.created.email, format!("{}@example.com", report.created.id));
    assert_eq!(report.updated.username, format!("updated-user-{}", report.created.id));
    assert!(report.remaining.is_empty());
    assert!(service.get_all().unwrap().is_empty());
}
