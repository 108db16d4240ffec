use minipress::models::{Role, Timestamp, User, UserRequest, Uuid};
use minipress::{Database, Error};

fn at(seconds: i128) -> Timestamp {
    Timestamp { nanos: seconds * 1_000_000_000 }
}

fn id(value: u128) -> Uuid {
    Uuid { value }
}

fn payload(username: &str) -> UserRequest {
    UserRequest {
        username: username.to_string(),
        email: Some(format!("{}@example.com", username)),
        password: Some("hash".to_string()),
        name: Some("A Name".to_string()),
        avatar_url: None,
        gravatar_id: Some("g".to_string()),
        github_id: None,
        github_token: Some("tok".to_string()),
        role: Role::Author,
        created_at: at(1),
        updated_at: at(2),
    }
}

#[test]
fn create_then_find_by_id_gives_the_payload_with_server_timestamps() {
    let mut db = Database::new();
    let request = payload("alice");
    let created = User::create(request.clone(), &mut db, at(100)).unwrap();
    let found = User::find_by_id(created.id, &db).unwrap();
    assert_eq!(found, created);
    assert_eq!(found.username, request.username);
    assert_eq!(found.email, request.email);
    assert_eq!(found.password, request.password);
    assert_eq!(found.name, request.name);
    assert_eq!(found.avatar_url, request.avatar_url);
    assert_eq!(found.gravatar_id, request.gravatar_id);
    assert_eq!(found.github_id, request.github_id);
    assert_eq!(found.github_token, request.github_token);
    assert_eq!(found.role, request.role);
    assert_eq!(found.created_at, at(100));
    assert_eq!(found.updated_at, at(100));
}

#[test]
fn the_store_assigns_a_new_identifier_to_every_record() {
    let mut db = Database::new();
    let first = User::create(payload("alice"), &mut db, at(1)).unwrap();
    let second = User::create(payload("bob"), &mut db, at(1)).unwrap();
    assert_eq!(first.id, id(1));
    assert_eq!(second.id, id(2));
    assert_eq!(User::delete(second.id, &mut db), Ok(1));
    let third = User::create(payload("bob"), &mut db, at(1)).unwrap();
    assert_eq!(third.id, id(3));
    assert_eq!(User::create(payload("bob"), &mut db, at(1)), Err(Error::StorageError));
    let fourth = User::create(payload("carol"), &mut db, at(1)).unwrap();
    assert_eq!(fourth.id, id(4));
}

#[test]
fn find_by_id_of_a_missing_user_is_not_found() {
    let mut db = Database::new();
    assert_eq!(User::find_by_id(id(1), &db), Err(Error::NotFound));
    let alice = User::create(payload("alice"), &mut db, at(1)).unwrap();
    assert_eq!(User::find_by_id(id(alice.id.value + 1), &db), Err(Error::NotFound));
}

#[test]
fn find_all_is_ordered_by_creation_time() {
    let mut db = Database::new();
    User::create(payload("late"), &mut db, at(30)).unwrap();
    User::create(payload("early"), &mut db, at(10)).unwrap();
    User::create(payload("middle"), &mut db, at(20)).unwrap();
    User::create(payload("middle2"), &mut db, at(20)).unwrap();
    let names: Vec<String> =
        User::find_all(&db).unwrap().into_iter().map(|u| u.username).collect();
    assert_eq!(names, vec!["early", "middle", "middle2", "late"]);
}

#[test]
fn find_all_of_an_empty_store_is_empty() {
    let db = Database::new();
    assert_eq!(User::find_all(&db), Ok(vec![]));
}

#[test]
fn create_rejects_a_malformed_payload() {
    let mut db = Database::new();
    assert_eq!(User::create(payload(""), &mut db, at(1)), Err(Error::ValidationError));
    let mut guest = payload("ghost");
    guest.role = Role::Guest;
    assert_eq!(User::create(guest, &mut db, at(1)), Err(Error::ValidationError));
    assert_eq!(User::find_all(&db), Ok(vec![]));
}

#[test]
fn create_reports_conflicts_as_storage_errors() {
    let mut db = Database::new();
    let mut first = payload("alice");
    first.github_id = Some(42);
    User::create(first, &mut db, at(1)).unwrap();
    assert_eq!(User::create(payload("alice"), &mut db, at(2)), Err(Error::StorageError));
    let mut same_external = payload("carol");
    same_external.github_id = Some(42);
    assert_eq!(User::create(same_external, &mut db, at(2)), Err(Error::StorageError));
    assert_eq!(User::find_all(&db).unwrap().len(), 1);
    let mut other_external = payload("dave");
    other_external.github_id = Some(43);
    assert!(User::create(other_external, &mut db, at(2)).is_ok());
}

#[test]
fn find_by_github_id_finds_the_user_of_an_external_account() {
    let mut db = Database::new();
    let mut request = payload("alice");
    request.github_id = Some(42);
    let created = User::create(request, &mut db, at(1)).unwrap();
    User::create(payload("bob"), &mut db, at(2)).unwrap();
    assert_eq!(User::find_by_github_id(42, &db), Ok(created));
    assert_eq!(User::find_by_github_id(7, &db), Err(Error::NotFound));
}

#[test]
fn update_replaces_the_mutable_fields_and_keeps_the_rest() {
    let mut db = Database::new();
    let mut request = payload("alice");
    request.github_id = Some(42);
    let alice = User::create(request, &mut db, at(100)).unwrap();
    let change = UserRequest {
        username: "alicia".to_string(),
        email: None,
        password: None,
        name: Some("Alicia".to_string()),
        avatar_url: Some("https://img".to_string()),
        gravatar_id: None,
        github_id: Some(99),
        github_token: None,
        role: Role::Editor,
        created_at: at(5),
        updated_at: at(6),
    };
    let updated = User::update(alice.id, change, &mut db, at(200)).unwrap();
    let found = User::find_by_id(alice.id, &db).unwrap();
    assert_eq!(found, updated);
    assert_eq!(found.username, "alicia");
    assert_eq!(found.email, None);
    assert_eq!(found.password, None);
    assert_eq!(found.name, Some("Alicia".to_string()));
    assert_eq!(found.avatar_url, Some("https://img".to_string()));
    assert_eq!(found.gravatar_id, None);
    assert_eq!(found.github_token, None);
    assert_eq!(found.role, Role::Editor);
    assert_eq!(found.updated_at, at(200));
    assert_eq!(found.id, alice.id);
    assert_eq!(found.github_id, Some(42));
    assert_eq!(found.created_at, at(100));
}

#[test]
fn update_failures() {
    let mut db = Database::new();
    let alice = User::create(payload("alice"), &mut db, at(1)).unwrap();
    let bob = User::create(payload("bob"), &mut db, at(2)).unwrap();
    assert_eq!(User::update(id(99), payload("carol"), &mut db, at(3)), Err(Error::NotFound));
    assert_eq!(User::update(alice.id, payload(""), &mut db, at(3)), Err(Error::ValidationError));
    assert_eq!(User::update(id(99), payload(""), &mut db, at(3)), Err(Error::ValidationError));
    assert_eq!(User::update(alice.id, payload("bob"), &mut db, at(3)), Err(Error::StorageError));
    assert!(User::update(alice.id, payload("alice"), &mut db, at(3)).is_ok());
    assert_eq!(User::find_by_id(bob.id, &db).unwrap().username, "bob");
}

#[test]
fn delete_returns_one_then_zero_and_the_user_is_gone() {
    let mut db = Database::new();
    let alice = User::create(payload("alice"), &mut db, at(1)).unwrap();
    let bob = User::create(payload("bob"), &mut db, at(2)).unwrap();
    assert_eq!(User::delete(alice.id, &mut db), Ok(1));
    assert_eq!(User::delete(alice.id, &mut db), Ok(0));
    assert_eq!(User::find_by_id(alice.id, &db), Err(Error::NotFound));
    assert_eq!(User::find_by_id(bob.id, &db).unwrap().username, "bob");
    assert_eq!(User::delete(id(7), &mut db), Ok(0));
}

#[test]
fn public_shape_holds_every_field_but_the_secrets() {
    let mut db = Database::new();
    let user = User::create(payload("alice"), &mut db, at(1)).unwrap();
    let shown = user.public();
    assert_eq!(shown.id, user.id);
    assert_eq!(shown.username, user.username);
    assert_eq!(shown.email, user.email);
    assert_eq!(shown.name, user.name);
    assert_eq!(shown.avatar_url, user.avatar_url);
    assert_eq!(shown.gravatar_id, user.gravatar_id);
    assert_eq!(shown.github_id, user.github_id);
    assert_eq!(shown.role, user.role);
    assert_eq!(shown.created_at, user.created_at);
    assert_eq!(shown.updated_at, user.updated_at);
    let text = format!("{:?}", shown);
    assert!(!text.contains("password"));
    assert!(!text.contains("github_token"));
    assert!(!text.contains("hash"));
}
