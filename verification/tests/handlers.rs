use minipress::handlers::index_handler;
use minipress::handlers::post_handlers;
use minipress::handlers::user_handlers;
use minipress::handlers::{Body, HttpResponse};
use minipress::models::post::{Post, PostRequest};
use minipress::models::{Role, Timestamp, User, UserRequest, Uuid};
use minipress::{Database, Error, Identity};

const ALICE: &str = "550e8400-e29b-41d4-a716-446655440000";
const ALICE_VALUE: u128 = 0x550e8400_e29b_41d4_a716_446655440000;
const MISSING: &str = "00000000-0000-0000-0000-0000000000ff";

/// The identifier in the notation without hyphens.
fn path(id: Uuid) -> String {
    format!("{:032x}", id.value)
}

fn at(seconds: i128) -> Timestamp {
    Timestamp { nanos: seconds * 1_000_000_000 }
}

fn id(value: u128) -> Uuid {
    Uuid { value }
}

fn user_payload(username: &str, role: Role) -> UserRequest {
    UserRequest {
        username: username.to_string(),
        email: None,
        password: Some("secret-hash".to_string()),
        name: None,
        avatar_url: None,
        gravatar_id: None,
        github_id: None,
        github_token: Some("secret-token".to_string()),
        role,
        created_at: at(0),
        updated_at: at(0),
    }
}

fn post_payload(title: &str, content: &str) -> PostRequest {
    PostRequest { title: title.to_string(), content: content.to_string() }
}

fn text(status: u16, message: &str) -> HttpResponse {
    HttpResponse { status, location: None, body: Body::Text(message.to_string()) }
}

fn logged_in(db: &mut Database, role: Role) -> Identity {
    let user = User::create(user_payload("someone", role), db, at(1)).unwrap();
    let mut identity = Identity::anonymous();
    identity.remember(user);
    identity
}

#[test]
fn error_statuses() {
    assert_eq!(Error::ValidationError.status(), 400);
    assert_eq!(Error::NotFound.status(), 400);
    assert_eq!(Error::Unauthorized.status(), 401);
    assert_eq!(Error::ExchangeError.status(), 400);
    assert_eq!(Error::ProfileFetchError.status(), 500);
    assert_eq!(Error::StorageError.status(), 500);
}

#[test]
fn uuid_texts_are_parsed_in_every_notation() {
    assert_eq!(Uuid::parse_str(ALICE), Ok(id(ALICE_VALUE)));
    assert_eq!(Uuid::parse_str("550e8400e29b41d4a716446655440000"), Ok(id(ALICE_VALUE)));
    assert_eq!(
        Uuid::parse_str("urn:uuid:550e8400-e29b-41d4-a716-446655440000"),
        Ok(id(ALICE_VALUE))
    );
    assert_eq!(
        Uuid::parse_str("{550E8400-E29B-41D4-A716-446655440000}"),
        Ok(id(ALICE_VALUE))
    );
    assert_eq!(Uuid::parse_str("00000000-0000-0000-0000-000000000001"), Ok(id(1)));
    assert_eq!(Uuid::parse_str(""), Err(Error::ValidationError));
    assert_eq!(Uuid::parse_str("not-a-uuid"), Err(Error::ValidationError));
    assert_eq!(
        Uuid::parse_str("550e8400-e29b-41d4-a716-44665544000g"),
        Err(Error::ValidationError)
    );
    assert_eq!(Uuid::from_parsed(Some(5)), Ok(id(5)));
    assert_eq!(Uuid::from_parsed(None), Err(Error::ValidationError));
}

#[test]
fn user_routes_answer_with_the_public_shape() {
    let mut db = Database::new();
    let created = user_handlers::create(user_payload("alice", Role::Author), &mut db, at(5));
    let stored = User::find_all(&db).unwrap().remove(0);
    assert_eq!(
        created,
        HttpResponse { status: 200, location: None, body: Body::User(stored.public()) }
    );
    assert_eq!(user_handlers::find(&path(stored.id), &db), created);
    assert_eq!(
        user_handlers::find_all(&db),
        HttpResponse { status: 200, location: None, body: Body::Users(vec![stored.public()]) }
    );
    let shown = format!("{:?}", created);
    assert!(!shown.contains("secret-hash"));
    assert!(!shown.contains("secret-token"));
}

#[test]
fn user_routes_report_failures() {
    let mut db = Database::new();
    assert_eq!(user_handlers::find("nonsense", &db), text(400, "Invalid User ID"));
    assert_eq!(user_handlers::find(ALICE, &db), text(400, "User not found"));
    assert_eq!(
        user_handlers::create(user_payload("", Role::Author), &mut db, at(1)),
        text(400, "Error trying to create new user")
    );
    user_handlers::create(user_payload("alice", Role::Author), &mut db, at(1));
    assert_eq!(
        user_handlers::create(user_payload("alice", Role::Author), &mut db, at(1)),
        text(500, "Error trying to create new user")
    );
    assert_eq!(
        user_handlers::update("nonsense", user_payload("bob", Role::Author), &mut db, at(2)),
        text(400, "Invalid User ID")
    );
    assert_eq!(
        user_handlers::update(ALICE, user_payload("bob", Role::Author), &mut db, at(2)),
        text(400, "User not found")
    );
    assert_eq!(user_handlers::delete("nonsense", &mut db), text(400, "Invalid User ID"));
    assert_eq!(user_handlers::delete(ALICE, &mut db), text(400, "User not found"));
    assert_eq!(User::find_all(&db).unwrap().len(), 1);
}

#[test]
fn user_update_and_delete_routes() {
    let mut db = Database::new();
    user_handlers::create(user_payload("alice", Role::Author), &mut db, at(5));
    let alice = path(User::find_all(&db).unwrap()[0].id);
    let updated =
        user_handlers::update(&alice, user_payload("alicia", Role::Editor), &mut db, at(9));
    let stored = User::find_all(&db).unwrap().remove(0);
    assert_eq!(stored.username, "alicia");
    assert_eq!(stored.role, Role::Editor);
    assert_eq!(stored.updated_at, at(9));
    assert_eq!(
        updated,
        HttpResponse { status: 200, location: None, body: Body::User(stored.public()) }
    );
    assert_eq!(
        user_handlers::delete(&alice, &mut db),
        text(200, "Successfully deleted 1 record(s)")
    );
    assert_eq!(user_handlers::delete(&alice, &mut db), text(400, "User not found"));
    assert_eq!(user_handlers::find(&alice, &db), text(400, "User not found"));
}

#[test]
fn deletion_answers_for_every_count() {
    assert_eq!(
        user_handlers::respond_deleted(Ok(12), "gone"),
        text(200, "Successfully deleted 12 record(s)")
    );
    assert_eq!(user_handlers::respond_deleted(Ok(0), "gone"), text(400, "gone"));
    assert_eq!(user_handlers::respond_deleted(Err(Error::StorageError), "gone"), text(500, "gone"));
    assert_eq!(
        user_handlers::respond_listed(Err(Error::StorageError)),
        text(500, "Error trying to read all users from database")
    );
    assert_eq!(
        post_handlers::respond_listed(Err(Error::StorageError)),
        text(500, "Error trying to read all posts from database")
    );
}

#[test]
fn role_gate_rejects_readers_and_guests() {
    for role in [Role::Contributor, Role::Subscriber, Role::Guest] {
        let mut db = Database::new();
        let mut identity = Identity::anonymous();
        identity.user = Some(User {
            id: id(5),
            username: "reader".to_string(),
            email: None,
            password: None,
            name: None,
            avatar_url: None,
            gravatar_id: None,
            github_id: None,
            github_token: None,
            role,
            created_at: at(0),
            updated_at: at(0),
        });
        let response = post_handlers::create(post_payload("T", "text"), &mut db, &identity, at(1));
        assert_eq!(response, text(401, "Unauthorized"));
        assert_eq!(Post::find_all(&db), Ok(vec![]));
        assert_eq!(post_handlers::authorize_author(&identity), Err(Error::Unauthorized));
    }
}

#[test]
fn role_gate_rejects_requests_without_identity() {
    let mut db = Database::new();
    let response =
        post_handlers::create(post_payload("T", "text"), &mut db, &Identity::anonymous(), at(1));
    assert_eq!(response, text(401, "Unauthorized"));
    assert_eq!(Post::find_all(&db), Ok(vec![]));
}

#[test]
fn role_gate_lets_authors_and_above_create() {
    for role in [Role::Author, Role::Editor, Role::Admin, Role::SuperAdmin] {
        let mut db = Database::new();
        let identity = logged_in(&mut db, role);
        let response = post_handlers::create(
            post_payload("Hello World", "some text"),
            &mut db,
            &identity,
            at(1),
        );
        let stored = Post::find_all(&db).unwrap().remove(0);
        assert_eq!(Some(stored.user_id), identity.current().map(|u| u.id));
        assert_eq!(stored.title, "Hello World");
        assert_eq!(stored.slug, "hello-world");
        assert_eq!(response, HttpResponse { status: 200, location: None, body: Body::Post(stored) });
    }
}

#[test]
fn post_routes() {
    let mut db = Database::new();
    let identity = logged_in(&mut db, Role::Author);
    post_handlers::create(post_payload("Hello", "a b c"), &mut db, &identity, at(1));
    let stored = Post::find_all(&db).unwrap().remove(0);
    let hello = path(stored.id);
    assert_eq!(
        post_handlers::find(&hello, &db),
        HttpResponse { status: 200, location: None, body: Body::Post(stored.clone()) }
    );
    assert_eq!(
        post_handlers::find_all(&db),
        HttpResponse { status: 200, location: None, body: Body::Posts(vec![stored]) }
    );
    let updated = post_handlers::update(&hello, post_payload("Bye", "d e"), &mut db, at(4));
    let stored = Post::find_all(&db).unwrap().remove(0);
    assert_eq!(stored.slug, "hello");
    assert_eq!(stored.title, "Bye");
    assert_eq!(stored.excerpt, "d e");
    assert_eq!(updated, HttpResponse { status: 200, location: None, body: Body::Post(stored) });
    let untitled = post_handlers::update(&hello, post_payload("", "f"), &mut db, at(5));
    let stored = Post::find_all(&db).unwrap().remove(0);
    assert_eq!(stored.title, "");
    assert_eq!(stored.slug, "hello");
    assert_eq!(untitled, HttpResponse { status: 200, location: None, body: Body::Post(stored) });
    assert_eq!(
        post_handlers::delete(&hello, &mut db),
        text(200, "Successfully deleted 1 record(s)")
    );
    assert_eq!(post_handlers::delete(&hello, &mut db), text(400, "Post not found"));
}

#[test]
fn post_routes_report_failures() {
    let mut db = Database::new();
    assert_eq!(post_handlers::find("nonsense", &db), text(400, "Invalid Post ID"));
    assert_eq!(post_handlers::find(MISSING, &db), text(400, "Post not found"));
    assert_eq!(
        post_handlers::update("nonsense", post_payload("T", "x"), &mut db, at(1)),
        text(400, "Invalid Post ID")
    );
    assert_eq!(
        post_handlers::update(MISSING, post_payload("T", "x"), &mut db, at(1)),
        text(400, "Post not found")
    );
    assert_eq!(post_handlers::delete("nonsense", &mut db), text(400, "Invalid Post ID"));
    assert_eq!(post_handlers::delete(MISSING, &mut db), text(400, "Post not found"));
}

#[test]
fn a_post_of_a_user_the_store_does_not_hold_is_refused() {
    let identity = logged_in(&mut Database::new(), Role::Admin);
    let mut db = Database::new();
    assert_eq!(
        post_handlers::create(post_payload("T", "x"), &mut db, &identity, at(1)),
        text(500, "Error trying to create new post")
    );
    assert_eq!(Post::find_all(&db), Ok(vec![]));
}

#[test]
fn deleting_a_user_through_its_route_removes_its_posts() {
    let mut db = Database::new();
    let identity = logged_in(&mut db, Role::Author);
    post_handlers::create(post_payload("T", "x"), &mut db, &identity, at(1));
    assert_eq!(Post::find_all(&db).unwrap().len(), 1);
    let owner = path(identity.current().unwrap().id);
    assert_eq!(
        user_handlers::delete(&owner, &mut db),
        text(200, "Successfully deleted 1 record(s)")
    );
    assert_eq!(Post::find_all(&db), Ok(vec![]));
    assert_eq!(User::find_all(&db), Ok(vec![]));
}

#[test]
fn index_shows_the_login_state() {
    let anonymous = index_handler::index(&Identity::anonymous());
    assert_eq!(anonymous.user_name, "");
    assert_eq!(anonymous.user, None);
    let identity = logged_in(&mut Database::new(), Role::Subscriber);
    let context = index_handler::index(&identity);
    assert_eq!(context.user_name, "someone");
    assert_eq!(context.user, identity.current().map(|u| u.public()));
}
