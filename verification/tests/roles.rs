use minipress::models::role::Role;

const ALL: [Role; 7] = [
    Role::SuperAdmin,
    Role::Admin,
    Role::Editor,
    Role::Author,
    Role::Contributor,
    Role::Subscriber,
    Role::Guest,
];

#[test]
fn role_ordinals_are_one_to_seven() {
    assert_eq!(Role::SuperAdmin.ordinal(), 1);
    assert_eq!(Role::Admin.ordinal(), 2);
    assert_eq!(Role::Editor.ordinal(), 3);
    assert_eq!(Role::Author.ordinal(), 4);
    assert_eq!(Role::Contributor.ordinal(), 5);
    assert_eq!(Role::Subscriber.ordinal(), 6);
    assert_eq!(Role::Guest.ordinal(), 7);
}

#[test]
fn role_ordinal_round_trip() {
    for role in ALL {
        assert_eq!(Role::from_ordinal(role.ordinal()), Some(role));
    }
    assert_eq!(Role::from_ordinal(0), None);
    assert_eq!(Role::from_ordinal(8), None);
    assert_eq!(Role::from_ordinal(-1), None);
    assert_eq!(Role::from_ordinal(i16::MAX), None);
}

#[test]
fn role_slugs() {
    assert_eq!(Role::SuperAdmin.slug(), "super-admin");
    assert_eq!(Role::Admin.slug(), "admin");
    assert_eq!(Role::Editor.slug(), "editor");
    assert_eq!(Role::Author.slug(), "author");
    assert_eq!(Role::Contributor.slug(), "contributor");
    assert_eq!(Role::Subscriber.slug(), "subscriber");
    assert_eq!(Role::Guest.slug(), "guest");
}

#[test]
fn role_slug_round_trip() {
    for role in ALL {
        assert_eq!(Role::from_slug(role.slug()), role);
    }
}

#[test]
fn unknown_role_slug_is_guest() {
    assert_eq!(Role::from_slug(""), Role::Guest);
    assert_eq!(Role::from_slug("Admin"), Role::Guest);
    assert_eq!(Role::from_slug("super_admin"), Role::Guest);
    assert_eq!(Role::from_slug("root"), Role::Guest);
}

#[test]
fn authors_and_above_may_create_posts() {
    assert!(Role::SuperAdmin.can_create_posts());
    assert!(Role::Admin.can_create_posts());
    assert!(Role::Editor.can_create_posts());
    assert!(Role::Author.can_create_posts());
    assert!(!Role::Contributor.can_create_posts());
    assert!(!Role::Subscriber.can_create_posts());
    assert!(!Role::Guest.can_create_posts());
}

#[test]
fn guest_is_never_stored() {
    for role in ALL {
        assert_eq!(role.can_be_stored(), role != Role::Guest);
    }
}
