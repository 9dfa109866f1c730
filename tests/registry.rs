use user_registry::{contains_char, unix_nanos_now, ManagerConfig, User, UserManager, UserRole, ValidationError};

fn s(t: &str) -> String {
    t.to_string()
}

#[test]
fn end_to_end_three_users() {
    let mut m = UserManager::new();
    assert_eq!(m.add_user(s("John Doe"), s("john@example.com"), UserRole::Admin), Ok(()));
    assert_eq!(m.add_user(s("Jane Smith"), s("jane@example.com"), UserRole::User), Ok(()));
    assert_eq!(m.add_user(s("Bob Wilson"), s("bob@example.com"), UserRole::Moderator), Ok(()));
    assert_eq!(m.user_count(), 3);
    let admins = m.get_users_by_role(&UserRole::Admin);
    assert_eq!(admins.len(), 1);
    assert_eq!(admins[0].name, "John Doe");
    assert_eq!(admins[0].email, "john@example.com");
    assert_eq!(admins[0].role, UserRole::Admin);
    assert!(admins[0].is_active);
}

#[test]
fn empty_name_leaves_count_unchanged() {
    let mut m = UserManager::new();
    assert_eq!(m.add_user(s(""), s("x@y.com"), UserRole::User), Err(ValidationError::EmptyName));
    assert_eq!(m.user_count(), 0);
}

#[test]
fn invalid_email_leaves_count_unchanged() {
    let mut m = UserManager::new();
    m.add_user(s("A"), s("a@b.c"), UserRole::User).unwrap();
    assert_eq!(
        m.add_user(s("X"), s("not-an-email"), UserRole::User),
        Err(ValidationError::InvalidEmail(s("not-an-email")))
    );
    assert_eq!(m.user_count(), 1);
}

#[test]
fn blank_names_are_refused() {
    for name in ["", " ", "   ", "\t\n", "\u{3000}\u{a0}\u{2009}"] {
        assert_eq!(User::new(s(name), s("a@b.c"), UserRole::User).unwrap_err(), ValidationError::EmptyName);
    }
}

#[test]
fn empty_name_is_reported_before_bad_email() {
    assert_eq!(User::new(s("  "), s("bad"), UserRole::Admin).unwrap_err(), ValidationError::EmptyName);
}

#[test]
fn name_is_trimmed() {
    let u = User::new(s("  Alice Smith \t"), s("a@b.c"), UserRole::User).unwrap();
    assert_eq!(u.name, "Alice Smith");
    let u = User::new(s("\u{3000}Bob\u{a0}"), s("a@b.c"), UserRole::User).unwrap();
    assert_eq!(u.name, "Bob");
}

#[test]
fn emails_without_at_or_dot_are_refused() {
    for email in ["Foo.COM", "foo@bar", "FooBar", ""] {
        assert_eq!(
            User::new(s("Name"), s(email), UserRole::User).unwrap_err(),
            ValidationError::InvalidEmail(s(email))
        );
    }
}

#[test]
fn email_is_lowercased() {
    let u = User::new(s("Name"), s("John.Doe@Example.COM"), UserRole::User).unwrap();
    assert_eq!(u.email, "john.doe@example.com");
    let u = User::new(s("Name"), s(".@"), UserRole::User).unwrap();
    assert_eq!(u.email, ".@");
}

#[test]
fn new_user_is_active_with_given_role() {
    let u = User::new(s("Name"), s("n@m.io"), UserRole::Moderator).unwrap();
    assert!(u.is_active);
    assert_eq!(u.role, UserRole::Moderator);
    assert!(u.id.starts_with("user_"));
}

#[test]
fn email_check() {
    assert!(User::is_valid_email("a@b.c"));
    assert!(User::is_valid_email(".@"));
    assert!(!User::is_valid_email("a@b"));
    assert!(!User::is_valid_email("a.b"));
    assert!(!User::is_valid_email(""));
    assert!(contains_char("héllo@", '@'));
    assert!(!contains_char("hello", '@'));
}

#[test]
fn id_from_nanos_is_prefixed_decimal() {
    assert_eq!(User::id_from_nanos(0), "user_0");
    assert_eq!(User::id_from_nanos(1234567890), "user_1234567890");
    assert_eq!(User::id_from_nanos(u128::MAX), format!("user_{}", u128::MAX));
    assert_ne!(User::id_from_nanos(10), User::id_from_nanos(100));
}

#[test]
fn generated_id_is_prefixed_time() {
    let before = unix_nanos_now();
    let id = User::generate_id();
    let after = unix_nanos_now();
    let digits = id.strip_prefix("user_").unwrap();
    let n: u128 = digits.parse().unwrap();
    assert!(before <= n && n <= after);
}

#[test]
fn users_by_role_in_insertion_order() {
    let mut m = UserManager::new();
    m.add_user(s("A1"), s("a1@x.y"), UserRole::Admin).unwrap();
    m.add_user(s("U1"), s("u1@x.y"), UserRole::User).unwrap();
    m.add_user(s("A2"), s("a2@x.y"), UserRole::Admin).unwrap();
    m.add_user(s("A3"), s("a3@x.y"), UserRole::Admin).unwrap();
    let admins: Vec<&str> = m.get_users_by_role(&UserRole::Admin).iter().map(|u| u.name.as_str()).collect();
    assert_eq!(admins, vec!["A1", "A2", "A3"]);
    let users = m.get_users_by_role(&UserRole::User);
    assert_eq!(users.len(), 1);
    assert_eq!(users[0].name, "U1");
    assert!(m.get_users_by_role(&UserRole::Moderator).is_empty());
}

#[test]
fn empty_manager_has_no_users() {
    let m = UserManager::new();
    assert_eq!(m.user_count(), 0);
    assert!(m.get_users_by_role(&UserRole::User).is_empty());
}

#[test]
fn count_includes_duplicates_and_skips_failures() {
    let mut m = UserManager::new();
    m.add_user(s("Same"), s("same@x.y"), UserRole::User).unwrap();
    m.add_user(s("Same"), s("same@x.y"), UserRole::User).unwrap();
    assert!(m.add_user(s(" "), s("same@x.y"), UserRole::User).is_err());
    assert!(m.add_user(s("Same"), s("nope"), UserRole::User).is_err());
    assert_eq!(m.user_count(), 2);
    assert_eq!(m.users().len(), 2);
    assert_eq!(m.users()[1].email, "same@x.y");
    assert_eq!(m.get_users_by_role(&UserRole::User).len(), 2);
}

#[test]
fn default_config() {
    let m = UserManager::new();
    assert_eq!(*m.config(), ManagerConfig { max_users: 1000, enable_logging: true });
    assert!(m.logging_enabled());
    assert_eq!(ManagerConfig::default(), *m.config());
}

#[test]
fn role_labels() {
    assert_eq!(UserRole::User.label(), "User");
    assert_eq!(UserRole::Admin.label(), "Admin");
    assert_eq!(UserRole::Moderator.label(), "Moderator");
}

#[test]
fn error_messages() {
    assert_eq!(ValidationError::EmptyName.message(), "Name cannot be empty");
    assert_eq!(
        ValidationError::InvalidEmail(s("Not-An-Email")).message(),
        "Invalid email format: Not-An-Email"
    );
}
