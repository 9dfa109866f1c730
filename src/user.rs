//! User records: roles, validation and construction.

use std::time::SystemTime;
use vstd::prelude::*;
use vstd::string::*;

use crate::clock::{system_now, unix_nanos_now};
use crate::text::{
    contains_char, decimal, decimal_string, is_blank, lemma_decimal_injective,
    lemma_trimmed_empty_iff_blank, lowercase_of, to_lowercase, trim, trimmed,
};

verus! {

/// The kind of identity a user has.
#[derive(Debug, Clone, Copy, PartialEq, Eq, Structural)]
pub enum UserRole {
    User,
    Admin,
    Moderator,
}

/// The label of a role: its variant name.
pub open spec fn role_label(role: UserRole) -> Seq<char> {
    match role {
        UserRole::User => "User"@,
        UserRole::Admin => "Admin"@,
        UserRole::Moderator => "Moderator"@,
    }
}

impl UserRole {
    /// The human-readable label of the role.
    pub fn label(&self) -> (r: &'static str)
        ensures
            r@ == role_label(*self),
    {
        match self {
            UserRole::User => "User",
            UserRole::Admin => "Admin",
            UserRole::Moderator => "Moderator",
        }
    }
}

/// Why a user could not be created.
#[derive(Debug, Clone, PartialEq, Eq)]
pub enum ValidationError {
    /// The name is empty once surrounding whitespace is removed.
    EmptyName,
    /// The email lacks `@` or `.`; it carries the email as it was given.
    InvalidEmail(String),
}

/// The text that describes an error.
pub open spec fn error_message(e: ValidationError) -> Seq<char> {
    match e {
        ValidationError::EmptyName => "Name cannot be empty"@,
        ValidationError::InvalidEmail(email) => "Invalid email format: "@ + email@,
    }
}

impl ValidationError {
    /// A one-line description of the error.
    pub fn message(&self) -> (r: String)
        ensures
            r@ == error_message(*self),
    {
        match self {
            ValidationError::EmptyName => String::from_str("Name cannot be empty"),
            ValidationError::InvalidEmail(email) => {
                let mut m = String::from_str("Invalid email format: ");
                m.append(email.as_str());
                m
            },
        }
    }
}

/// The tag that every user identifier begins with.
pub open spec fn id_prefix() -> Seq<char> {
    "user_"@
}

/// The identifier made from a count of nanoseconds since the epoch.
pub open spec fn user_id(nanos: nat) -> Seq<char> {
    id_prefix() + decimal(nanos)
}

/// `s` is an identifier made from some instant.
pub open spec fn is_user_id(s: Seq<char>) -> bool {
    exists|n: u128| s == user_id(n as nat)
}

/// The weak email check: the text holds an `@` and a `.`, anywhere.
pub open spec fn email_ok(email: Seq<char>) -> bool {
    email.contains('@') && email.contains('.')
}

/// A name and an email from which a user can be made.
pub open spec fn accepts(name: Seq<char>, email: Seq<char>) -> bool {
    !is_blank(name) && email_ok(email)
}

/// `e` is the error owed for a name and an email that are refused: an empty
/// name is reported first, a bad email after it.
pub open spec fn rejection_is(name: Seq<char>, email: Seq<char>, e: ValidationError) -> bool {
    if is_blank(name) {
        e is EmptyName
    } else {
        e matches ValidationError::InvalidEmail(s) && s@ == email
    }
}

/// A user record.
#[derive(Debug, Clone)]
pub struct User {
    pub id: String,
    pub name: String,
    pub email: String,
    pub role: UserRole,
    pub created_at: SystemTime,
    pub is_active: bool,
}

impl User {
    /// The record was made from `name`, `email` and `role`: trimmed name,
    /// lower-cased email, active, with an identifier from some instant.
    pub open spec fn made_from(self, name: Seq<char>, email: Seq<char>, role: UserRole) -> bool {
        &&& self.name@ == trimmed(name)
        &&& self.email@ == lowercase_of(email)
        &&& self.role == role
        &&& self.is_active
        &&& is_user_id(self.id@)
    }

    /// Creates a user after validating the name and then the email.
    pub fn new(name: String, email: String, role: UserRole) -> (r: Result<User, ValidationError>)
        ensures
            match r {
                Ok(u) => accepts(name@, email@) && u.made_from(name@, email@, role),
                Err(e) => !accepts(name@, email@) && rejection_is(name@, email@, e),
            },
    {
        let trimmed_name = trim(name.as_str());
        proof {
            lemma_trimmed_empty_iff_blank(name@);
        }
        if trimmed_name.unicode_len() == 0 {
            return Err(ValidationError::EmptyName);
        }
        if !Self::is_valid_email(email.as_str()) {
            return Err(ValidationError::InvalidEmail(email));
        }
        Ok(User {
            id: Self::generate_id(),
            name: String::from_str(trimmed_name),
            email: to_lowercase(email.as_str()),
            role,
            created_at: system_now(),
            is_active: true,
        })
    }

    /// Whether `email` holds both an `@` and a `.`.
    pub fn is_valid_email(email: &str) -> (r: bool)
        ensures
            r == email_ok(email@),
    {
        contains_char(email, '@') && contains_char(email, '.')
    }

    /// A fresh identifier from the current time in nanoseconds. Two calls
    /// close together in time may give the same identifier.
    pub fn generate_id() -> (r: String)
        ensures
            is_user_id(r@),
    {
        let nanos = unix_nanos_now();
        Self::id_from_nanos(nanos)
    }

    /// The identifier for an instant `nanos` nanoseconds after the epoch.
    pub fn id_from_nanos(nanos: u128) -> (r: String)
        ensures
            r@ == user_id(nanos as nat),
    {
        let mut id = String::from_str("user_");
        let digits = decimal_string(nanos);
        id.append(digits.as_str());
        id
    }
}

/// Identifiers made from distinct instants differ, and every identifier
/// begins with the fixed prefix.
pub proof fn lemma_distinct_instants_distinct_ids(a: nat, b: nat)
    requires
        a != b,
    ensures
        user_id(a) != user_id(b),
        user_id(a).subrange(0, id_prefix().len() as int) == id_prefix(),
{
    let k = id_prefix().len() as int;
    lemma_decimal_injective(a, b);
    if user_id(a) == user_id(b) {
        assert(decimal(a) =~= user_id(a).subrange(k, user_id(a).len() as int));
        assert(decimal(b) =~= user_id(b).subrange(k, user_id(b).len() as int));
    }
    assert(user_id(a).subrange(0, k) =~= id_prefix());
}

} // verus!
