//! An in-memory registry of users: validated user records with roles, and a
//! manager that keeps them in insertion order and answers queries by role.

mod clock;
mod manager;
mod text;
mod user;

pub use clock::unix_nanos_now;
pub use text::{
    contains_char, decimal, digit_char, is_blank, is_white_space, lemma_decimal_injective,
    lemma_trimmed_empty_iff_blank, lowercase_of, trim_end, trim_start, trimmed,
};
pub use user::{
    accepts, email_ok, error_message, id_prefix, is_user_id, lemma_distinct_instants_distinct_ids,
    rejection_is, role_label, user_id, User, UserRole, ValidationError,
};
pub use manager::{
    lemma_users_with_role_after_add, lemma_users_with_role_members, users_with_role,
    ManagerConfig, UserManager,
};
