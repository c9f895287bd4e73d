//! A registry of project records guarded by two roles: an owner, who adds and
//! rewrites records, and an admin, who verifies and removes them.
mod account;
mod lemmas;
mod project;
mod registry;

pub use account::{is_account_char, is_separator, valid_account_id, AccountId};
pub use lemmas::{
    after_adds, lemma_adds_keep_order, lemma_only_admin_verifies_or_removes,
    lemma_only_owner_writes, lemma_remove_shifts, lemma_update_touches_one,
    lemma_verify_all_or_nothing, lemma_verify_twice,
};
pub use project::{tags_view, Project, ProjectView};
pub use registry::{ProjectRegistry, RegistryError, RegistryView, DEFAULT_ACCOUNT};
