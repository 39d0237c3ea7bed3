//! A dead-man's switch: an owner deposits a secret with a deadline and a set of
//! beneficiaries; once the deadline passes without a refresh, the secret becomes
//! readable by those beneficiaries.
mod address;
mod laws;
mod policy;
mod store;
mod types;
mod vigil;

pub use address::{Address, ADDRESS_SIZE};
pub use laws::{
    lemma_anyone_admits_all, lemma_delete_idempotent, lemma_no_duplicate_creation,
    lemma_non_member_denied, lemma_owner_omniscience, lemma_recreate_after_delete,
    lemma_reset_isolation, lemma_time_gate,
};
pub use policy::{
    create_result, delete_result, exists_in, reset_result, revealable_in, secret_exists,
    secret_is_revealable_to, set_result, timestamp_result, value_result, Secrets,
};
pub use store::{secret_key, SecretKey, SecretState, Store};
pub use types::{address_views, Error, Request, Response, Revelation, RevelationSet};
pub use vigil::{call_result, respond, viewed, Context, ResponseView, Vigil};
