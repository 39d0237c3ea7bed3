use vstd::prelude::*;

use crate::address::Address;
use crate::store::{secret_key, SecretKey, SecretState, Store};
use crate::types::{Error, Revelation};

verus! {

/// The contents of a store: each stored identifier with its secret.
pub type Secrets = Map<SecretKey, SecretState>;

/// A secret exists exactly when a record, and so its revelation time, is stored for it.
pub open spec fn exists_in(m: Secrets, k: SecretKey) -> bool {
    m.contains_key(k)
}

/// A secret may be revealed to `entity` when it is stored and its revelation set
/// admits `entity`.
pub open spec fn revealable_in(m: Secrets, k: SecretKey, entity: Seq<u8>) -> bool {
    m.contains_key(k) && m[k].revelation_set.admits(entity)
}

/// The store and outcome after `caller` asks to create the secret `name`.
pub open spec fn create_result(
    m: Secrets,
    caller: Seq<u8>,
    name: Seq<char>,
    value: Seq<u8>,
    revelation_set: Revelation,
    revelation_timestamp: u64,
) -> (Secrets, Result<(), Error>) {
    let k = (caller, name);
    if exists_in(m, k) {
        (m, Err(Error::SecretAlreadyExists))
    } else {
        (m.insert(k, SecretState { value, revelation_set, revelation_timestamp }), Ok(()))
    }
}

/// The store and outcome after `caller` asks to move the revelation time of `name`.
pub open spec fn reset_result(
    m: Secrets,
    caller: Seq<u8>,
    name: Seq<char>,
    revelation_timestamp: u64,
) -> (Secrets, Result<(), Error>) {
    let k = (caller, name);
    if !exists_in(m, k) {
        (m, Err(Error::SecretDoesntExist))
    } else {
        (m.insert(k, SecretState { revelation_timestamp, ..m[k] }), Ok(()))
    }
}

/// The store after `caller` deletes `name`; deletion never fails.
pub open spec fn delete_result(m: Secrets, caller: Seq<u8>, name: Seq<char>) -> Secrets {
    m.remove((caller, name))
}

/// What `caller` learns when asking for the revelation time of `owner`'s secret `name`.
///
/// A caller outside the revelation set is told `PermissionDenied`. The two reads of
/// another owner's secret deliberately answer non-membership differently: here the
/// caller learns that it may not ask, while a value read answers `SecretDoesntExist`
/// (see [`value_result`]), so that an outsider never learns whether a value is stored.
pub open spec fn timestamp_result(m: Secrets, caller: Seq<u8>, owner: Seq<u8>, name: Seq<char>) -> Result<
    u64,
    Error,
> {
    let k = (owner, name);
    if caller != owner && !revealable_in(m, k, caller) {
        Err(Error::PermissionDenied)
    } else if exists_in(m, k) {
        Ok(m[k].revelation_timestamp)
    } else {
        Err(Error::SecretDoesntExist)
    }
}

/// What `caller` learns when asking for the revelation set of its own secret `name`.
/// This read is scoped to the caller's own secrets: there is no owner to name.
pub open spec fn set_result(m: Secrets, caller: Seq<u8>, name: Seq<char>) -> Result<Revelation, Error> {
    let k = (caller, name);
    if exists_in(m, k) {
        Ok(m[k].revelation_set)
    } else {
        Err(Error::SecretDoesntExist)
    }
}

/// What `caller` learns when asking, at time `now`, for the value of `owner`'s secret `name`.
///
/// The owner reads it at any time. A caller outside the revelation set is told
/// `SecretDoesntExist`; a member is told `PermissionDenied` until the revelation
/// time, and also when no revelation time is stored.
pub open spec fn value_result(
    m: Secrets,
    caller: Seq<u8>,
    owner: Seq<u8>,
    name: Seq<char>,
    now: u64,
) -> Result<Seq<u8>, Error> {
    let k = (owner, name);
    if caller == owner {
        if exists_in(m, k) {
            Ok(m[k].value)
        } else {
            Err(Error::SecretDoesntExist)
        }
    } else if !revealable_in(m, k, caller) {
        Err(Error::SecretDoesntExist)
    } else if !exists_in(m, k) || m[k].revelation_timestamp > now {
        Err(Error::PermissionDenied)
    } else {
        Ok(m[k].value)
    }
}

/// Whether the secret `name` of `owner` exists.
pub fn secret_exists(store: &Store, owner: &Address, name: &String) -> (r: bool)
    ensures
        r == exists_in(store@, secret_key(*owner, name@)),
{
    store.contains(owner, name)
}

/// Whether the secret `name` of `owner` may be revealed to `entity`: its revelation
/// set is stored and admits `entity`.
pub fn secret_is_revealable_to(store: &Store, owner: &Address, name: &String, entity: &Address) -> (r:
    bool)
    ensures
        r == revealable_in(store@, secret_key(*owner, name@), entity@),
{
    match store.revelation_set(owner, name) {
        Some(rev_set) => rev_set.contains(entity),
        None => false,
    }
}

} // verus!
