use vstd::prelude::*;

use crate::policy::{
    create_result, exists_in, reset_result, revealable_in, set_result, timestamp_result,
    value_result, Secrets,
};
use crate::types::{Error, Request, Revelation, RevelationSet};
use crate::vigil::{call_result, ResponseView};

verus! {

/// Deleting a secret twice answers empty both times, and afterwards no record of it
/// remains.
pub proof fn lemma_delete_idempotent(m: Secrets, caller: Seq<u8>, now: u64, name: String)
    ensures
        ({
            let request = Request::DeleteSecret { name };
            let (m1, r1) = call_result(m, caller, now, request);
            let (m2, r2) = call_result(m1, caller, now, request);
            &&& r1 == Ok::<ResponseView, Error>(ResponseView::Empty)
            &&& r2 == Ok::<ResponseView, Error>(ResponseView::Empty)
            &&& m2 == m1
            &&& !exists_in(m2, (caller, name@))
        }),
{
    let (m1, r1) = call_result(m, caller, now, Request::DeleteSecret { name });
    assert(m1.remove((caller, name@)) =~= m1);
}

/// After a secret is deleted, its owner can create it again.
pub proof fn lemma_recreate_after_delete(
    m: Secrets,
    caller: Seq<u8>,
    now: u64,
    name: String,
    value: Vec<u8>,
    revelation_set: RevelationSet,
    revelation_timestamp: u64,
)
    ensures
        ({
            let (m1, r1) = call_result(m, caller, now, Request::DeleteSecret { name });
            let (m2, r2) = call_result(
                m1,
                caller,
                now,
                Request::CreateSecret { name, value, revelation_set, revelation_timestamp },
            );
            &&& r2 == Ok::<ResponseView, Error>(ResponseView::Empty)
            &&& exists_in(m2, (caller, name@))
            &&& m2[(caller, name@)].value == value@
        }),
{
}

/// Creating a secret a second time, without deleting it in between, fails with
/// `SecretAlreadyExists` and changes nothing.
pub proof fn lemma_no_duplicate_creation(
    m: Secrets,
    caller: Seq<u8>,
    name: Seq<char>,
    value: Seq<u8>,
    revelation_set: Revelation,
    revelation_timestamp: u64,
    value2: Seq<u8>,
    revelation_set2: Revelation,
    revelation_timestamp2: u64,
)
    ensures
        ({
            let (m1, r1) = create_result(
                m,
                caller,
                name,
                value,
                revelation_set,
                revelation_timestamp,
            );
            create_result(m1, caller, name, value2, revelation_set2, revelation_timestamp2) == (
                m1,
                Err::<(), Error>(Error::SecretAlreadyExists),
            )
        }),
{
}

/// The owner's three reads succeed exactly when the secret exists, whatever its
/// revelation time and the current time.
pub proof fn lemma_owner_omniscience(m: Secrets, owner: Seq<u8>, name: Seq<char>, now: u64)
    ensures
        timestamp_result(m, owner, owner, name).is_ok() == exists_in(m, (owner, name)),
        set_result(m, owner, name).is_ok() == exists_in(m, (owner, name)),
        value_result(m, owner, owner, name, now).is_ok() == exists_in(m, (owner, name)),
{
}

/// A caller that is neither the owner nor a member of the revelation set never
/// receives the value or the revelation time.
pub proof fn lemma_non_member_denied(
    m: Secrets,
    caller: Seq<u8>,
    owner: Seq<u8>,
    name: Seq<char>,
    now: u64,
)
    requires
        caller != owner,
        !revealable_in(m, (owner, name), caller),
    ensures
        timestamp_result(m, caller, owner, name) == Err::<u64, Error>(Error::PermissionDenied),
        value_result(m, caller, owner, name, now) == Err::<Seq<u8>, Error>(
            Error::SecretDoesntExist,
        ),
{
}

/// A secret revealed to anyone admits every caller as a member, and its value is
/// still held back until the revelation time.
pub proof fn lemma_anyone_admits_all(
    m: Secrets,
    caller: Seq<u8>,
    owner: Seq<u8>,
    name: Seq<char>,
    now: u64,
)
    requires
        exists_in(m, (owner, name)),
        m[(owner, name)].revelation_set == Revelation::Anyone,
        caller != owner,
    ensures
        revealable_in(m, (owner, name), caller),
        timestamp_result(m, caller, owner, name) == Ok::<u64, Error>(
            m[(owner, name)].revelation_timestamp,
        ),
        value_result(m, caller, owner, name, now) == (if now < m[(
            owner,
            name,
        )].revelation_timestamp {
            Err::<Seq<u8>, Error>(Error::PermissionDenied)
        } else {
            Ok(m[(owner, name)].value)
        }),
{
}

/// A member who is not the owner is refused the value with `PermissionDenied`
/// before the revelation time, and receives it from then on.
pub proof fn lemma_time_gate(m: Secrets, caller: Seq<u8>, owner: Seq<u8>, name: Seq<char>, now: u64)
    requires
        caller != owner,
        revealable_in(m, (owner, name), caller),
    ensures
        now < m[(owner, name)].revelation_timestamp ==> value_result(m, caller, owner, name, now)
            == Err::<Seq<u8>, Error>(Error::PermissionDenied),
        now >= m[(owner, name)].revelation_timestamp ==> value_result(
            m,
            caller,
            owner,
            name,
            now,
        ) == Ok::<Seq<u8>, Error>(m[(owner, name)].value),
{
}

/// Moving the revelation time changes only that time: the revelation set and the
/// value read afterwards, and every other secret, are as before.
pub proof fn lemma_reset_isolation(
    m: Secrets,
    caller: Seq<u8>,
    name: Seq<char>,
    revelation_timestamp: u64,
    now: u64,
)
    ensures
        ({
            let (m1, r) = reset_result(m, caller, name, revelation_timestamp);
            &&& set_result(m1, caller, name) == set_result(m, caller, name)
            &&& value_result(m1, caller, caller, name, now) == value_result(
                m,
                caller,
                caller,
                name,
                now,
            )
            &&& exists_in(m1, (caller, name)) == exists_in(m, (caller, name))
            &&& forall|k| k != (caller, name) ==> (#[trigger] m1.contains_key(k)
                == m.contains_key(k) && (m.contains_key(k) ==> m1[k] == m[k]))
            &&& r is Ok ==> m1[(caller, name)].revelation_timestamp == revelation_timestamp
        }),
{
}

} // verus!
