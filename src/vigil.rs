use vstd::prelude::*;

use crate::address::Address;
use crate::policy::{
    create_result, reset_result, secret_exists, secret_is_revealable_to, set_result,
    timestamp_result, value_result, delete_result, Secrets,
};
use crate::store::{secret_key, Store};
use crate::types::{Error, Request, Response, Revelation, RevelationSet};

verus! {

/// What a request runs against: the authenticated caller, the current time and the
/// confidential store of secrets.
pub struct Context {
    /// The identity of whoever sent the request.
    pub caller_address: Address,
    /// The current time, read only when a member asks for a secret's value.
    pub block_timestamp: u64,
    /// The secrets.
    pub store: Store,
}

impl Context {
    /// A context with an empty store.
    pub fn new(caller_address: Address, block_timestamp: u64) -> (r: Context)
        ensures
            r.caller_address == caller_address,
            r.block_timestamp == block_timestamp,
            r.store@ == Secrets::empty(),
    {
        Context { caller_address, block_timestamp, store: Store::new() }
    }
}

/// The mathematical value of a [`Response`].
pub enum ResponseView {
    RevelationTimestamp(u64),
    RevelationSet(Revelation),
    SecretValue(Seq<u8>),
    Empty,
}

impl View for Response {
    type V = ResponseView;

    open spec fn view(&self) -> ResponseView {
        match self {
            Response::RevelationTimestamp(t) => ResponseView::RevelationTimestamp(*t),
            Response::RevelationSet(s) => ResponseView::RevelationSet(s@),
            Response::SecretValue(v) => ResponseView::SecretValue(v@),
            Response::Empty => ResponseView::Empty,
        }
    }
}

/// A result with its success value replaced by that value's view.
pub open spec fn viewed<T: View>(r: Result<T, Error>) -> Result<T::V, Error> {
    match r {
        Ok(v) => Ok(v@),
        Err(e) => Err(e),
    }
}

/// A result with its success value turned into a response by `f`.
pub open spec fn respond<T>(r: Result<T, Error>, f: spec_fn(T) -> ResponseView) -> Result<
    ResponseView,
    Error,
> {
    match r {
        Ok(v) => Ok(f(v)),
        Err(e) => Err(e),
    }
}

/// The store and outcome after `caller`, at time `now`, sends `request` on the call path.
pub open spec fn call_result(m: Secrets, caller: Seq<u8>, now: u64, request: Request) -> (
    Secrets,
    Result<ResponseView, Error>,
) {
    match request {
        Request::CreateSecret { name, value, revelation_set, revelation_timestamp } => {
            let (m2, r) = create_result(
                m,
                caller,
                name@,
                value@,
                revelation_set@,
                revelation_timestamp,
            );
            (m2, respond(r, |u: ()| ResponseView::Empty))
        },
        Request::ResetRevelationTimestamp { name, revelation_timestamp } => {
            let (m2, r) = reset_result(m, caller, name@, revelation_timestamp);
            (m2, respond(r, |u: ()| ResponseView::Empty))
        },
        Request::DeleteSecret { name } => (
            delete_result(m, caller, name@),
            Ok(ResponseView::Empty),
        ),
        Request::GetRevelationTimestamp { owner, name } => (
            m,
            respond(
                timestamp_result(m, caller, owner@, name@),
                |t: u64| ResponseView::RevelationTimestamp(t),
            ),
        ),
        Request::GetRevelationSet { name } => (
            m,
            respond(set_result(m, caller, name@), |s: Revelation| ResponseView::RevelationSet(s)),
        ),
        Request::GetSecretValue { owner, name } => (
            m,
            respond(
                value_result(m, caller, owner@, name@, now),
                |v: Seq<u8>| ResponseView::SecretValue(v),
            ),
        ),
        Request::Instantiate => (m, Err(Error::BadRequest)),
    }
}

/// The dead-man's switch service.
pub struct Vigil;

impl Vigil {
    /// Creates the caller's secret `name`, unless the caller already has one by that name.
    pub fn create_secret(
        ctx: &mut Context,
        name: &String,
        value: Vec<u8>,
        revelation_set: RevelationSet,
        revelation_timestamp: u64,
    ) -> (r: Result<(), Error>)
        ensures
            (final(ctx).store@, r) == create_result(
                old(ctx).store@,
                old(ctx).caller_address@,
                name@,
                value@,
                revelation_set@,
                revelation_timestamp,
            ),
            final(ctx).caller_address == old(ctx).caller_address,
            final(ctx).block_timestamp == old(ctx).block_timestamp,
    {
        let owner = ctx.caller_address;
        if secret_exists(&ctx.store, &owner, name) {
            return Err(Error::SecretAlreadyExists);
        }
        ctx.store.insert(owner, name.clone(), value, revelation_set, revelation_timestamp);
        Ok(())
    }

    /// The revelation time of `owner`'s secret `name`, for its owner or a member of
    /// its revelation set.
    pub fn secret_revelation_timestamp(ctx: &Context, owner: Address, name: &String) -> (r: Result<
        u64,
        Error,
    >)
        ensures
            r == timestamp_result(ctx.store@, ctx.caller_address@, owner@, name@),
    {
        let caller = ctx.caller_address;
        if caller == owner {
            return match ctx.store.revelation_timestamp(&owner, name) {
                Some(t) => Ok(t),
                None => Err(Error::SecretDoesntExist),
            };
        }
        if !secret_is_revealable_to(&ctx.store, &owner, name, &caller) {
            return Err(Error::PermissionDenied);
        }
        match ctx.store.revelation_timestamp(&owner, name) {
            Some(t) => Ok(t),
            None => Err(Error::SecretDoesntExist),
        }
    }

    /// The revelation set of the caller's own secret `name`.
    pub fn secret_revelation_set(ctx: &Context, name: &String) -> (r: Result<RevelationSet, Error>)
        ensures
            viewed(r) == set_result(ctx.store@, ctx.caller_address@, name@),
    {
        match ctx.store.revelation_set(&ctx.caller_address, name) {
            Some(s) => Ok(s),
            None => Err(Error::SecretDoesntExist),
        }
    }

    /// Moves the revelation time of the caller's secret `name`, leaving its value and
    /// revelation set as they are.
    pub fn reset_revelation_timestamp(ctx: &mut Context, name: &String, new_revelation_timestamp: u64) -> (r:
        Result<(), Error>)
        ensures
            (final(ctx).store@, r) == reset_result(
                old(ctx).store@,
                old(ctx).caller_address@,
                name@,
                new_revelation_timestamp,
            ),
            final(ctx).caller_address == old(ctx).caller_address,
            final(ctx).block_timestamp == old(ctx).block_timestamp,
    {
        let owner = ctx.caller_address;
        if !secret_exists(&ctx.store, &owner, name) {
            return Err(Error::SecretDoesntExist);
        }
        ctx.store.set_revelation_timestamp(&owner, name, new_revelation_timestamp);
        Ok(())
    }

    /// The value of `owner`'s secret `name`: for its owner at any time, for a member of
    /// its revelation set once the revelation time has come.
    pub fn secret_value(ctx: &Context, owner: Address, name: &String) -> (r: Result<Vec<u8>, Error>)
        ensures
            viewed(r) == value_result(
                ctx.store@,
                ctx.caller_address@,
                owner@,
                name@,
                ctx.block_timestamp,
            ),
    {
        let caller = ctx.caller_address;
        if caller == owner {
            return match ctx.store.value(&owner, name) {
                Some(v) => Ok(v),
                None => Err(Error::SecretDoesntExist),
            };
        }
        if !secret_is_revealable_to(&ctx.store, &owner, name, &caller) {
            return Err(Error::SecretDoesntExist);
        }
        let block_tstamp = ctx.block_timestamp;
        let rev_tstamp = match ctx.store.revelation_timestamp(&owner, name) {
            Some(t) => t,
            None => {
                return Err(Error::PermissionDenied);
            },
        };
        if rev_tstamp > block_tstamp {
            return Err(Error::PermissionDenied);
        }
        match ctx.store.value(&owner, name) {
            Some(v) => Ok(v),
            None => Err(Error::SecretDoesntExist),
        }
    }

    /// Deletes the caller's secret `name` with all of its fields; deleting a secret
    /// that does not exist succeeds too.
    pub fn delete_secret(ctx: &mut Context, name: &String) -> (r: Result<(), Error>)
        ensures
            r == Ok::<(), Error>(()),
            final(ctx).store@ == delete_result(old(ctx).store@, old(ctx).caller_address@, name@),
            final(ctx).caller_address == old(ctx).caller_address,
            final(ctx).block_timestamp == old(ctx).block_timestamp,
    {
        let owner = ctx.caller_address;
        if !secret_exists(&ctx.store, &owner, name) {
            proof {
                assert(ctx.store@.remove(secret_key(owner, name@)) =~= ctx.store@);
            }
            return Ok(());
        }
        ctx.store.remove(&owner, name);
        Ok(())
    }
    /// Sets the service up; only the `Instantiate` request is accepted.
    pub fn instantiate(ctx: &Context, request: Request) -> (r: Result<(), Error>)
        ensures
            r == (if request is Instantiate {
                Ok::<(), Error>(())
            } else {
                Err(Error::BadRequest)
            }),
    {
        match request {
            Request::Instantiate => Ok(()),
            _ => Err(Error::BadRequest),
        }
    }

    /// Runs one request against the context: each request kind maps to exactly one
    /// operation, and `Instantiate` is refused.
    pub fn call(ctx: &mut Context, request: Request) -> (r: Result<Response, Error>)
        ensures
            (final(ctx).store@, viewed(r)) == call_result(
                old(ctx).store@,
                old(ctx).caller_address@,
                old(ctx).block_timestamp,
                request,
            ),
            final(ctx).caller_address == old(ctx).caller_address,
            final(ctx).block_timestamp == old(ctx).block_timestamp,
    {
        match request {
            Request::CreateSecret { name, value, revelation_set, revelation_timestamp } => {
                match Vigil::create_secret(ctx, &name, value, revelation_set, revelation_timestamp) {
                    Ok(u) => Ok(Response::from(u)),
                    Err(e) => Err(e),
                }
            },
            Request::ResetRevelationTimestamp { name, revelation_timestamp } => {
                match Vigil::reset_revelation_timestamp(ctx, &name, revelation_timestamp) {
                    Ok(u) => Ok(Response::from(u)),
                    Err(e) => Err(e),
                }
            },
            Request::DeleteSecret { name } => {
                match Vigil::delete_secret(ctx, &name) {
                    Ok(u) => Ok(Response::from(u)),
                    Err(e) => Err(e),
                }
            },
            Request::GetRevelationTimestamp { owner, name } => {
                match Vigil::secret_revelation_timestamp(ctx, owner, &name) {
                    Ok(t) => Ok(Response::RevelationTimestamp(t)),
                    Err(e) => Err(e),
                }
            },
            Request::GetRevelationSet { name } => {
                match Vigil::secret_revelation_set(ctx, &name) {
                    Ok(s) => Ok(Response::RevelationSet(s)),
                    Err(e) => Err(e),
                }
            },
            Request::GetSecretValue { owner, name } => {
                match Vigil::secret_value(ctx, owner, &name) {
                    Ok(v) => Ok(Response::SecretValue(v)),
                    Err(e) => Err(e),
                }
            },
            Request::Instantiate => Err(Error::BadRequest),
        }
    }

    /// The read-only query path: every request is refused there, so that reads go
    /// through `call` and its permission checks.
    pub fn query(ctx: &Context, request: Request) -> (r: Result<Response, Error>)
        ensures
            r == Err::<Response, Error>(Error::BadRequest),
    {
        Err(Error::BadRequest)
    }

    /// Replies from other services are refused: this service never calls out.
    pub fn handle_reply<R>(ctx: &Context, reply: R) -> (r: Result<Option<Response>, Error>)
        ensures
            r == Err::<Option<Response>, Error>(Error::BadRequest),
    {
        Err(Error::BadRequest)
    }

    /// Upgrades are refused: the service cannot change once deployed.
    pub fn pre_upgrade(ctx: &Context, request: Request) -> (r: Result<(), Error>)
        ensures
            r == Err::<(), Error>(Error::UpgradeNotAllowed),
    {
        Err(Error::UpgradeNotAllowed)
    }

    /// Upgrades are refused: the service cannot change once deployed.
    pub fn post_upgrade(ctx: &Context, request: Request) -> (r: Result<(), Error>)
        ensures
            r == Err::<(), Error>(Error::UpgradeNotAllowed),
    {
        Err(Error::UpgradeNotAllowed)
    }
}

} // verus!
