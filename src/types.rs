use vstd::prelude::*;

use crate::address::Address;

verus! {

/// The identities allowed to read a secret once its revelation time has passed.
#[derive(Clone, Debug, PartialEq, Eq)]
pub enum RevelationSet {
    /// Every identity is a member.
    Anyone,
    /// Exactly the listed identities are members.
    Entities(Vec<Address>),
}

/// The mathematical value of a [`RevelationSet`]: members are compared by their bytes.
pub enum Revelation {
    Anyone,
    Entities(Seq<Seq<u8>>),
}

impl Revelation {
    /// Whether `entity` is a member.
    pub open spec fn admits(self, entity: Seq<u8>) -> bool {
        match self {
            Revelation::Anyone => true,
            Revelation::Entities(members) => members.contains(entity),
        }
    }
}

/// The byte views of a list of addresses.
pub open spec fn address_views(v: Seq<Address>) -> Seq<Seq<u8>> {
    v.map_values(|a: Address| a@)
}

impl View for RevelationSet {
    type V = Revelation;

    open spec fn view(&self) -> Revelation {
        match self {
            RevelationSet::Anyone => Revelation::Anyone,
            RevelationSet::Entities(v) => Revelation::Entities(address_views(v@)),
        }
    }
}

impl RevelationSet {
    /// Whether `entity` is a member of the set.
    pub fn contains(&self, entity: &Address) -> (r: bool)
        ensures
            r == self@.admits(entity@),
    {
        match self {
            RevelationSet::Anyone => true,
            RevelationSet::Entities(entities) => {
                let mut i: usize = 0;
                while i < entities.len()
                    invariant
                        i <= entities@.len(),
                        self@ == Revelation::Entities(address_views(entities@)),
                        forall|j: int| 0 <= j < i ==> entities@[j]@ != entity@,
                    decreases entities@.len() - i,
                {
                    if entities[i] == *entity {
                        proof {
                            assert(address_views(entities@)[i as int] == entity@);
                        }
                        return true;
                    }
                    i = i + 1;
                }
                proof {
                    if address_views(entities@).contains(entity@) {
                        let k = choose|k: int|
                            0 <= k < address_views(entities@).len()
                                && address_views(entities@)[k] == entity@;
                        assert(entities@[k]@ == entity@);
                    }
                }
                false
            },
        }
    }

    /// A copy of the set with the same members in the same order.
    pub fn copied(&self) -> (r: RevelationSet)
        ensures
            r@ == self@,
    {
        match self {
            RevelationSet::Anyone => RevelationSet::Anyone,
            RevelationSet::Entities(entities) => {
                let mut out: Vec<Address> = Vec::new();
                let mut i: usize = 0;
                while i < entities.len()
                    invariant
                        i <= entities@.len(),
                        out@.len() == i,
                        forall|j: int| 0 <= j < i ==> out@[j]@ == entities@[j]@,
                    decreases entities@.len() - i,
                {
                    out.push(entities[i]);
                    i = i + 1;
                }
                proof {
                    assert(address_views(out@) =~= address_views(entities@));
                }
                RevelationSet::Entities(out)
            },
        }
    }
}

/// A request to the service.
#[derive(Clone, Debug, PartialEq, Eq)]
pub enum Request {
    /// The only request accepted when the service is set up.
    Instantiate,
    /// Creates a new secret scoped to the caller.
    CreateSecret {
        /// The name of the secret.
        name: String,
        /// The secret.
        value: Vec<u8>,
        /// The set of callers that can retrieve the revealed secret.
        revelation_set: RevelationSet,
        /// The time at which the secret is revealed unless refreshed.
        revelation_timestamp: u64,
    },
    /// Moves the revelation time of the caller's secret with the given name.
    /// A time in the past makes the secret revealable at once.
    ResetRevelationTimestamp { name: String, revelation_timestamp: u64 },
    /// Deletes the caller's secret with the given name.
    DeleteSecret { name: String },
    /// Returns the revelation time of a secret to its owner or to a member of its set.
    GetRevelationTimestamp { owner: Address, name: String },
    /// Returns the revelation set of the caller's secret with the given name.
    GetRevelationSet { name: String },
    /// Returns the secret to its owner, or to a member of its set once it is due.
    GetSecretValue { owner: Address, name: String },
}

/// A successful answer of the service.
#[derive(Clone, Debug, PartialEq, Eq)]
pub enum Response {
    /// The answer to `GetRevelationTimestamp`.
    RevelationTimestamp(u64),
    /// The answer to `GetRevelationSet`.
    RevelationSet(RevelationSet),
    /// The answer to `GetSecretValue`.
    SecretValue(Vec<u8>),
    /// The answer to the requests that return nothing.
    Empty,
}

impl From<()> for Response {
    fn from(u: ()) -> (r: Response) {
        Response::Empty
    }
}

impl vstd::std_specs::convert::FromSpecImpl<()> for Response {
    open spec fn obeys_from_spec() -> bool {
        true
    }

    open spec fn from_spec(u: ()) -> Response {
        Response::Empty
    }
}

/// The ways a request can fail.
#[derive(Clone, Copy, Debug, PartialEq, Eq, Structural)]
pub enum Error {
    /// The service cannot be upgraded.
    UpgradeNotAllowed,
    /// The request is not accepted on this entry point.
    BadRequest,
    /// The caller may not learn what was asked.
    PermissionDenied,
    /// The secret does not exist.
    SecretDoesntExist,
    /// A secret of that name already exists.
    SecretAlreadyExists,
}

impl Error {
    /// A short description of the error.
    pub fn message(&self) -> (r: &'static str)
        ensures
            r@ == (match self {
                Error::UpgradeNotAllowed => "the contract is not upgradeable"@,
                Error::BadRequest => "bad request"@,
                Error::PermissionDenied => "permission denied"@,
                Error::SecretDoesntExist => "the secret doesn't exist"@,
                Error::SecretAlreadyExists => "the secret already exists"@,
            }),
    {
        match self {
            Error::UpgradeNotAllowed => "the contract is not upgradeable",
            Error::BadRequest => "bad request",
            Error::PermissionDenied => "permission denied",
            Error::SecretDoesntExist => "the secret doesn't exist",
            Error::SecretAlreadyExists => "the secret already exists",
        }
    }
}

} // verus!
