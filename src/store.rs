use vstd::prelude::*;

use crate::address::Address;
use crate::types::{Revelation, RevelationSet};

verus! {

/// Identifies a secret: the bytes of its owner's address and its name.
pub type SecretKey = (Seq<u8>, Seq<char>);

/// What is kept under one identifier.
pub struct SecretState {
    pub value: Seq<u8>,
    pub revelation_set: Revelation,
    pub revelation_timestamp: u64,
}

/// The identifier of the secret `name` owned by `owner`.
pub open spec fn secret_key(owner: Address, name: Seq<char>) -> SecretKey {
    (owner@, name)
}

/// One stored secret with all of its fields.
struct SecretRecord {
    owner: Address,
    name: String,
    value: Vec<u8>,
    revelation_set: RevelationSet,
    revelation_timestamp: u64,
}

impl SecretRecord {
    spec fn key(&self) -> SecretKey {
        (self.owner@, self.name@)
    }

    spec fn state(&self) -> SecretState {
        SecretState {
            value: self.value@,
            revelation_set: self.revelation_set@,
            revelation_timestamp: self.revelation_timestamp,
        }
    }
}

/// The records hold unique identifiers and are exactly the entries of `model`.
spec fn table_wf(records: Seq<SecretRecord>, model: Map<SecretKey, SecretState>) -> bool {
    &&& forall|i: int, j: int|
        0 <= i < j < records.len() ==> #[trigger] records[i].key() != #[trigger] records[j].key()
    &&& forall|i: int|
        0 <= i < records.len() ==> model.contains_key(#[trigger] records[i].key())
            && model[records[i].key()] == records[i].state()
    &&& forall|k: SecretKey| #[trigger]
        model.contains_key(k) ==> exists|i: int| 0 <= i < records.len() && records[i].key() == k
}

proof fn lemma_absent(records: Seq<SecretRecord>, model: Map<SecretKey, SecretState>, k: SecretKey)
    requires
        table_wf(records, model),
        forall|i: int| 0 <= i < records.len() ==> #[trigger] records[i].key() != k,
    ensures
        !model.contains_key(k),
{
}

proof fn lemma_remove(
    records: Seq<SecretRecord>,
    model: Map<SecretKey, SecretState>,
    i: int,
)
    requires
        table_wf(records, model),
        0 <= i < records.len(),
    ensures
        table_wf(records.remove(i), model.remove(records[i].key())),
{
    let k = records[i].key();
    let r2 = records.remove(i);
    let m2 = model.remove(k);
    assert forall|a: int| 0 <= a < r2.len() implies #[trigger] r2[a].key() != k
        && m2.contains_key(r2[a].key()) && m2[r2[a].key()] == r2[a].state() by {
        if a < i {
            assert(records[a] == r2[a]);
        } else {
            assert(records[a + 1] == r2[a]);
        }
    }
    assert forall|a: int, b: int| 0 <= a < b < r2.len() implies #[trigger] r2[a].key()
        != #[trigger] r2[b].key() by {
        let a0 = if a < i { a } else { a + 1 };
        let b0 = if b < i { b } else { b + 1 };
        assert(records[a0] == r2[a] && records[b0] == r2[b]);
    }
    assert forall|k2: SecretKey| #[trigger] m2.contains_key(k2) implies exists|a: int|
        0 <= a < r2.len() && r2[a].key() == k2 by {
        let a0 = choose|a0: int| 0 <= a0 < records.len() && records[a0].key() == k2;
        assert(a0 != i);
        if a0 < i {
            assert(r2[a0] == records[a0]);
        } else {
            assert(r2[a0 - 1] == records[a0]);
        }
    }
}

proof fn lemma_push(records: Seq<SecretRecord>, model: Map<SecretKey, SecretState>, r: SecretRecord)
    requires
        table_wf(records, model),
        !model.contains_key(r.key()),
    ensures
        table_wf(records.push(r), model.insert(r.key(), r.state())),
{
    let r2 = records.push(r);
    let m2 = model.insert(r.key(), r.state());
    assert forall|a: int| 0 <= a < r2.len() implies m2.contains_key(#[trigger] r2[a].key())
        && m2[r2[a].key()] == r2[a].state() by {
        if a < records.len() {
            assert(r2[a] == records[a]);
        }
    }
    assert forall|a: int, b: int| 0 <= a < b < r2.len() implies #[trigger] r2[a].key()
        != #[trigger] r2[b].key() by {
        assert(r2[a] == records[a]);
        if b < records.len() {
            assert(r2[b] == records[b]);
        }
    }
    assert forall|k2: SecretKey| #[trigger] m2.contains_key(k2) implies exists|a: int|
        0 <= a < r2.len() && r2[a].key() == k2 by {
        if k2 == r.key() {
            assert(r2[records.len() as int] == r);
        } else {
            let a0 = choose|a0: int| 0 <= a0 < records.len() && records[a0].key() == k2;
            assert(r2[a0] == records[a0]);
        }
    }
}

/// The index of the record for `(owner, name)`, if there is one.
fn find_index(records: &Vec<SecretRecord>, owner: &Address, name: &String) -> (r: Option<usize>)
    ensures
        match r {
            Some(i) => i < records@.len() && records@[i as int].key() == secret_key(*owner, name@),
            None => forall|i: int|
                0 <= i < records@.len() ==> #[trigger] records@[i].key() != secret_key(
                    *owner,
                    name@,
                ),
        },
{
    let mut i: usize = 0;
    while i < records.len()
        invariant
            i <= records@.len(),
            forall|j: int|
                0 <= j < i ==> #[trigger] records@[j].key() != secret_key(*owner, name@),
        decreases records@.len() - i,
    {
        if records[i].owner == *owner && records[i].name == *name {
            return Some(i);
        }
        i = i + 1;
    }
    None
}

/// Confidential storage of secrets, one record per identifier, each record holding
/// the value, the revelation set and the revelation time together.
pub struct Store {
    records: Vec<SecretRecord>,
    model: Ghost<Map<SecretKey, SecretState>>,
}

impl View for Store {
    type V = Map<SecretKey, SecretState>;

    closed spec fn view(&self) -> Map<SecretKey, SecretState> {
        self.model@
    }
}

impl Store {
    #[verifier::type_invariant]
    spec fn inv(&self) -> bool {
        table_wf(self.records@, self.model@)
    }

    /// An empty store.
    pub fn new() -> (r: Store)
        ensures
            r@ == Map::<SecretKey, SecretState>::empty(),
    {
        Store { records: Vec::new(), model: Ghost(Map::empty()) }
    }

    fn lookup(&self, owner: &Address, name: &String) -> (r: Option<usize>)
        ensures
            match r {
                Some(i) => i < self.records@.len() && self.records@[i as int].key() == secret_key(
                    *owner,
                    name@,
                ) && self@.contains_key(secret_key(*owner, name@)) && self@[secret_key(
                    *owner,
                    name@,
                )] == self.records@[i as int].state(),
                None => !self@.contains_key(secret_key(*owner, name@)),
            },
    {
        proof {
            use_type_invariant(self);
        }
        let r = find_index(&self.records, owner, name);
        proof {
            if r.is_none() {
                lemma_absent(self.records@, self.model@, secret_key(*owner, name@));
            }
        }
        r
    }

    /// Whether a secret is stored under `(owner, name)`.
    pub fn contains(&self, owner: &Address, name: &String) -> (r: bool)
        ensures
            r == self@.contains_key(secret_key(*owner, name@)),
    {
        self.lookup(owner, name).is_some()
    }

    /// The revelation time of the secret, if it is stored.
    pub fn revelation_timestamp(&self, owner: &Address, name: &String) -> (r: Option<u64>)
        ensures
            r == (if self@.contains_key(secret_key(*owner, name@)) {
                Some(self@[secret_key(*owner, name@)].revelation_timestamp)
            } else {
                None::<u64>
            }),
    {
        match self.lookup(owner, name) {
            Some(i) => Some(self.records[i].revelation_timestamp),
            None => None,
        }
    }

    /// A copy of the revelation set of the secret, if it is stored.
    pub fn revelation_set(&self, owner: &Address, name: &String) -> (r: Option<RevelationSet>)
        ensures
            r.is_some() == self@.contains_key(secret_key(*owner, name@)),
            r matches Some(s) ==> s@ == self@[secret_key(*owner, name@)].revelation_set,
    {
        match self.lookup(owner, name) {
            Some(i) => Some(self.records[i].revelation_set.copied()),
            None => None,
        }
    }

    /// A copy of the value of the secret, if it is stored.
    pub fn value(&self, owner: &Address, name: &String) -> (r: Option<Vec<u8>>)
        ensures
            r.is_some() == self@.contains_key(secret_key(*owner, name@)),
            r matches Some(v) ==> v@ == self@[secret_key(*owner, name@)].value,
    {
        match self.lookup(owner, name) {
            Some(i) => {
                let v = self.records[i].value.clone();
                proof {
                    assert(v@ =~= self.records@[i as int].value@);
                }
                Some(v)
            },
            None => None,
        }
    }
    /// Removes the secret stored under `(owner, name)`, if any, with all of its fields.
    pub fn remove(&mut self, owner: &Address, name: &String)
        ensures
            final(self)@ == old(self)@.remove(secret_key(*owner, name@)),
    {
        match self.lookup(owner, name) {
            None => {
                proof {
                    assert(self@.remove(secret_key(*owner, name@)) =~= self@);
                }
            },
            Some(i) => {
                let mut taken = Store::new();
                std::mem::swap(&mut taken, self);
                proof {
                    use_type_invariant(&taken);
                }
                let Store { mut records, model } = taken;
                proof {
                    lemma_remove(records@, model@, i as int);
                }
                let _ = records.remove(i);
                *self = Store {
                    records,
                    model: Ghost(model@.remove(secret_key(*owner, name@))),
                };
            },
        }
    }

    /// Stores a secret under `(owner, name)` with all of its fields, in place of any
    /// secret stored there before.
    pub fn insert(
        &mut self,
        owner: Address,
        name: String,
        value: Vec<u8>,
        revelation_set: RevelationSet,
        revelation_timestamp: u64,
    )
        ensures
            final(self)@ == old(self)@.insert(
                secret_key(owner, name@),
                SecretState { value: value@, revelation_set: revelation_set@, revelation_timestamp },
            ),
    {
        self.remove(&owner, &name);
        let mut taken = Store::new();
        std::mem::swap(&mut taken, self);
        proof {
            use_type_invariant(&taken);
        }
        let Store { mut records, model } = taken;
        let record = SecretRecord { owner, name, value, revelation_set, revelation_timestamp };
        proof {
            lemma_push(records@, model@, record);
            assert(model@.insert(record.key(), record.state()) =~= old(self)@.insert(
                secret_key(owner, record.name@),
                record.state(),
            ));
        }
        let ghost new_model = model@.insert(record.key(), record.state());
        records.push(record);
        *self = Store { records, model: Ghost(new_model) };
    }

    /// Overwrites the revelation time of the secret stored under `(owner, name)`,
    /// leaving its value and revelation set as they are.
    pub fn set_revelation_timestamp(&mut self, owner: &Address, name: &String, revelation_timestamp: u64)
        requires
            old(self)@.contains_key(secret_key(*owner, name@)),
        ensures
            final(self)@ == old(self)@.insert(
                secret_key(*owner, name@),
                SecretState { revelation_timestamp, ..old(self)@[secret_key(*owner, name@)] },
            ),
    {
        let i = match self.lookup(owner, name) {
            Some(i) => i,
            None => {
                return;
            },
        };
        let mut taken = Store::new();
        std::mem::swap(&mut taken, self);
        proof {
            use_type_invariant(&taken);
        }
        let Store { mut records, model } = taken;
        proof {
            lemma_remove(records@, model@, i as int);
        }
        let mut record = records.remove(i);
        let ghost rest = model@.remove(record.key());
        record.revelation_timestamp = revelation_timestamp;
        proof {
            lemma_push(records@, rest, record);
            assert(rest.insert(record.key(), record.state()) =~= model@.insert(
                secret_key(*owner, name@),
                SecretState { revelation_timestamp, ..model@[secret_key(*owner, name@)] },
            ));
        }
        let ghost new_model = rest.insert(record.key(), record.state());
        records.push(record);
        *self = Store { records, model: Ghost(new_model) };
    }
}

} // verus!
