use vstd::prelude::*;

verus! {

/// Number of bytes in an account address.
pub const ADDRESS_SIZE: usize = 21;

/// The identity of an account: a fixed-size byte string.
#[derive(Clone, Copy, Debug, Eq)]
pub struct Address {
    bytes: [u8; 21],
}

impl View for Address {
    type V = Seq<u8>;

    closed spec fn view(&self) -> Seq<u8> {
        self.bytes@
    }
}

impl Address {
    /// Builds an address from exactly `ADDRESS_SIZE` bytes; any other length is refused.
    pub fn from_bytes(b: &[u8]) -> (r: Option<Address>)
        ensures
            b@.len() == ADDRESS_SIZE <==> r.is_some(),
            r matches Some(a) ==> a@ == b@,
    {
        if b.len() != ADDRESS_SIZE {
            return None;
        }
        let mut bytes: [u8; 21] = [0u8; 21];
        let mut i: usize = 0;
        while i < ADDRESS_SIZE
            invariant
                b@.len() == ADDRESS_SIZE,
                i <= ADDRESS_SIZE,
                bytes@.len() == ADDRESS_SIZE,
                forall|j: int| 0 <= j < i ==> bytes@[j] == b@[j],
            decreases ADDRESS_SIZE - i,
        {
            bytes[i] = b[i];
            i = i + 1;
        }
        proof {
            assert(bytes@ =~= b@);
        }
        Some(Address { bytes })
    }

    /// The bytes of the address.
    pub fn as_bytes(&self) -> (r: &[u8])
        ensures
            r@ == self@,
    {
        self.bytes.as_slice()
    }
}

impl PartialEq for Address {
    fn eq(&self, o: &Address) -> (r: bool)
        ensures
            r == (self@ == o@),
    {
        let mut i: usize = 0;
        while i < ADDRESS_SIZE
            invariant
                i <= ADDRESS_SIZE,
                self@.len() == ADDRESS_SIZE,
                o@.len() == ADDRESS_SIZE,
                forall|j: int| 0 <= j < i ==> self@[j] == o@[j],
            decreases ADDRESS_SIZE - i,
        {
            if self.bytes[i] != o.bytes[i] {
                return false;
            }
            i = i + 1;
        }
        proof {
            assert(self@ =~= o@);
        }
        true
    }
}

impl vstd::std_specs::cmp::PartialEqSpecImpl for Address {
    open spec fn obeys_eq_spec() -> bool {
        true
    }

    open spec fn eq_spec(&self, o: &Address) -> bool {
        self@ == o@
    }
}

} // verus!
