use vstd::prelude::*;

verus! {

/// The address of an account: a participant, a token account or a mint.
///
/// The library never looks inside an address; it records addresses and hands
/// them on.
#[derive(Clone, Copy, Debug, PartialEq, Eq, Hash)]
pub struct Address(pub [u8; 32]);

impl View for Address {
    type V = Seq<u8>;

    open spec fn view(&self) -> Seq<u8> {
        self.0@
    }
}

impl Address {
    /// Two addresses of the same bytes are one address.
    pub proof fn lemma_same_bytes(a: Address, b: Address)
        requires
            a@ == b@,
        ensures
            a == b,
    {
        assert(a.0 =~= b.0);
    }
}

} // verus!
