use vstd::prelude::*;
use vstd::std_specs::cmp::PartialEqSpecImpl;

verus! {

/// Number of bytes of a Stellar strkey (`G...` account or `C...` contract).
pub const STRKEY_LEN: usize = 56;

/// An account or contract address, held as its canonical strkey text.
#[derive(Clone, Copy, Debug)]
pub struct Address {
    pub strkey: [u8; 56],
}

impl Address {
    pub open spec fn key(&self) -> Seq<u8> {
        self.strkey@
    }

    /// Addresses with the same strkey are the same address.
    pub proof fn lemma_key_determines(a: Address, b: Address)
        requires
            a.key() == b.key(),
        ensures
            a == b,
    {
        assert forall|i: int| 0 <= i < 56 implies a.strkey[i] == b.strkey[i] by {
            assert(a.strkey@[i] == b.strkey@[i]);
        }
        assert(a.strkey =~= b.strkey);
    }

    /// Byte-wise comparison of two addresses.
    pub fn same_as(&self, other: &Address) -> (r: bool)
        ensures
            r == (self.key() == other.key()),
    {
        let mut i: usize = 0;
        while i < STRKEY_LEN
            invariant
                i <= STRKEY_LEN,
                self.strkey@.len() == 56,
                other.strkey@.len() == 56,
                forall|j: int| 0 <= j < i ==> self.strkey@[j] == other.strkey@[j],
            decreases STRKEY_LEN - i,
        {
            if self.strkey[i] != other.strkey[i] {
                return false;
            }
            i = i + 1;
        }
        assert(self.strkey@ =~= other.strkey@);
        true
    }
}

impl PartialEq for Address {
    fn eq(&self, other: &Address) -> (r: bool) {
        self.same_as(other)
    }
}

impl Eq for Address {}

impl PartialEqSpecImpl for Address {
    open spec fn obeys_eq_spec() -> bool {
        true
    }

    open spec fn eq_spec(&self, other: &Address) -> bool {
        self.key() == other.key()
    }
}

/// `x + y`, or `u64::MAX` when that overflows.
pub open spec fn saturating_sum(x: u64, y: u64) -> u64 {
    if x + y > u64::MAX {
        u64::MAX
    } else {
        (x + y) as u64
    }
}

/// The outcome of a contract call together with the address whose
/// authorization the call demands before its outcome may take effect.
/// `signer` is `None` when the call stops before reaching its
/// authorization check.
pub struct Guarded<T> {
    pub signer: Option<Address>,
    pub outcome: T,
}

} // verus!
