use vstd::prelude::*;
use vstd::arithmetic::power2::pow2;

verus! {

/// The on-ledger identity of an account: a 32-byte account hash.
///
/// Identities are only ever compared for exact equality; the library never
/// inspects the bytes beyond that.
#[derive(Clone, Copy, Eq, Debug, Hash)]
pub struct Identity {
    pub hash: [u8; 32],
}

impl PartialEq for Identity {
    fn eq(&self, other: &Identity) -> (r: bool) {
        let mut i: usize = 0;
        while i < 32
            invariant
                0 <= i <= 32,
                forall|j: int| 0 <= j < i ==> self.hash@[j] == other.hash@[j],
            decreases 32 - i,
        {
            if self.hash[i] != other.hash[i] {
                proof {
                    if self.hash == other.hash {
                        assert(self.hash@[i as int] == other.hash@[i as int]);
                    }
                }
                return false;
            }
            i += 1;
        }
        proof {
            assert(self.hash =~= other.hash);
        }
        true
    }
}

impl vstd::std_specs::cmp::PartialEqSpecImpl for Identity {
    open spec fn obeys_eq_spec() -> bool {
        true
    }

    open spec fn eq_spec(&self, other: &Identity) -> bool {
        self.hash == other.hash
    }
}

/// A reference to the external contract holding the raffled asset:
/// its 32-byte contract hash.
#[derive(Clone, Copy, PartialEq, Eq, Debug)]
pub struct CollectionRef {
    pub hash: [u8; 32],
}

/// A handle to a payment-collection account. The library stores and hands
/// the handle out; the host mints it and moves the funds behind it.
#[derive(Clone, Copy, PartialEq, Eq, Debug)]
pub struct PurseRef {
    pub id: [u8; 32],
}

/// A holder of the raffled asset: an external account, or the raffle
/// contract itself while the asset is in its custody.
#[derive(Clone, Copy, PartialEq, Eq, Debug)]
pub enum Party {
    Account(Identity),
    RaffleContract,
}

/// A ledger-scale amount of funds: a 512-bit unsigned integer held as
/// eight 64-bit limbs, least significant first.
#[derive(Clone, Copy, PartialEq, Eq, Debug)]
pub struct Amount {
    pub limbs: [u64; 8],
}

impl Amount {
    /// The numeric value that the limbs encode.
    pub open spec fn value(self) -> nat {
        (self.limbs@[0] + self.limbs@[1] * pow2(64) + self.limbs@[2] * pow2(128)
            + self.limbs@[3] * pow2(192) + self.limbs@[4] * pow2(256) + self.limbs@[5] * pow2(320)
            + self.limbs@[6] * pow2(384) + self.limbs@[7] * pow2(448)) as nat
    }

    /// An amount small enough to fit one limb.
    pub fn from_u64(n: u64) -> (r: Amount)
        ensures
            r.value() == n,
    {
        let r = Amount { limbs: [n, 0, 0, 0, 0, 0, 0, 0] };
        proof {
            assert(r.limbs@[0] == n);
            assert(forall|i: int| 1 <= i < 8 ==> r.limbs@[i] == 0);
            assert(r.value() == n);
        }
        r
    }
}

} // verus!
