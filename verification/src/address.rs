//! Account identities and the kinds of asset a vault can hold.

use vstd::prelude::*;
use vstd::std_specs::cmp::PartialEqSpecImpl;

verus! {

/// The identity of an account: a user, a pool, a vault or an asset.
#[derive(Clone, Copy, Debug, Eq)]
pub struct Address {
    pub bytes: [u8; 32],
}

impl PartialEq for Address {
    fn eq(&self, other: &Self) -> (r: bool) {
        let mut i: usize = 0;
        while i < 32
            invariant
                i <= 32,
                forall|j: int| 0 <= j < i ==> self.bytes[j] == other.bytes[j],
            decreases 32 - i,
        {
            if self.bytes[i] != other.bytes[i] {
                return false;
            }
            i += 1;
        }
        proof {
            assert(self.bytes =~= other.bytes);
        }
        true
    }
}

impl PartialEqSpecImpl for Address {
    open spec fn obeys_eq_spec() -> bool {
        true
    }

    open spec fn eq_spec(&self, other: &Self) -> bool {
        *self == *other
    }
}

/// The bytes of the identity under which the ledger's native asset is known
/// when it is handled like a fungible token.
pub const NATIVE_MINT: [u8; 32] = [
    6, 155, 136, 87, 254, 171, 129, 132, 251, 104, 127, 99, 70, 24, 192, 53,
    218, 196, 57, 220, 26, 235, 59, 85, 152, 160, 240, 0, 0, 0, 0, 1,
];

/// Whether `mint` names the native asset.
pub fn is_native_sol(mint: &Address) -> (r: bool)
    ensures
        r == (mint.bytes == NATIVE_MINT),
{
    let native = Address { bytes: NATIVE_MINT };
    *mint == native
}

/// What a vault holds: the ledger's native balance, or units of a fungible
/// token.
#[derive(Clone, Copy, Debug, PartialEq, Eq)]
pub enum AssetKind {
    Native,
    Fungible(Address),
}

impl AssetKind {
    /// The kind of the asset that `mint` names.
    pub open spec fn of(mint: Address) -> AssetKind {
        if mint.bytes == NATIVE_MINT {
            AssetKind::Native
        } else {
            AssetKind::Fungible(mint)
        }
    }

    /// Resolves the kind of an asset from its identity.
    pub fn of_mint(mint: &Address) -> (kind: AssetKind)
        ensures
            kind == AssetKind::of(*mint),
    {
        if is_native_sol(mint) {
            AssetKind::Native
        } else {
            AssetKind::Fungible(*mint)
        }
    }

    /// Whether this is the native asset.
    pub fn is_native(&self) -> (r: bool)
        ensures
            r == (*self is Native),
    {
        match self {
            AssetKind::Native => true,
            AssetKind::Fungible(_) => false,
        }
    }
}

} // verus!
