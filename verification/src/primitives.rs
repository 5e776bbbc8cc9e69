//! Plain value types shared by every part of the runtime.

use vstd::prelude::*;

verus! {

/// The height of a block.
pub type BlockNumber = u64;

/// The number of transactions an account has sent so far.
pub type Nonce = u64;

/// A 256-bit digest.
pub type H256 = [u8; 32];

/// The public identity of an account.
pub type AccountId = [u8; 32];

/// A short alias that stands for an account.
pub type AccountIndex = u32;

/// The public identity of a consensus authority.
pub type AuthorityId = [u8; 32];

/// A signature over the signed part of an extrinsic.
pub type Signature = [u8; 64];

/// Identifies a kind of session key.
pub type KeyTypeId = u32;

/// Why a dispatched call did not take effect.
#[derive(Clone, Copy, Debug, PartialEq, Eq, Structural)]
pub enum DispatchError {
    /// The call may not be made from the origin it was dispatched with.
    BadOrigin,
    /// The call names a module or a function that the runtime does not have.
    UnknownCall,
    /// The owning module refused the call for a reason of its own.
    Module { module: u8, code: u8 },
}

/// The authority under which a call is dispatched.
#[derive(Clone, Copy, Debug, PartialEq, Eq)]
pub enum Origin {
    /// The chain itself.
    Root,
    /// An account whose signature has been checked.
    Signed(AccountId),
    /// No account: the call came in an inherent extrinsic.
    Inherent,
    /// An authority that a module declares, such as a committee majority.
    Custom { module: u8, kind: u8 },
}

/// Whether two byte arrays of one length hold the same bytes.
pub fn array_eq<const N: usize>(a: &[u8; N], b: &[u8; N]) -> (same: bool)
    ensures
        same == (*a == *b),
{
    let mut i: usize = 0;
    while i < N
        invariant
            i <= N,
            forall|k: int| 0 <= k < i ==> a[k] == b[k],
        decreases N - i,
    {
        if a[i] != b[i] {
            return false;
        }
        i += 1;
    }
    assert(*a =~= *b);
    true
}

/// Whether two byte strings hold the same bytes.
pub fn bytes_eq(a: &Vec<u8>, b: &Vec<u8>) -> (same: bool)
    ensures
        same == (a@ == b@),
{
    if a.len() != b.len() {
        return false;
    }
    let mut i: usize = 0;
    while i < a.len()
        invariant
            i <= a.len(),
            a.len() == b.len(),
            forall|k: int| 0 <= k < i ==> a[k] == b[k],
        decreases a.len() - i,
    {
        if a[i] != b[i] {
            return false;
        }
        i += 1;
    }
    assert(a@ =~= b@);
    true
}

/// Whether two origins are the same authority.
pub fn origin_eq(a: &Origin, b: &Origin) -> (same: bool)
    ensures
        same == (*a == *b),
{
    match (a, b) {
        (Origin::Root, Origin::Root) => true,
        (Origin::Signed(x), Origin::Signed(y)) => array_eq(x, y),
        (Origin::Inherent, Origin::Inherent) => true,
        (Origin::Custom { module: m, kind: k }, Origin::Custom { module: n, kind: l }) => *m == *n
            && *k == *l,
        _ => false,
    }
}

} // verus!
