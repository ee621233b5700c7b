//! The model of a ledger account.

use vstd::prelude::*;

use crate::address::Pubkey;

verus! {

/// One ledger account as observed and mutated during a single invocation:
/// its address, balance in native units, owning program, raw data buffer
/// and the signer flag observed at invocation time. Accounts handed to one
/// invocation are assumed distinct.
#[derive(Debug)]
pub struct Account {
    /// The account's 32-byte address.
    pub key: Pubkey,
    /// The account's balance in native units.
    pub lamports: u64,
    /// The program that owns (and may mutate) the account.
    pub owner_program: Pubkey,
    /// The account's raw data buffer.
    pub data: Vec<u8>,
    /// Whether the account signed the current invocation.
    pub is_signer: bool,
}

/// Field-wise agreement of two account values.
pub open spec fn account_eq(a: Account, b: Account) -> bool {
    &&& a.key@ == b.key@
    &&& a.lamports == b.lamports
    &&& a.owner_program@ == b.owner_program@
    &&& a.data@ == b.data@
    &&& a.is_signer == b.is_signer
}

/// Agreement of the fields no instruction ever changes: address and signer
/// flag.
pub open spec fn same_identity(a: Account, b: Account) -> bool {
    a.key@ == b.key@ && a.is_signer == b.is_signer
}

/// A buffer of `len` zero bytes.
pub fn zeroed(len: usize) -> (v: Vec<u8>)
    ensures
        v@ == Seq::new(len as nat, |i: int| 0u8),
{
    let mut v: Vec<u8> = Vec::new();
    let mut i: usize = 0;
    while i < len
        invariant
            i == v@.len(),
            i <= len,
            forall|j: int| 0 <= j < i ==> v@[j] == 0u8,
        decreases len - i,
    {
        v.push(0u8);
        i = i + 1;
    }
    proof {
        assert(v@ =~= Seq::new(len as nat, |i: int| 0u8));
    }
    v
}

} // verus!
