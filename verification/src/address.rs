//! Deterministic derivation of associated token account addresses.
//!
//! An associated token account address is a program-derived address computed
//! from a wallet address, a token program id and a mint address. Derivation
//! hashes the seeds together with a bump byte, searched downward from 255,
//! until the result is not a valid curve point, so that no private key can
//! ever control the derived account.

use vstd::prelude::*;

verus! {

/// A 32-byte ledger address.
pub type Pubkey = [u8; 32];

/// The associated token account program's id,
/// `ATokenGPvbdGVxr1b2hvZbsiqW5xWH25efTNsLJA8knL`.
pub const PROGRAM_ID: Pubkey = [
    140u8, 151, 37, 143, 78, 36, 137, 241, 187, 61, 16, 41, 20, 142, 13, 131, 11, 90, 19, 153,
    218, 255, 16, 132, 4, 142, 123, 216, 219, 233, 248, 89,
];

/// The canonical token program's id,
/// `TokenkegQfeZyiNwAJbNbGKPFXCWuBvf9Ss623VQ5DA`.
pub const TOKEN_PROGRAM_ID: Pubkey = [
    6u8, 221, 246, 225, 215, 101, 161, 147, 217, 203, 225, 70, 206, 235, 121, 172, 28, 180, 133,
    237, 95, 91, 55, 145, 58, 140, 245, 133, 126, 255, 0, 169,
];

/// The system (funding) program's id, `11111111111111111111111111111111`.
pub const SYSTEM_PROGRAM_ID: Pubkey = [
    0u8, 0, 0, 0, 0, 0, 0, 0, 0, 0, 0, 0, 0, 0, 0, 0, 0, 0, 0, 0, 0, 0, 0, 0, 0, 0, 0, 0, 0, 0,
    0, 0,
];

/// Whether a 32-byte string is a valid curve point, i.e. could be a
/// signing-capable public key. The predicate itself is left abstract; the
/// derivation below only ever returns addresses for which it is false.
pub uninterp spec fn on_curve(address: Seq<u8>) -> bool;

/// The program-derived address candidate for one bump value: the hash of
/// `(wallet, token_program, mint, bump, program_id)`, or `None` when that
/// hash is a valid curve point. A pure function of its arguments.
pub uninterp spec fn pda_candidate(
    wallet: Seq<u8>,
    mint: Seq<u8>,
    program_id: Seq<u8>,
    token_program_id: Seq<u8>,
    bump: u8,
) -> Option<Seq<u8>>;

/// Relies on `solana_address::Address::create_program_address` (with the
/// `curve25519` feature): the result is the SHA-256 hash of the seeds, the
/// program id and a fixed marker — a function of the arguments alone — and
/// the call fails exactly when that hash lies on the ed25519 curve.
#[verifier::external_body]
fn derive_candidate(
    wallet: &Pubkey,
    mint: &Pubkey,
    program_id: &Pubkey,
    token_program_id: &Pubkey,
    bump: u8,
) -> (r: Option<Pubkey>)
    ensures
        r is Some ==> pda_candidate(wallet@, mint@, program_id@, token_program_id@, bump)
            == Some(r->0@) && !on_curve(r->0@),
        r is None ==> pda_candidate(wallet@, mint@, program_id@, token_program_id@, bump)
            is None,
{
    let bump_bytes = [bump];
    let seeds: [&[u8]; 4] = [
        wallet.as_slice(),
        token_program_id.as_slice(),
        mint.as_slice(),
        bump_bytes.as_slice(),
    ];
    let program = solana_address::Address::new_from_array(*program_id);
    match solana_address::Address::create_program_address(&seeds, &program) {
        Ok(address) => Some(address.to_bytes()),
        Err(_) => None,
    }
}

/// The derived address found by searching bump values from `bump` downward:
/// the first bump whose candidate is off-curve, together with that bump.
pub open spec fn find_derived_from(
    wallet: Seq<u8>,
    mint: Seq<u8>,
    program_id: Seq<u8>,
    token_program_id: Seq<u8>,
    bump: int,
) -> Option<(Seq<u8>, u8)>
    decreases bump + 1,
{
    if bump < 0 {
        None
    } else {
        match pda_candidate(wallet, mint, program_id, token_program_id, bump as u8) {
            Some(address) => Some((address, bump as u8)),
            None => find_derived_from(wallet, mint, program_id, token_program_id, bump - 1),
        }
    }
}

/// The associated token account address for the given wallet, mint, deriving
/// program and token program: the candidate for the largest bump, searched
/// from 255 downward, that is not a valid curve point. `None` in the
/// astronomically unlikely event that every bump yields a curve point.
pub open spec fn spec_derived_address(
    wallet: Seq<u8>,
    mint: Seq<u8>,
    program_id: Seq<u8>,
    token_program_id: Seq<u8>,
) -> Option<(Seq<u8>, u8)> {
    find_derived_from(wallet, mint, program_id, token_program_id, 255)
}

/// Byte-wise equality of two byte strings.
pub fn bytes_eq(a: &[u8], b: &[u8]) -> (r: bool)
    ensures
        r <==> a@ == b@,
{
    if a.len() != b.len() {
        return false;
    }
    let mut i: usize = 0;
    while i < a.len()
        invariant
            a@.len() == b@.len(),
            i <= a@.len(),
            forall|j: int| 0 <= j < i ==> a@[j] == b@[j],
        decreases a@.len() - i,
    {
        if a[i] != b[i] {
            return false;
        }
        i = i + 1;
    }
    proof {
        assert(a@ =~= b@);
    }
    true
}

/// Byte-wise equality of two addresses.
pub fn pubkey_eq(a: &Pubkey, b: &Pubkey) -> (r: bool)
    ensures
        r <==> a@ == b@,
{
    bytes_eq(a.as_slice(), b.as_slice())
}

/// Searches bump values from 255 downward for the associated token account
/// address. Returns the address and the bump that produced it, or `None`
/// when no bump yields an off-curve address.
pub fn try_find_derived_address(
    wallet: &Pubkey,
    mint: &Pubkey,
    program_id: &Pubkey,
    token_program_id: &Pubkey,
) -> (r: Option<(Pubkey, u8)>)
    ensures
        r matches Some(pair) ==> spec_derived_address(wallet@, mint@, program_id@,
            token_program_id@) == Some((pair.0@, pair.1)) && !on_curve(pair.0@),
        r is None ==> spec_derived_address(wallet@, mint@, program_id@, token_program_id@)
            is None,
{
    let mut bump: u8 = 255;
    loop
        invariant
            find_derived_from(wallet@, mint@, program_id@, token_program_id@, 255)
                == find_derived_from(wallet@, mint@, program_id@, token_program_id@, bump as int),
        decreases bump,
    {
        match derive_candidate(wallet, mint, program_id, token_program_id, bump) {
            Some(address) => {
                return Some((address, bump));
            },
            None => {},
        }
        if bump == 0 {
            proof {
                assert(find_derived_from(wallet@, mint@, program_id@, token_program_id@, -1)
                    is None);
                assert(find_derived_from(wallet@, mint@, program_id@, token_program_id@, 0)
                    is None);
            }
            return None;
        }
        bump = bump - 1;
    }
}

/// Derives the associated token account address and bump seed for the given
/// wallet address, token mint, deriving program and token program.
pub fn get_associated_token_address_and_bump_seed(
    wallet_address: &Pubkey,
    token_mint_address: &Pubkey,
    program_id: &Pubkey,
    token_program_id: &Pubkey,
) -> (r: (Pubkey, u8))
    requires
        spec_derived_address(wallet_address@, token_mint_address@, program_id@, token_program_id@)
            is Some,
    ensures
        Some((r.0@, r.1)) == spec_derived_address(
            wallet_address@, token_mint_address@, program_id@, token_program_id@),
        !on_curve(r.0@),
{
    match try_find_derived_address(wallet_address, token_mint_address, program_id,
        token_program_id) {
        Some(pair) => pair,
        None => vstd::pervasive::unreached(),
    }
}

/// For internal use only.
pub fn get_associated_token_address_and_bump_seed_internal(
    wallet_address: &Pubkey,
    token_mint_address: &Pubkey,
    program_id: &Pubkey,
    token_program_id: &Pubkey,
) -> (r: (Pubkey, u8))
    requires
        spec_derived_address(wallet_address@, token_mint_address@, program_id@, token_program_id@)
            is Some,
    ensures
        Some((r.0@, r.1)) == spec_derived_address(
            wallet_address@, token_mint_address@, program_id@, token_program_id@),
        !on_curve(r.0@),
{
    get_associated_token_address_and_bump_seed(wallet_address, token_mint_address, program_id,
        token_program_id)
}

/// Derives the associated token account address for the given wallet
/// address, token mint and token program id.
pub fn get_associated_token_address_with_program_id(
    wallet_address: &Pubkey,
    token_mint_address: &Pubkey,
    token_program_id: &Pubkey,
) -> (r: Pubkey)
    requires
        spec_derived_address(wallet_address@, token_mint_address@, PROGRAM_ID@, token_program_id@)
            is Some,
    ensures
        Some(r@) == match spec_derived_address(
            wallet_address@, token_mint_address@, PROGRAM_ID@, token_program_id@) {
            Some((address, bump)) => Some(address),
            None => None,
        },
        !on_curve(r@),
{
    let pair = get_associated_token_address_and_bump_seed(wallet_address, token_mint_address,
        &PROGRAM_ID, token_program_id);
    pair.0
}

/// Derives the associated token account address for the given wallet address
/// and token mint, under the canonical token program.
pub fn get_associated_token_address(
    wallet_address: &Pubkey,
    token_mint_address: &Pubkey,
) -> (r: Pubkey)
    requires
        spec_derived_address(wallet_address@, token_mint_address@, PROGRAM_ID@,
            TOKEN_PROGRAM_ID@) is Some,
    ensures
        Some(r@) == match spec_derived_address(
            wallet_address@, token_mint_address@, PROGRAM_ID@, TOKEN_PROGRAM_ID@) {
            Some((address, bump)) => Some(address),
            None => None,
        },
        !on_curve(r@),
{
    get_associated_token_address_with_program_id(wallet_address, token_mint_address,
        &TOKEN_PROGRAM_ID)
}

/// Derives the associated token account address for the given wallet address
/// and token mint, reporting failure of the bump search instead of
/// demanding its success up front.
pub fn try_get_associated_token_address(
    wallet_address: &Pubkey,
    token_mint_address: &Pubkey,
) -> (r: Option<Pubkey>)
    ensures
        r is Some ==> Some(r->0@) == match spec_derived_address(
            wallet_address@, token_mint_address@, PROGRAM_ID@, TOKEN_PROGRAM_ID@) {
            Some((address, bump)) => Some(address),
            None => None,
        },
        r is Some ==> !on_curve(r->0@),
        r is None ==> spec_derived_address(wallet_address@, token_mint_address@, PROGRAM_ID@,
            TOKEN_PROGRAM_ID@) is None,
{
    match try_find_derived_address(wallet_address, token_mint_address, &PROGRAM_ID,
        &TOKEN_PROGRAM_ID) {
        Some(_) => Some(get_associated_token_address(wallet_address, token_mint_address)),
        None => None,
    }
}

} // verus!
