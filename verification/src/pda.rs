//! Deterministic address derivation. A derived address is a pure function of
//! a domain tag, the ordered seed byte-strings, and the program id; a single
//! bump byte certifies that the derivation is the canonical one. The search
//! itself is done by the ledger crate; everything around it is verified
//! against the name `pda_of` given to its result.

use vstd::prelude::*;
use crate::addr::Address;

verus! {

/// The domain tag of wallet derivations: the ASCII bytes of "WALLET".
pub open spec fn wallet_tag() -> Seq<u8> {
    seq![87u8, 65u8, 76u8, 76u8, 69u8, 84u8]
}

/// The domain tag of vault derivations: the ASCII bytes of "VAULT".
pub open spec fn vault_tag() -> Seq<u8> {
    seq![86u8, 65u8, 85u8, 76u8, 84u8]
}

/// The seed list a wallet address is derived from.
pub open spec fn wallet_seeds_spec(authority: Seq<u8>) -> Seq<Seq<u8>> {
    seq![wallet_tag(), authority]
}

/// The seed list a vault address is derived from.
pub open spec fn vault_seeds_spec(wallet: Seq<u8>) -> Seq<Seq<u8>> {
    seq![vault_tag(), wallet]
}

/// The canonical derivation: the address and bump that the ledger's
/// derivation search yields for these seeds under this program id, or `None`
/// when the seed list itself is unusable (too many seeds, or one over the
/// length cap) or, improbably, no bump byte yields a usable address.
pub uninterp spec fn pda_of(seeds: Seq<Seq<u8>>, program_id: Seq<u8>) -> Option<(Seq<u8>, u8)>;

pub fn wallet_tag_bytes() -> (r: Vec<u8>)
    ensures
        r@ == wallet_tag(),
{
    let r: Vec<u8> = vec![87u8, 65u8, 76u8, 76u8, 69u8, 84u8];
    proof {
        assert(r@ =~= wallet_tag());
    }
    r
}

pub fn vault_tag_bytes() -> (r: Vec<u8>)
    ensures
        r@ == vault_tag(),
{
    let r: Vec<u8> = vec![86u8, 65u8, 85u8, 76u8, 84u8];
    proof {
        assert(r@ =~= vault_tag());
    }
    r
}

/// The view of an exec seed list as the seed sequence the derivation takes.
pub open spec fn seeds_view(seeds: Seq<Vec<u8>>) -> Seq<Seq<u8>> {
    seeds.map_values(|s: Vec<u8>| s@)
}

pub fn wallet_seed_list(authority: &Address) -> (r: Vec<Vec<u8>>)
    ensures
        seeds_view(r@) == wallet_seeds_spec(authority@),
{
    let mut r: Vec<Vec<u8>> = Vec::new();
    r.push(wallet_tag_bytes());
    r.push(authority.bytes.clone());
    proof {
        assert(seeds_view(r@) =~= wallet_seeds_spec(authority@));
    }
    r
}

pub fn vault_seed_list(wallet: &Address) -> (r: Vec<Vec<u8>>)
    ensures
        seeds_view(r@) == vault_seeds_spec(wallet@),
{
    let mut r: Vec<Vec<u8>> = Vec::new();
    r.push(vault_tag_bytes());
    r.push(wallet.bytes.clone());
    proof {
        assert(seeds_view(r@) =~= vault_seeds_spec(wallet@));
    }
    r
}

/// Relies on solana_program's `Pubkey::try_find_program_address`: the derived
/// address and its bump seed depend on the seeds and the program id alone,
/// the returned address is 32 bytes, and `None` comes back exactly when the
/// seed list is unusable or the search finds no bump byte that yields a
/// usable address.
#[verifier::external_body]
pub(crate) fn try_find_pda(seeds: &Vec<Vec<u8>>, program_id: &Address) -> (r: Option<(Address, u8)>)
    requires
        program_id.wf(),
    ensures
        (match pda_of(seeds_view(seeds@), program_id@) {
            Some((a, b)) => r matches Some(p) && p.0.wf() && p.0@ == a && p.1 == b,
            None => r is None,
        }),
{
    let slices: Vec<&[u8]> = seeds.iter().map(|s| s.as_slice()).collect();
    let arr: [u8; 32] = match program_id.bytes.as_slice().try_into() {
        Ok(a) => a,
        Err(_) => return None,
    };
    let pid = solana_program::pubkey::Pubkey::new_from_array(arr);
    solana_program::pubkey::Pubkey::try_find_program_address(&slices, &pid)
        .map(|(k, bump)| (Address { bytes: k.to_bytes().to_vec() }, bump))
}

/// The canonical vault address and bump for this wallet address under this
/// program id, or `None` if the derivation search finds no bump.
pub fn find_vault_pda(wallet: &Address, program_id: &Address) -> (r: Option<(Address, u8)>)
    requires
        program_id.wf(),
    ensures
        (match pda_of(vault_seeds_spec(wallet@), program_id@) {
            Some((a, b)) => r matches Some(p) && p.0.wf() && p.0@ == a && p.1 == b,
            None => r is None,
        }),
{
    let seeds = vault_seed_list(wallet);
    try_find_pda(&seeds, program_id)
}

/// Derivation is deterministic: any two results of the canonical derivation
/// for the same seeds under the same program id are the same address and
/// bump.
pub proof fn lemma_derivation_deterministic(
    r1: Option<(Seq<u8>, u8)>,
    r2: Option<(Seq<u8>, u8)>,
    seeds: Seq<Seq<u8>>,
    program_id: Seq<u8>,
)
    requires
        r1 == pda_of(seeds, program_id),
        r2 == pda_of(seeds, program_id),
    ensures
        r1 == r2,
{
}

} // verus!
