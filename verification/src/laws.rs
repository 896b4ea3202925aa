//! The guarantees the authorization engine gives, stated and proved over the
//! decision functions' specifications.

use vstd::prelude::*;
use crate::addr::AccountV;
use crate::error::WalletError;
use crate::processor::{
    spec_check_create, spec_meta, spec_proxy_call, CreateActionV, ForwardedCallV,
};
use crate::state::{spec_load, Key, RecordV};

verus! {

/// Create is idempotent: once a create has populated the wallet slot, a
/// repeated create for the same accounts succeeds as a no-op, asking for no
/// mutation at all, whatever bytes the slot now holds.
pub proof fn lemma_create_idempotent(
    first: AccountV,
    second: AccountV,
    authority: AccountV,
    vault: AccountV,
    payer: AccountV,
    system_program: AccountV,
    expected_wallet: Seq<u8>,
    wallet_bump: u8,
    expected_vault: Seq<u8>,
    vault_bump: u8,
)
    requires
        spec_check_create(
            first,
            authority,
            vault,
            payer,
            system_program,
            expected_wallet,
            wallet_bump,
            expected_vault,
            vault_bump,
        ) is Ok,
        second.key == first.key,
        second.data.len() > 0,
    ensures
        spec_check_create(
            second,
            authority,
            vault,
            payer,
            system_program,
            expected_wallet,
            wallet_bump,
            expected_vault,
            vault_bump,
        ) == Ok::<CreateActionV, WalletError>(CreateActionV::AlreadyExists),
{
}

/// Create fails with `MissingSigner` when the authority did not sign, even
/// when both supplied addresses match their canonical derivations.
pub proof fn lemma_create_needs_authority_signature(
    wallet: AccountV,
    authority: AccountV,
    vault: AccountV,
    payer: AccountV,
    system_program: AccountV,
    expected_wallet: Seq<u8>,
    wallet_bump: u8,
    expected_vault: Seq<u8>,
    vault_bump: u8,
)
    requires
        wallet.key == expected_wallet,
        vault.key == expected_vault,
        !authority.is_signer,
    ensures
        spec_check_create(
            wallet,
            authority,
            vault,
            payer,
            system_program,
            expected_wallet,
            wallet_bump,
            expected_vault,
            vault_bump,
        ) == Err::<CreateActionV, WalletError>(WalletError::MissingSigner),
{
}

/// Create fails with `InvalidDerivation` when the supplied vault address is
/// not the canonical vault derivation for the wallet address.
pub proof fn lemma_create_needs_canonical_vault(
    wallet: AccountV,
    authority: AccountV,
    vault: AccountV,
    payer: AccountV,
    system_program: AccountV,
    expected_wallet: Seq<u8>,
    wallet_bump: u8,
    expected_vault: Seq<u8>,
    vault_bump: u8,
)
    requires
        wallet.key == expected_wallet,
        vault.key != expected_vault,
    ensures
        spec_check_create(
            wallet,
            authority,
            vault,
            payer,
            system_program,
            expected_wallet,
            wallet_bump,
            expected_vault,
            vault_bump,
        ) == Err::<CreateActionV, WalletError>(WalletError::InvalidDerivation),
{
}

/// A proxy call fails with `MissingSigner` when the supplied authority does
/// not match the record's stored authority, or did not sign — whatever the
/// supplied wallet and vault addresses are.
pub proof fn lemma_proxy_needs_stored_authority(
    wallet: AccountV,
    authority: AccountV,
    vault: AccountV,
    target_program: AccountV,
    remaining: Seq<AccountV>,
    payload: Seq<u8>,
    rec: RecordV,
)
    requires
        spec_load(wallet.data) == Some(rec),
        rec.key == Key::Wallet,
        authority.key != rec.authority || !authority.is_signer,
    ensures
        spec_proxy_call(wallet, authority, vault, target_program, remaining, payload) == Err::<
            ForwardedCallV,
            WalletError,
        >(WalletError::MissingSigner),
{
}

/// A successful proxy call forwards exactly the supplied accounts, in their
/// order; the signer flag is forced on exactly where an account's address
/// equals the vault's, every other account keeps the signer flag it was
/// supplied with, every account keeps its supplied writability, and the
/// payload and target pass through unchanged.
pub proof fn lemma_proxy_forces_exactly_the_vault_flag(
    wallet: AccountV,
    authority: AccountV,
    vault: AccountV,
    target_program: AccountV,
    remaining: Seq<AccountV>,
    payload: Seq<u8>,
    fc: ForwardedCallV,
)
    requires
        spec_proxy_call(wallet, authority, vault, target_program, remaining, payload) == Ok::<
            ForwardedCallV,
            WalletError,
        >(fc),
    ensures
        fc.target == target_program.key,
        fc.payload == payload,
        fc.accounts.len() == remaining.len(),
        forall|i: int|
            0 <= i < remaining.len() ==> #[trigger] fc.accounts[i].key == remaining[i].key,
        forall|i: int|
            0 <= i < remaining.len() ==> (#[trigger] fc.accounts[i].is_signer <==> (
            remaining[i].key == vault.key || remaining[i].is_signer)),
        forall|i: int|
            0 <= i < remaining.len() ==> #[trigger] fc.accounts[i].is_writable == remaining[i].is_writable,
{
    assert forall|i: int| 0 <= i < remaining.len() implies #[trigger] fc.accounts[i].key
        == remaining[i].key by {
        assert(fc.accounts[i] == spec_meta(remaining[i], vault.key));
    }
    assert forall|i: int| 0 <= i < remaining.len() implies (#[trigger] fc.accounts[i].is_signer
        <==> (remaining[i].key == vault.key || remaining[i].is_signer)) by {
        assert(fc.accounts[i] == spec_meta(remaining[i], vault.key));
    }
    assert forall|i: int| 0 <= i < remaining.len() implies #[trigger] fc.accounts[i].is_writable
        == remaining[i].is_writable by {
        assert(fc.accounts[i] == spec_meta(remaining[i], vault.key));
    }
}

} // verus!
