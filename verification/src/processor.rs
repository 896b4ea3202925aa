//! The authorization engine. Each operation is a single decision from the
//! supplied account references to either an error or an action for the host
//! ledger to perform: allocate-and-write the wallet record, do nothing, or
//! invoke a forwarded call with the vault asserted as delegated co-signer.

use vstd::prelude::*;
use crate::addr::{Address, AccountRef, AccountV, CallAccount, CallAccountV, ADDRESS_LEN};
use crate::error::WalletError;
use crate::instruction::{WalletInstruction, parse_instruction, spec_parse_instruction};
use crate::pda::{
    pda_of, seeds_view, try_find_pda, vault_seed_list, vault_seeds_spec, wallet_seed_list,
    wallet_seeds_spec,
};
use crate::state::{Key, RecordV, WalletAccount, spec_load};

verus! {

/// The well-known address of the system allocation facility: 32 zero bytes.
pub open spec fn system_id() -> Seq<u8> {
    Seq::new(ADDRESS_LEN as nat, |i: int| 0u8)
}

pub fn system_allocator_address() -> (r: Address)
    ensures
        r@ == system_id(),
        r.wf(),
{
    let mut bytes: Vec<u8> = Vec::new();
    let mut i: usize = 0;
    while i < ADDRESS_LEN
        invariant
            i <= ADDRESS_LEN,
            bytes@.len() == i,
            forall|k: int| 0 <= k < i ==> bytes@[k] == 0u8,
        decreases ADDRESS_LEN - i,
    {
        bytes.push(0u8);
        i = i + 1;
    }
    proof {
        assert(bytes@ =~= system_id());
    }
    Address { bytes }
}

/// The spec-level image of a create decision.
#[verifier::ext_equal]
pub ghost enum CreateActionV {
    AlreadyExists,
    CreateWallet { record: RecordV, wallet_bump: u8, signer_seeds: Seq<Seq<u8>> },
}

/// What a successful create asks the host to do: nothing, when the wallet
/// slot is already populated; otherwise allocate a slot of the record's size
/// at the wallet address, proving the allocation with the wallet's own
/// derivation seeds plus its bump, and write the record into it.
#[derive(Debug)]
pub enum CreateAction {
    AlreadyExists,
    CreateWallet { record: WalletAccount, wallet_bump: u8, signer_seeds: Vec<Vec<u8>> },
}

impl View for CreateAction {
    type V = CreateActionV;

    open spec fn view(&self) -> CreateActionV {
        match self {
            CreateAction::AlreadyExists => CreateActionV::AlreadyExists,
            CreateAction::CreateWallet { record, wallet_bump, signer_seeds } => {
                CreateActionV::CreateWallet {
                    record: record@,
                    wallet_bump: *wallet_bump,
                    signer_seeds: seeds_view(signer_seeds@),
                }
            },
        }
    }
}

pub open spec fn create_result_view(r: Result<CreateAction, WalletError>) -> Result<
    CreateActionV,
    WalletError,
> {
    match r {
        Ok(a) => Ok(a@),
        Err(e) => Err(e),
    }
}

/// The create decision, once the canonical wallet and vault derivations are
/// in hand. The guards run in order; the first violated one names the error.
pub open spec fn spec_check_create(
    wallet: AccountV,
    authority: AccountV,
    vault: AccountV,
    payer: AccountV,
    system_program: AccountV,
    expected_wallet: Seq<u8>,
    wallet_bump: u8,
    expected_vault: Seq<u8>,
    vault_bump: u8,
) -> Result<CreateActionV, WalletError> {
    if wallet.key != expected_wallet {
        Err(WalletError::InvalidDerivation)
    } else if vault.key != expected_vault {
        Err(WalletError::InvalidDerivation)
    } else if !authority.is_signer {
        Err(WalletError::MissingSigner)
    } else if !payer.is_signer {
        Err(WalletError::MissingSigner)
    } else if !payer.is_writable {
        Err(WalletError::NotWritable)
    } else if system_program.key != system_id() {
        Err(WalletError::WrongAllocator)
    } else if wallet.data.len() > 0 {
        // Deliberately silent: a populated slot means success with no
        // mutation, so a replayed creation cannot fail; the bytes already
        // there are not re-validated.
        Ok(CreateActionV::AlreadyExists)
    } else {
        Ok(
            CreateActionV::CreateWallet {
                record: RecordV {
                    key: Key::Wallet,
                    authority: authority.key,
                    vault: vault.key,
                    vault_bump,
                },
                wallet_bump,
                signer_seeds: wallet_seeds_spec(authority.key).push(seq![wallet_bump]),
            },
        )
    }
}

/// The create guards and decision, taking the canonical derivations as
/// arguments. Verified for every value the derivation could take.
pub fn check_create(
    wallet: &AccountRef,
    authority: &AccountRef,
    vault: &AccountRef,
    payer: &AccountRef,
    system_program: &AccountRef,
    expected_wallet: &Address,
    wallet_bump: u8,
    expected_vault: &Address,
    vault_bump: u8,
) -> (r: Result<CreateAction, WalletError>)
    ensures
        create_result_view(r) == spec_check_create(
            wallet@,
            authority@,
            vault@,
            payer@,
            system_program@,
            expected_wallet@,
            wallet_bump,
            expected_vault@,
            vault_bump,
        ),
        (authority.wf() && vault.wf()) ==> (r matches Ok(
            CreateAction::CreateWallet { record, .. },
        ) ==> record.wf()),
{
    if !wallet.key.eq_addr(expected_wallet) {
        return Err(WalletError::InvalidDerivation);
    }
    if !vault.key.eq_addr(expected_vault) {
        return Err(WalletError::InvalidDerivation);
    }
    if !authority.is_signer {
        return Err(WalletError::MissingSigner);
    }
    if !payer.is_signer {
        return Err(WalletError::MissingSigner);
    }
    if !payer.is_writable {
        return Err(WalletError::NotWritable);
    }
    let allocator = system_allocator_address();
    if !system_program.key.eq_addr(&allocator) {
        return Err(WalletError::WrongAllocator);
    }
    if wallet.data.len() > 0 {
        return Ok(CreateAction::AlreadyExists);
    }
    let record = WalletAccount {
        key: Key::Wallet,
        authority: authority.key.dup(),
        vault: vault.key.dup(),
        vault_bump,
    };
    let mut signer_seeds = wallet_seed_list(&authority.key);
    let mut bump_bytes: Vec<u8> = Vec::new();
    bump_bytes.push(wallet_bump);
    signer_seeds.push(bump_bytes);
    let r = Ok(CreateAction::CreateWallet { record, wallet_bump, signer_seeds });
    proof {
        assert(seeds_view(signer_seeds@) =~~= wallet_seeds_spec(authority@.key).push(
            seq![wallet_bump],
        ));
    }
    r
}

/// The create operation: derive the canonical wallet and vault addresses for
/// the supplied authority and wallet, then decide. A derivation that fails
/// to produce an address is reported as `InvalidDerivation`, as a mismatched
/// one is.
pub fn create(
    wallet: &AccountRef,
    authority: &AccountRef,
    vault: &AccountRef,
    payer: &AccountRef,
    system_program: &AccountRef,
    program_id: &Address,
) -> (r: Result<CreateAction, WalletError>)
    requires
        program_id.wf(),
    ensures
        (match (
            pda_of(wallet_seeds_spec(authority@.key), program_id@),
            pda_of(vault_seeds_spec(wallet@.key), program_id@),
        ) {
            (Some(wp), Some(vp)) => create_result_view(r) == spec_check_create(
                wallet@,
                authority@,
                vault@,
                payer@,
                system_program@,
                wp.0,
                wp.1,
                vp.0,
                vp.1,
            ),
            _ => r == Err::<CreateAction, WalletError>(WalletError::InvalidDerivation),
        }),
        (authority.wf() && vault.wf()) ==> (r matches Ok(
            CreateAction::CreateWallet { record, .. },
        ) ==> record.wf()),
{
    let wallet_seeds = wallet_seed_list(&authority.key);
    let (expected_wallet, wallet_bump) = match try_find_pda(&wallet_seeds, program_id) {
        Some(p) => p,
        None => {
            return Err(WalletError::InvalidDerivation);
        },
    };
    if !wallet.key.eq_addr(&expected_wallet) {
        return Err(WalletError::InvalidDerivation);
    }
    let vault_seeds = vault_seed_list(&wallet.key);
    let (expected_vault, vault_bump) = match try_find_pda(&vault_seeds, program_id) {
        Some(p) => p,
        None => {
            return Err(WalletError::InvalidDerivation);
        },
    };
    check_create(
        wallet,
        authority,
        vault,
        payer,
        system_program,
        &expected_wallet,
        wallet_bump,
        &expected_vault,
        vault_bump,
    )
}

/// The spec-level image of a forwarded call.
#[verifier::ext_equal]
pub ghost struct ForwardedCallV {
    pub target: Seq<u8>,
    pub payload: Seq<u8>,
    pub accounts: Seq<CallAccountV>,
    pub signer_seeds: Seq<Seq<u8>>,
}

/// A forwarded call, ready for the host's invocation facility: the target
/// program, the payload verbatim, the transformed account list, and the
/// vault's derivation seeds as the delegated signing proof.
#[derive(Debug)]
pub struct ForwardedCall {
    pub target: Address,
    pub payload: Vec<u8>,
    pub accounts: Vec<CallAccount>,
    pub signer_seeds: Vec<Vec<u8>>,
}

impl View for ForwardedCall {
    type V = ForwardedCallV;

    open spec fn view(&self) -> ForwardedCallV {
        ForwardedCallV {
            target: self.target@,
            payload: self.payload@,
            accounts: calls_view(self.accounts@),
            signer_seeds: seeds_view(self.signer_seeds@),
        }
    }
}

pub open spec fn forward_result_view(r: Result<ForwardedCall, WalletError>) -> Result<
    ForwardedCallV,
    WalletError,
> {
    match r {
        Ok(f) => Ok(f@),
        Err(e) => Err(e),
    }
}

pub open spec fn accounts_view(s: Seq<AccountRef>) -> Seq<AccountV> {
    s.map_values(|a: AccountRef| a@)
}

pub open spec fn calls_view(s: Seq<CallAccount>) -> Seq<CallAccountV> {
    s.map_values(|c: CallAccount| c@)
}

/// The one transformation the forwarded account list undergoes: an account
/// at the vault's address has its signer flag forced on, every other keeps
/// the signer flag it was supplied with; the writability of every account
/// passes through unchanged.
pub open spec fn spec_meta(a: AccountV, vault_key: Seq<u8>) -> CallAccountV {
    CallAccountV {
        key: a.key,
        is_signer: if a.key == vault_key {
            true
        } else {
            a.is_signer
        },
        is_writable: a.is_writable,
    }
}

pub open spec fn metas_of(remaining: Seq<AccountV>, vault_key: Seq<u8>) -> Seq<CallAccountV> {
    remaining.map_values(|a: AccountV| spec_meta(a, vault_key))
}

/// The proxy-call decision: load the record, gate on the stored authority's
/// signature, and build the forwarded call with the vault's seeds as the
/// delegated signing proof.
pub open spec fn spec_proxy_call(
    wallet: AccountV,
    authority: AccountV,
    vault: AccountV,
    target_program: AccountV,
    remaining: Seq<AccountV>,
    payload: Seq<u8>,
) -> Result<ForwardedCallV, WalletError> {
    match spec_load(wallet.data) {
        None => Err(WalletError::InvalidAccountData),
        Some(rec) => {
            if rec.key != Key::Wallet {
                Err(WalletError::InvalidAccountData)
            } else if authority.key != rec.authority || !authority.is_signer {
                Err(WalletError::MissingSigner)
            } else {
                Ok(
                    ForwardedCallV {
                        target: target_program.key,
                        payload: payload,
                        accounts: metas_of(remaining, vault.key),
                        signer_seeds: vault_seeds_spec(wallet.key).push(seq![rec.vault_bump]),
                    },
                )
            }
        },
    }
}

/// The proxy-call operation. Nothing is mutated: the result is the forwarded
/// call for the host to invoke, or the error that rejects the operation.
pub fn proxy_call(
    wallet: &AccountRef,
    authority: &AccountRef,
    vault: &AccountRef,
    target_program: &AccountRef,
    remaining: &Vec<AccountRef>,
    payload: Vec<u8>,
) -> (r: Result<ForwardedCall, WalletError>)
    ensures
        forward_result_view(r) == spec_proxy_call(
            wallet@,
            authority@,
            vault@,
            target_program@,
            accounts_view(remaining@),
            payload@,
        ),
{
    let record = match WalletAccount::load(wallet) {
        Ok(rec) => rec,
        Err(e) => {
            return Err(e);
        },
    };
    if !matches!(record.key, Key::Wallet) {
        return Err(WalletError::InvalidAccountData);
    }
    if !authority.key.eq_addr(&record.authority) || !authority.is_signer {
        return Err(WalletError::MissingSigner);
    }
    let mut signer_seeds = vault_seed_list(&wallet.key);
    let mut bump_bytes: Vec<u8> = Vec::new();
    bump_bytes.push(record.vault_bump);
    signer_seeds.push(bump_bytes);
    let mut metas: Vec<CallAccount> = Vec::new();
    let mut i: usize = 0;
    while i < remaining.len()
        invariant
            i <= remaining@.len(),
            metas@.len() == i,
            forall|k: int|
                0 <= k < i ==> #[trigger] metas@[k]@ == spec_meta(
                    accounts_view(remaining@)[k],
                    vault@.key,
                ),
        decreases remaining@.len() - i,
    {
        let a = &remaining[i];
        let forced = a.key.eq_addr(&vault.key);
        let m = CallAccount {
            key: a.key.dup(),
            is_signer: if forced {
                true
            } else {
                a.is_signer
            },
            is_writable: a.is_writable,
        };
        metas.push(m);
        proof {
            assert(metas@[i as int]@ == spec_meta(accounts_view(remaining@)[i as int], vault@.key));
        }
        i = i + 1;
    }
    proof {
        assert(calls_view(metas@) =~= metas_of(accounts_view(remaining@), vault@.key));
    }
    let r = ForwardedCall { target: target_program.key.dup(), payload, accounts: metas, signer_seeds };
    proof {
        assert(accounts_view(remaining@).subrange(0, remaining@.len() as int) =~= accounts_view(
            remaining@,
        ));
        assert(seeds_view(signer_seeds@) =~~= vault_seeds_spec(wallet@.key).push(
            seq![record.vault_bump],
        ));
        assert(r@ =~~= spec_proxy_call(
            wallet@,
            authority@,
            vault@,
            target_program@,
            accounts_view(remaining@),
            payload@,
        )->Ok_0);
    }
    Ok(r)
}

/// The spec-level image of a dispatched operation's outcome.
#[verifier::ext_equal]
pub ghost enum ActionV {
    Create(CreateActionV),
    Forward(ForwardedCallV),
}

/// What a dispatched operation asks the host to perform.
#[derive(Debug)]
pub enum Action {
    Create(CreateAction),
    Forward(ForwardedCall),
}

impl View for Action {
    type V = ActionV;

    open spec fn view(&self) -> ActionV {
        match self {
            Action::Create(a) => ActionV::Create(a@),
            Action::Forward(f) => ActionV::Forward(f@),
        }
    }
}

pub open spec fn action_result_view(r: Result<Action, WalletError>) -> Result<
    ActionV,
    WalletError,
> {
    match r {
        Ok(a) => Ok(a@),
        Err(e) => Err(e),
    }
}

/// The whole dispatch: parse the selector, take the operation's leading
/// accounts in their required order, and decide. A create takes wallet,
/// authority, vault, payer and allocator; a proxy call takes wallet,
/// authority, vault and target, and forwards every account after them.
pub open spec fn spec_process(
    program_id: Seq<u8>,
    accounts: Seq<AccountV>,
    data: Seq<u8>,
) -> Result<ActionV, WalletError> {
    match spec_parse_instruction(data) {
        Err(e) => Err(e),
        Ok((ix, payload)) => match ix {
            WalletInstruction::Create => {
                if accounts.len() < 5 {
                    Err(WalletError::NotEnoughAccounts)
                } else {
                    match (
                        pda_of(wallet_seeds_spec(accounts[1].key), program_id),
                        pda_of(vault_seeds_spec(accounts[0].key), program_id),
                    ) {
                        (Some(wp), Some(vp)) => match spec_check_create(
                            accounts[0],
                            accounts[1],
                            accounts[2],
                            accounts[3],
                            accounts[4],
                            wp.0,
                            wp.1,
                            vp.0,
                            vp.1,
                        ) {
                            Ok(a) => Ok(ActionV::Create(a)),
                            Err(e) => Err(e),
                        },
                        _ => Err(WalletError::InvalidDerivation),
                    }
                }
            },
            WalletInstruction::ProxyCall => {
                if accounts.len() < 4 {
                    Err(WalletError::NotEnoughAccounts)
                } else {
                    match spec_proxy_call(
                        accounts[0],
                        accounts[1],
                        accounts[2],
                        accounts[3],
                        accounts.skip(4),
                        payload,
                    ) {
                        Ok(f) => Ok(ActionV::Forward(f)),
                        Err(e) => Err(e),
                    }
                }
            },
        },
    }
}

/// Dispatch one inbound operation: selector and payload in `instruction_data`,
/// account references in the order the operation requires.
pub fn process_instruction(
    program_id: &Address,
    accounts: Vec<AccountRef>,
    instruction_data: &Vec<u8>,
) -> (r: Result<Action, WalletError>)
    requires
        program_id.wf(),
    ensures
        action_result_view(r) == spec_process(
            program_id@,
            accounts_view(accounts@),
            instruction_data@,
        ),
{
    let mut accounts = accounts;
    let (instruction, payload) = match parse_instruction(instruction_data) {
        Ok(p) => p,
        Err(e) => {
            return Err(e);
        },
    };
    match instruction {
        WalletInstruction::Create => {
            if accounts.len() < 5 {
                return Err(WalletError::NotEnoughAccounts);
            }
            match create(
                &accounts[0],
                &accounts[1],
                &accounts[2],
                &accounts[3],
                &accounts[4],
                program_id,
            ) {
                Ok(a) => Ok(Action::Create(a)),
                Err(e) => Err(e),
            }
        },
        WalletInstruction::ProxyCall => {
            if accounts.len() < 4 {
                return Err(WalletError::NotEnoughAccounts);
            }
            let ghost all = accounts_view(accounts@);
            let remaining = accounts.split_off(4);
            proof {
                assert(accounts_view(remaining@) =~= all.skip(4));
                assert(accounts@[0]@ == all[0]);
                assert(accounts@[1]@ == all[1]);
                assert(accounts@[2]@ == all[2]);
                assert(accounts@[3]@ == all[3]);
            }
            match proxy_call(
                &accounts[0],
                &accounts[1],
                &accounts[2],
                &accounts[3],
                &remaining,
                payload,
            ) {
                Ok(f) => Ok(Action::Forward(f)),
                Err(e) => Err(e),
            }
        },
    }
}

} // verus!
