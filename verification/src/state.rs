//! The wallet record: the one persisted structure, binding an authority to
//! its vault. Fixed binary layout of 66 bytes: one record-kind tag byte, the
//! 32-byte authority, the 32-byte vault, and the vault's bump byte.

use vstd::prelude::*;
use crate::addr::{Address, AccountRef, ADDRESS_LEN};
use crate::error::WalletError;
use crate::pda::{pda_of, seeds_view, wallet_seed_list, wallet_seeds_spec, try_find_pda};

verus! {

/// The record kinds a storage slot can hold, guarding against type
/// confusion when a wrong account is passed.
#[derive(Clone, Copy, Debug, PartialEq, Eq, Structural)]
pub enum Key {
    Uninitialized,
    Wallet,
}

/// The tag byte a record kind is stored as.
pub open spec fn key_tag(k: Key) -> u8 {
    match k {
        Key::Uninitialized => 0,
        Key::Wallet => 1,
    }
}

/// The spec-level image of a wallet record.
pub ghost struct RecordV {
    pub key: Key,
    pub authority: Seq<u8>,
    pub vault: Seq<u8>,
    pub vault_bump: u8,
}

impl RecordV {
    pub open spec fn wf(&self) -> bool {
        self.authority.len() == ADDRESS_LEN && self.vault.len() == ADDRESS_LEN
    }
}

/// The wallet record. `authority`, `vault` and `vault_bump` are set once at
/// creation and never mutated afterwards.
#[derive(Debug)]
pub struct WalletAccount {
    pub key: Key,
    pub authority: Address,
    pub vault: Address,
    pub vault_bump: u8,
}

impl View for WalletAccount {
    type V = RecordV;

    open spec fn view(&self) -> RecordV {
        RecordV {
            key: self.key,
            authority: self.authority@,
            vault: self.vault@,
            vault_bump: self.vault_bump,
        }
    }
}

/// The serialized form of a record: tag byte, authority, vault, bump byte.
pub open spec fn spec_save(r: RecordV) -> Seq<u8> {
    seq![key_tag(r.key)] + r.authority + r.vault + seq![r.vault_bump]
}

/// What a byte string parses to as a wallet record: `None` unless its first
/// 66 bytes form one record of the fixed layout with a known tag byte; any
/// bytes after the record are ignored, as a storage slot may be roomier
/// than the record.
pub open spec fn spec_load(b: Seq<u8>) -> Option<RecordV> {
    if b.len() >= WalletAccount::LEN && (b[0] == 0 || b[0] == 1) {
        Some(RecordV {
            key: if b[0] == 0 { Key::Uninitialized } else { Key::Wallet },
            authority: b.subrange(1, 33),
            vault: b.subrange(33, 65),
            vault_bump: b[65],
        })
    } else {
        None
    }
}

impl WalletAccount {
    /// The byte length of the serialized record.
    pub const LEN: usize = 1 + 32 + 32 + 1;

    pub open spec fn wf(&self) -> bool {
        self.authority.wf() && self.vault.wf()
    }

    /// The seed list the wallet's own address is derived from.
    pub fn seeds(authority: &Address) -> (r: Vec<Vec<u8>>)
        ensures
            seeds_view(r@) == wallet_seeds_spec(authority@),
    {
        wallet_seed_list(authority)
    }

    /// The canonical wallet address and bump for this authority under this
    /// program id, or `None` if the derivation search finds no bump.
    pub fn find_pda(authority: &Address, program_id: &Address) -> (r: Option<(Address, u8)>)
        requires
            program_id.wf(),
        ensures
            (match pda_of(wallet_seeds_spec(authority@), program_id@) {
                Some((a, b)) => r matches Some(p) && p.0.wf() && p.0@ == a && p.1 == b,
                None => r is None,
            }),
    {
        let seeds = Self::seeds(authority);
        try_find_pda(&seeds, program_id)
    }

    /// The serialized bytes of this record.
    pub fn to_bytes(&self) -> (r: Vec<u8>)
        ensures
            r@ == spec_save(self@),
            self.wf() ==> r@.len() == WalletAccount::LEN,
    {
        let mut r: Vec<u8> = Vec::new();
        r.push(match self.key {
            Key::Uninitialized => 0u8,
            Key::Wallet => 1u8,
        });
        let mut i: usize = 0;
        while i < self.authority.bytes.len()
            invariant
                i <= self.authority.bytes.len(),
                r@ == seq![key_tag(self.key)] + self.authority@.subrange(0, i as int),
            decreases self.authority.bytes.len() - i,
        {
            r.push(self.authority.bytes[i]);
            i = i + 1;
            proof {
                assert(r@ =~= seq![key_tag(self.key)] + self.authority@.subrange(0, i as int));
            }
        }
        let mut j: usize = 0;
        while j < self.vault.bytes.len()
            invariant
                j <= self.vault.bytes.len(),
                r@ == seq![key_tag(self.key)] + self.authority@ + self.vault@.subrange(
                    0,
                    j as int,
                ),
            decreases self.vault.bytes.len() - j,
        {
            r.push(self.vault.bytes[j]);
            j = j + 1;
            proof {
                assert(r@ =~= seq![key_tag(self.key)] + self.authority@ + self.vault@.subrange(
                    0,
                    j as int,
                ));
            }
        }
        r.push(self.vault_bump);
        proof {
            assert(self.authority@.subrange(0, self.authority@.len() as int) =~= self.authority@);
            assert(self.vault@.subrange(0, self.vault@.len() as int) =~= self.vault@);
            assert(r@ =~= spec_save(self@));
        }
        r
    }

    /// Parse the stored bytes of the given account as a wallet record.
    pub fn load(account: &AccountRef) -> (r: Result<WalletAccount, WalletError>)
        ensures
            (match spec_load(account.data@) {
                Some(rv) => r matches Ok(rec) && rec@ == rv && rec.wf(),
                None => r == Err::<WalletAccount, WalletError>(WalletError::InvalidAccountData),
            }),
    {
        Self::from_bytes(&account.data)
    }

    /// Parse the leading bytes of a byte string as a wallet record.
    pub fn from_bytes(bytes: &Vec<u8>) -> (r: Result<WalletAccount, WalletError>)
        ensures
            (match spec_load(bytes@) {
                Some(rv) => r matches Ok(rec) && rec@ == rv && rec.wf(),
                None => r == Err::<WalletAccount, WalletError>(WalletError::InvalidAccountData),
            }),
    {
        if bytes.len() < Self::LEN {
            return Err(WalletError::InvalidAccountData);
        }
        let key = if bytes[0] == 0 {
            Key::Uninitialized
        } else if bytes[0] == 1 {
            Key::Wallet
        } else {
            return Err(WalletError::InvalidAccountData);
        };
        let mut authority: Vec<u8> = Vec::new();
        let mut i: usize = 1;
        while i < 33
            invariant
                1 <= i <= 33,
                bytes@.len() >= WalletAccount::LEN,
                authority@ == bytes@.subrange(1, i as int),
            decreases 33 - i,
        {
            authority.push(bytes[i]);
            i = i + 1;
            proof {
                assert(authority@ =~= bytes@.subrange(1, i as int));
            }
        }
        let mut vault: Vec<u8> = Vec::new();
        let mut j: usize = 33;
        while j < 65
            invariant
                33 <= j <= 65,
                bytes@.len() >= WalletAccount::LEN,
                vault@ == bytes@.subrange(33, j as int),
            decreases 65 - j,
        {
            vault.push(bytes[j]);
            j = j + 1;
            proof {
                assert(vault@ =~= bytes@.subrange(33, j as int));
            }
        }
        let rec = WalletAccount {
            key,
            authority: Address { bytes: authority },
            vault: Address { bytes: vault },
            vault_bump: bytes[65],
        };
        Ok(rec)
    }

    /// Write this record's serialized bytes into the front of the given
    /// account's storage, leaving any bytes after them and the account's
    /// address and flags as they were. Storage too short for the record is
    /// refused untouched.
    pub fn save(&self, account: &mut AccountRef) -> (r: Result<(), WalletError>)
        ensures
            final(account).key == old(account).key,
            final(account).is_signer == old(account).is_signer,
            final(account).is_writable == old(account).is_writable,
            old(account).data@.len() >= spec_save(self@).len() ==> (r == Ok::<(), WalletError>(())
                && final(account).data@ == spec_save(self@) + old(account).data@.skip(
                spec_save(self@).len() as int,
            )),
            old(account).data@.len() < spec_save(self@).len() ==> (r == Err::<
                (),
                WalletError,
            >(WalletError::SerializationError) && final(account).data@ == old(account).data@),
    {
        let bytes = self.to_bytes();
        if account.data.len() < bytes.len() {
            return Err(WalletError::SerializationError);
        }
        let ghost old_data = account.data@;
        let prefix_len = bytes.len();
        let mut new_data = bytes;
        let mut i: usize = prefix_len;
        while i < account.data.len()
            invariant
                prefix_len == spec_save(self@).len(),
                prefix_len <= i <= account.data@.len(),
                account.data@ == old_data,
                new_data@ == spec_save(self@) + old_data.subrange(prefix_len as int, i as int),
            decreases account.data@.len() - i,
        {
            new_data.push(account.data[i]);
            i = i + 1;
            proof {
                assert(new_data@ =~= spec_save(self@) + old_data.subrange(
                    prefix_len as int,
                    i as int,
                ));
            }
        }
        account.data = new_data;
        proof {
            assert(old_data.subrange(prefix_len as int, old_data.len() as int) =~= old_data.skip(
                prefix_len as int,
            ));
        }
        Ok(())
    }
}

/// Serializing a well-formed record and parsing the bytes back yields the
/// identical record: kind, authority, vault and bump all round-trip.
pub proof fn lemma_record_round_trip(r: RecordV)
    requires
        r.wf(),
    ensures
        spec_load(spec_save(r)) == Some(r),
{
    let b = spec_save(r);
    assert(b.len() == WalletAccount::LEN);
    assert(b[0] == key_tag(r.key));
    assert(b.subrange(1, 33) =~= r.authority);
    assert(b.subrange(33, 65) =~= r.vault);
    assert(b[65] == r.vault_bump);
}

/// A stored record round-trips whatever the slot's size: the bytes `save`
/// leaves behind — the serialization followed by the slot's trailing bytes —
/// load back as the identical record.
pub proof fn lemma_stored_record_round_trip(r: RecordV, tail: Seq<u8>)
    requires
        r.wf(),
    ensures
        spec_load(spec_save(r) + tail) == Some(r),
{
    let p = spec_save(r);
    let b = p + tail;
    assert(p.len() == WalletAccount::LEN);
    assert(b.len() >= WalletAccount::LEN);
    assert(b[0] == key_tag(r.key));
    assert(b.subrange(1, 33) =~= r.authority);
    assert(b.subrange(33, 65) =~= r.vault);
    assert(b[65] == r.vault_bump);
}

} // verus!
