//! Plain-value models of the ledger-side notions the logic reads: a 32-byte
//! address, an account reference as an operation sees it, and the account
//! entry of a forwarded call.

use vstd::prelude::*;

verus! {

/// The number of bytes in an address.
pub const ADDRESS_LEN: usize = 32;

/// A ledger address: exactly 32 bytes.
#[derive(Debug)]
pub struct Address {
    pub bytes: Vec<u8>,
}

impl View for Address {
    type V = Seq<u8>;

    open spec fn view(&self) -> Seq<u8> {
        self.bytes@
    }
}

impl Address {
    /// A well-formed address holds exactly 32 bytes.
    pub open spec fn wf(&self) -> bool {
        self@.len() == ADDRESS_LEN
    }

    pub fn new(bytes: Vec<u8>) -> (r: Option<Address>)
        ensures
            bytes@.len() == ADDRESS_LEN ==> (r matches Some(a) && a@ == bytes@),
            bytes@.len() != ADDRESS_LEN ==> r is None,
    {
        if bytes.len() == ADDRESS_LEN {
            Some(Address { bytes })
        } else {
            None
        }
    }

    /// An independent copy of the same address.
    pub fn dup(&self) -> (r: Address)
        ensures
            r@ == self@,
            self.wf() ==> r.wf(),
    {
        Address { bytes: self.bytes.clone() }
    }

    pub fn eq_addr(&self, other: &Address) -> (r: bool)
        ensures
            r == (self@ == other@),
    {
        let r = self.bytes == other.bytes;
        proof {
            if r {
                assert(self@ =~= other@);
            }
        }
        r
    }
}

/// The spec-level image of an account reference.
pub ghost struct AccountV {
    pub key: Seq<u8>,
    pub is_signer: bool,
    pub is_writable: bool,
    pub data: Seq<u8>,
}

/// An account reference as one operation sees it: its address, whether it
/// signed the operation, whether it may be mutated, and its stored bytes.
#[derive(Debug)]
pub struct AccountRef {
    pub key: Address,
    pub is_signer: bool,
    pub is_writable: bool,
    pub data: Vec<u8>,
}

impl View for AccountRef {
    type V = AccountV;

    open spec fn view(&self) -> AccountV {
        AccountV {
            key: self.key@,
            is_signer: self.is_signer,
            is_writable: self.is_writable,
            data: self.data@,
        }
    }
}

impl AccountRef {
    pub open spec fn wf(&self) -> bool {
        self.key.wf()
    }
}

/// The spec-level image of a forwarded call's account entry.
pub ghost struct CallAccountV {
    pub key: Seq<u8>,
    pub is_signer: bool,
    pub is_writable: bool,
}

/// One account entry of a forwarded call: an address, the signer flag the
/// nested call will see, and the writability it is granted.
#[derive(Debug)]
pub struct CallAccount {
    pub key: Address,
    pub is_signer: bool,
    pub is_writable: bool,
}

impl View for CallAccount {
    type V = CallAccountV;

    open spec fn view(&self) -> CallAccountV {
        CallAccountV { key: self.key@, is_signer: self.is_signer, is_writable: self.is_writable }
    }
}

} // verus!
