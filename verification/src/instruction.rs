//! The operation selector. An inbound payload carries a one-byte selector;
//! a proxy call carries the forwarded call's raw bytes after it, a create
//! carries nothing.

use vstd::prelude::*;
use crate::error::WalletError;

verus! {

#[derive(Clone, Copy, Debug, PartialEq, Eq, Structural)]
pub enum WalletInstruction {
    /// Creates the wallet account derived from the provided authority.
    Create,
    /// Forwards an arbitrary call with the vault as delegated co-signer.
    ProxyCall,
}

/// What an operation payload parses to: the selector and the bytes left for
/// the forwarded call. A create selector must carry no trailing bytes.
pub open spec fn spec_parse_instruction(data: Seq<u8>) -> Result<
    (WalletInstruction, Seq<u8>),
    WalletError,
> {
    if data.len() == 0 {
        Err(WalletError::InvalidInstructionData)
    } else if data[0] == 0 {
        if data.len() == 1 {
            Ok((WalletInstruction::Create, Seq::empty()))
        } else {
            Err(WalletError::InvalidInstructionData)
        }
    } else if data[0] == 1 {
        Ok((WalletInstruction::ProxyCall, data.skip(1)))
    } else {
        Err(WalletError::InvalidInstructionData)
    }
}

/// The spec-level image of a parse result.
pub open spec fn parse_result_view(r: Result<(WalletInstruction, Vec<u8>), WalletError>) -> Result<
    (WalletInstruction, Seq<u8>),
    WalletError,
> {
    match r {
        Ok((ix, payload)) => Ok((ix, payload@)),
        Err(e) => Err(e),
    }
}

pub fn parse_instruction(data: &Vec<u8>) -> (r: Result<(WalletInstruction, Vec<u8>), WalletError>)
    ensures
        parse_result_view(r) == spec_parse_instruction(data@),
{
    if data.len() == 0 {
        return Err(WalletError::InvalidInstructionData);
    }
    if data[0] == 0 {
        if data.len() == 1 {
            let payload: Vec<u8> = Vec::new();
            proof {
                assert(payload@ =~= Seq::<u8>::empty());
            }
            Ok((WalletInstruction::Create, payload))
        } else {
            Err(WalletError::InvalidInstructionData)
        }
    } else if data[0] == 1 {
        let mut payload: Vec<u8> = Vec::new();
        let mut i: usize = 1;
        while i < data.len()
            invariant
                1 <= i <= data@.len(),
                payload@ == data@.subrange(1, i as int),
            decreases data@.len() - i,
        {
            payload.push(data[i]);
            i = i + 1;
            proof {
                assert(payload@ =~= data@.subrange(1, i as int));
            }
        }
        proof {
            assert(payload@ =~= data@.skip(1));
        }
        Ok((WalletInstruction::ProxyCall, payload))
    } else {
        Err(WalletError::InvalidInstructionData)
    }
}

} // verus!
