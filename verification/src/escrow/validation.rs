//! Guards shared by the escrow entry points.

use vstd::prelude::*;
use crate::address::Address;
use crate::escrow::types::EscrowError;

verus! {

/// `ContractPaused` when the pause flag is set.
pub fn require_not_paused(paused: bool) -> (r: Result<(), EscrowError>)
    ensures
        r == (if paused { Err(EscrowError::ContractPaused) } else { Ok(()) }),
{
    if paused {
        return Err(EscrowError::ContractPaused);
    }
    Ok(())
}

/// `ZeroAddress` when every byte of the address key is zero.
pub fn require_non_zero_address(address: &Address) -> (r: Result<(), EscrowError>)
    ensures
        r == (if address.spec_is_zero() { Err(EscrowError::ZeroAddress) } else { Ok(()) }),
{
    if address.is_zero() {
        return Err(EscrowError::ZeroAddress);
    }
    Ok(())
}

/// `InvalidParameter` when the identifier is zero.
pub fn require_non_zero_u64(value: u64) -> (r: Result<(), EscrowError>)
    ensures
        r == (if value == 0 { Err(EscrowError::InvalidParameter) } else { Ok(()) }),
{
    if value == 0 {
        return Err(EscrowError::InvalidParameter);
    }
    Ok(())
}

/// `InvalidParameter` when the amount is zero or negative.
pub fn require_positive_amount(amount: i128) -> (r: Result<(), EscrowError>)
    ensures
        r == (if amount <= 0 { Err(EscrowError::InvalidParameter) } else { Ok(()) }),
{
    if amount <= 0 {
        return Err(EscrowError::InvalidParameter);
    }
    Ok(())
}

/// `InvalidTimestamp` unless `timestamp` lies strictly after `now`.
pub fn require_future_timestamp(timestamp: u64, now: u64) -> (r: Result<(), EscrowError>)
    ensures
        r == (if timestamp <= now { Err(EscrowError::InvalidTimestamp) } else { Ok(()) }),
{
    if timestamp <= now {
        return Err(EscrowError::InvalidTimestamp);
    }
    Ok(())
}

/// `InvalidMultisigConfig` when no signature is required, there are no
/// participants, or more signatures are required than there are participants.
pub fn require_valid_multisig(required_signatures: u32, participant_count: u32) -> (r: Result<
    (),
    EscrowError,
>)
    ensures
        r == (if required_signatures == 0 || participant_count == 0 || required_signatures
            > participant_count {
            Err(EscrowError::InvalidMultisigConfig)
        } else {
            Ok(())
        }),
{
    if required_signatures == 0 || participant_count == 0 || required_signatures > participant_count {
        return Err(EscrowError::InvalidMultisigConfig);
    }
    Ok(())
}

/// The stored admin; `NotInitialized` when there is none.
pub fn get_admin(admin: &Option<Address>) -> (r: Result<Address, EscrowError>)
    ensures
        r == (match admin {
            None => Err(EscrowError::NotInitialized),
            Some(a) => Ok(*a),
        }),
{
    match admin {
        None => Err(EscrowError::NotInitialized),
        Some(a) => Ok(*a),
    }
}

} // verus!
