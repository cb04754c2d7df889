//! Guards shared by the bridge entry points.

use vstd::prelude::*;
use crate::address::Address;
use crate::bridge::types::{BridgeConfig, BridgeError};

verus! {

/// Whether `x` occurs in `s`.
pub fn contains_u32(s: &Vec<u32>, x: u32) -> (b: bool)
    ensures
        b == s@.contains(x),
{
    let mut i: usize = 0;
    while i < s.len()
        invariant
            i <= s.len(),
            forall|j: int| 0 <= j < i ==> s@[j] != x,
        decreases s.len() - i,
    {
        if s[i] == x {
            assert(s@[i as int] == x);
            return true;
        }
        i = i + 1;
    }
    false
}

/// Whether `a` occurs in `s`.
pub fn contains_address(s: &Vec<Address>, a: &Address) -> (b: bool)
    ensures
        b == s@.contains(*a),
{
    let mut i: usize = 0;
    while i < s.len()
        invariant
            i <= s.len(),
            forall|j: int| 0 <= j < i ==> s@[j] != *a,
        decreases s.len() - i,
    {
        if s[i].same(a) {
            assert(s@[i as int] == *a);
            return true;
        }
        i = i + 1;
    }
    false
}

/// `BridgePaused` when the stored configuration has the emergency pause set;
/// `NotInitialized` when there is none.
pub fn require_not_paused(config: &Option<BridgeConfig>) -> (r: Result<(), BridgeError>)
    ensures
        r == (match config {
            None => Err(BridgeError::NotInitialized),
            Some(c) => if c.emergency_pause { Err(BridgeError::BridgePaused) } else { Ok(()) },
        }),
{
    match config {
        None => Err(BridgeError::NotInitialized),
        Some(c) => {
            if c.emergency_pause {
                Err(BridgeError::BridgePaused)
            } else {
                Ok(())
            }
        },
    }
}

/// `UnsupportedChain` unless `destination_chain` is in the supported list.
pub fn require_supported_chain(config: &BridgeConfig, destination_chain: u32) -> (r: Result<
    (),
    BridgeError,
>)
    ensures
        r == (if config.supported_chains@.contains(destination_chain) {
            Ok(())
        } else {
            Err(BridgeError::UnsupportedChain)
        }),
{
    if !contains_u32(&config.supported_chains, destination_chain) {
        return Err(BridgeError::UnsupportedChain);
    }
    Ok(())
}

/// `InvalidSignatureRequirement` unless `required_signatures` lies in the
/// configured `[min, max]` range.
pub fn require_valid_signatures(config: &BridgeConfig, required_signatures: u32) -> (r: Result<
    (),
    BridgeError,
>)
    ensures
        r == (if required_signatures < config.min_signatures_required
            || required_signatures > config.max_signatures_required {
            Err(BridgeError::InvalidSignatureRequirement)
        } else {
            Ok(())
        }),
{
    if required_signatures < config.min_signatures_required || required_signatures
        > config.max_signatures_required {
        return Err(BridgeError::InvalidSignatureRequirement);
    }
    Ok(())
}

/// `NotOperator` unless `caller` is among the stored operators;
/// `NotInitialized` when no operator list is stored.
pub fn require_operator(operators: &Option<Vec<Address>>, caller: &Address) -> (r: Result<
    (),
    BridgeError,
>)
    ensures
        r == (match operators {
            None => Err(BridgeError::NotInitialized),
            Some(ops) => if ops@.contains(*caller) { Ok(()) } else { Err(BridgeError::NotOperator) },
        }),
{
    match operators {
        None => Err(BridgeError::NotInitialized),
        Some(ops) => {
            if contains_address(ops, caller) {
                Ok(())
            } else {
                Err(BridgeError::NotOperator)
            }
        },
    }
}

/// `Unauthorized` unless `caller` is the stored admin; `NotInitialized` when
/// there is none.
pub fn require_admin(admin: &Option<Address>, caller: &Address) -> (r: Result<(), BridgeError>)
    ensures
        r == (match admin {
            None => Err(BridgeError::NotInitialized),
            Some(a) => if *a == *caller { Ok(()) } else { Err(BridgeError::Unauthorized) },
        }),
{
    match admin {
        None => Err(BridgeError::NotInitialized),
        Some(a) => {
            if a.same(caller) {
                Ok(())
            } else {
                Err(BridgeError::Unauthorized)
            }
        },
    }
}

/// Always succeeds: a bridge address is a host-managed object and is never zero.
pub fn require_non_zero_address(address: &Address) -> (r: Result<(), BridgeError>)
    ensures
        r == Ok::<(), BridgeError>(()),
{
    Ok(())
}

/// `InvalidParameter` when the value is zero.
pub fn require_non_zero_u32(value: u32) -> (r: Result<(), BridgeError>)
    ensures
        r == (if value == 0 { Err(BridgeError::InvalidParameter) } else { Ok(()) }),
{
    if value == 0 {
        return Err(BridgeError::InvalidParameter);
    }
    Ok(())
}

/// `InvalidParameter` when the value is zero.
pub fn require_non_zero_u64(value: u64) -> (r: Result<(), BridgeError>)
    ensures
        r == (if value == 0 { Err(BridgeError::InvalidParameter) } else { Ok(()) }),
{
    if value == 0 {
        return Err(BridgeError::InvalidParameter);
    }
    Ok(())
}

/// `InvalidParameter` when the value is zero.
pub fn require_non_zero_u128(value: u128) -> (r: Result<(), BridgeError>)
    ensures
        r == (if value == 0 { Err(BridgeError::InvalidParameter) } else { Ok(()) }),
{
    if value == 0 {
        return Err(BridgeError::InvalidParameter);
    }
    Ok(())
}

/// `InvalidTimestamp` unless `timestamp` lies strictly after `now`.
pub fn require_future_timestamp(timestamp: u64, now: u64) -> (r: Result<(), BridgeError>)
    ensures
        r == (if timestamp <= now { Err(BridgeError::InvalidTimestamp) } else { Ok(()) }),
{
    if timestamp <= now {
        return Err(BridgeError::InvalidTimestamp);
    }
    Ok(())
}

} // verus!
