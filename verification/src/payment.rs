use vstd::prelude::*;
use crate::error::EchoError;

verus! {

/// The price of writing `len` bytes at `price_per_byte` units a byte.
pub open spec fn cost_of(price_per_byte: nat, len: nat) -> nat {
    price_per_byte * len
}

/// Why a payer with `funds` units cannot pay for `len` bytes at `price_per_byte`,
/// if it cannot: the cost does not fit in 64 bits, or exceeds the funds.
pub open spec fn payment_refusal(price_per_byte: nat, len: nat, funds: nat) -> Option<EchoError> {
    if cost_of(price_per_byte, len) > u64::MAX {
        Some(EchoError::PaymentOverflow)
    } else if funds < cost_of(price_per_byte, len) {
        Some(EchoError::InsufficientFunds)
    } else {
        None
    }
}

/// The cost of writing `len` bytes, computed with overflow-checked multiplication.
pub fn required_payment(price_per_byte: u64, len: usize) -> (result: Result<u64, EchoError>)
    ensures
        match result {
            Ok(cost) => cost == cost_of(price_per_byte as nat, len as nat),
            Err(e) => e == EchoError::PaymentOverflow && cost_of(
                price_per_byte as nat,
                len as nat,
            ) > u64::MAX,
        },
{
    match price_per_byte.checked_mul(len as u64) {
        Some(cost) => Ok(cost),
        None => Err(EchoError::PaymentOverflow),
    }
}

/// Settles the payment for `len` bytes against a payer's `funds`: the exact
/// cost that the payer owes, or the reason it cannot be paid.
pub fn charge(price_per_byte: u64, len: usize, funds: u64) -> (result: Result<u64, EchoError>)
    ensures
        match payment_refusal(price_per_byte as nat, len as nat, funds as nat) {
            Some(e) => result == Err::<u64, EchoError>(e),
            None => result == Ok::<u64, EchoError>(
                cost_of(price_per_byte as nat, len as nat) as u64,
            ),
        },
{
    let cost = required_payment(price_per_byte, len)?;
    if funds < cost {
        return Err(EchoError::InsufficientFunds);
    }
    Ok(cost)
}

} // verus!
