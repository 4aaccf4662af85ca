use vstd::prelude::*;
use crate::address::{bytes_of, Address};
use crate::config::AuthorizedBufferConfig;
use crate::error::EchoError;

verus! {

/// Why `caller` may not write to the buffer at `buffer_address`, if it may not.
/// The caller must be the stored authority and must have signed; then the
/// buffer must sit at the address `derived` from the stored authority and seed.
pub open spec fn authorization_refusal(
    authority: Seq<u8>,
    caller: Seq<u8>,
    caller_signed: bool,
    derived: Option<Seq<u8>>,
    buffer_address: Seq<u8>,
) -> Option<EchoError> {
    if caller != authority || !caller_signed {
        Some(EchoError::Unauthorized)
    } else if derived != Some(buffer_address) {
        Some(EchoError::AddressMismatch)
    } else {
        None
    }
}

/// Decides whether `caller` may write to the buffer at `buffer_address` under
/// `config`, given the address `derived` from the configuration's authority and
/// seed.
pub fn authorize(
    config: &AuthorizedBufferConfig,
    caller: &Address,
    caller_signed: bool,
    derived: &Option<Address>,
    buffer_address: &Address,
) -> (result: Result<(), EchoError>)
    ensures
        match authorization_refusal(
            config.authority@,
            caller@,
            caller_signed,
            bytes_of(*derived),
            buffer_address@,
        ) {
            Some(e) => result == Err::<(), EchoError>(e),
            None => result is Ok,
        },
{
    if !(*caller == config.authority) || !caller_signed {
        return Err(EchoError::Unauthorized);
    }
    match derived {
        Some(address) => {
            if *address == *buffer_address {
                Ok(())
            } else {
                Err(EchoError::AddressMismatch)
            }
        },
        None => Err(EchoError::AddressMismatch),
    }
}

} // verus!
