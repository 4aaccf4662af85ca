use vstd::prelude::*;

verus! {

/// Why a request was turned down. Every failure leaves all state as it was.
#[derive(Clone, Copy, Debug, PartialEq, Eq, Structural)]
pub enum EchoError {
    /// The request is malformed, or an account or record it needs is missing.
    InvalidRequest,
    /// The operation is intentionally unavailable.
    NotImplemented,
    /// A configuration already exists at the address.
    AlreadyInitialized,
    /// The caller is not the stored authority, or did not sign.
    Unauthorized,
    /// The buffer presented does not sit at the address its configuration derives.
    AddressMismatch,
    /// The data is longer than the buffer's capacity.
    BufferOverflow,
    /// The payer cannot cover the cost of the write.
    InsufficientFunds,
    /// The cost of the write does not fit in 64 bits.
    PaymentOverflow,
}

impl EchoError {
    /// The number that stands for each kind of error; distinct kinds have
    /// distinct numbers.
    pub open spec fn spec_code(self) -> u32 {
        match self {
            EchoError::InvalidRequest => 0,
            EchoError::NotImplemented => 1,
            EchoError::AlreadyInitialized => 2,
            EchoError::Unauthorized => 3,
            EchoError::AddressMismatch => 4,
            EchoError::BufferOverflow => 5,
            EchoError::InsufficientFunds => 6,
            EchoError::PaymentOverflow => 7,
        }
    }

    /// The error's number, for an environment that reports failures as integers.
    #[verifier::when_used_as_spec(spec_code)]
    pub fn code(self) -> (c: u32)
        ensures
            c == self.spec_code(),
    {
        match self {
            EchoError::InvalidRequest => 0,
            EchoError::NotImplemented => 1,
            EchoError::AlreadyInitialized => 2,
            EchoError::Unauthorized => 3,
            EchoError::AddressMismatch => 4,
            EchoError::BufferOverflow => 5,
            EchoError::InsufficientFunds => 6,
            EchoError::PaymentOverflow => 7,
        }
    }

    /// The kind of error a number stands for, if any.
    pub fn from_code(code: u32) -> (e: Option<EchoError>)
        ensures
            match e {
                Some(kind) => kind.spec_code() == code,
                None => forall|kind: EchoError| kind.spec_code() != code,
            },
    {
        match code {
            0 => Some(EchoError::InvalidRequest),
            1 => Some(EchoError::NotImplemented),
            2 => Some(EchoError::AlreadyInitialized),
            3 => Some(EchoError::Unauthorized),
            4 => Some(EchoError::AddressMismatch),
            5 => Some(EchoError::BufferOverflow),
            6 => Some(EchoError::InsufficientFunds),
            7 => Some(EchoError::PaymentOverflow),
            _ => None,
        }
    }

    /// A caller told a number can tell which kind of error it was.
    pub proof fn lemma_code_is_injective(a: EchoError, b: EchoError)
        requires
            a.spec_code() == b.spec_code(),
        ensures
            a == b,
    {
    }
}

} // verus!
