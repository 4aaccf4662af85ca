use vstd::prelude::*;
use crate::address::Address;
use crate::buffer::{written, BufferAccount};

verus! {

/// An account as a caller hands it in: where it lives, whether its owner signed
/// the request, the payment units it can spend, and its buffer if it has one.
#[derive(Debug)]
pub struct AccountHandle {
    pub address: Address,
    pub is_signer: bool,
    pub funds: u64,
    pub buffer: Option<BufferAccount>,
}

/// What an account handle holds, as mathematical values.
pub struct AccountModel {
    pub address: Seq<u8>,
    pub is_signer: bool,
    pub funds: nat,
    pub buffer: Option<Seq<u8>>,
}

impl View for AccountHandle {
    type V = AccountModel;

    open spec fn view(&self) -> AccountModel {
        AccountModel {
            address: self.address@,
            is_signer: self.is_signer,
            funds: self.funds as nat,
            buffer: match self.buffer {
                Some(buffer) => Some(buffer@),
                None => None,
            },
        }
    }
}

impl AccountModel {
    /// The account once its buffer holds `contents`.
    pub open spec fn with_buffer(self, contents: Seq<u8>) -> AccountModel {
        AccountModel { buffer: Some(contents), ..self }
    }

    /// The account once `data` has been written to its buffer from offset 0.
    pub open spec fn after_write(self, data: Seq<u8>) -> AccountModel
        recommends
            self.buffer is Some,
    {
        self.with_buffer(written(self.buffer.unwrap(), data))
    }

    /// The account once `amount` payment units have left it.
    pub open spec fn after_payment(self, amount: nat) -> AccountModel
        recommends
            amount <= self.funds,
    {
        AccountModel { funds: (self.funds - amount) as nat, ..self }
    }
}

/// The accounts of a list, as mathematical values.
pub open spec fn models(accounts: Seq<AccountHandle>) -> Seq<AccountModel> {
    Seq::new(accounts.len(), |i: int| accounts[i]@)
}

/// The bytes of a freshly allocated buffer: `capacity` zeros.
pub open spec fn zeroed(capacity: nat) -> Seq<u8> {
    Seq::new(capacity, |i: int| 0u8)
}

} // verus!
