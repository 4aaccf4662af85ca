use vstd::prelude::*;

verus! {

/// A decoded request: one of the five operations, with its fields.
#[derive(Clone, Debug, PartialEq, Eq)]
pub enum EchoInstruction {
    /// Write `data` to a buffer that anyone may write to.
    Echo { data: Vec<u8> },
    /// Create a buffer of `buffer_size` bytes that only an authority may write to.
    InitializeAuthorizedEcho { buffer_seed: Vec<u8>, buffer_size: usize },
    /// Write `data` to a buffer as its authority.
    AuthorizedEcho { data: Vec<u8> },
    /// Create a buffer of `buffer_size` bytes whose writes cost `price` units a byte.
    InitializeVendingMachineEcho { price: u64, buffer_size: usize },
    /// Write `data` to a buffer and pay for it by the byte.
    VendingMachineEcho { data: Vec<u8> },
}

/// What a request asks for, as mathematical values.
pub enum InstructionModel {
    Echo { data: Seq<u8> },
    InitializeAuthorizedEcho { buffer_seed: Seq<u8>, buffer_size: nat },
    AuthorizedEcho { data: Seq<u8> },
    InitializeVendingMachineEcho { price: nat, buffer_size: nat },
    VendingMachineEcho { data: Seq<u8> },
}

impl View for EchoInstruction {
    type V = InstructionModel;

    open spec fn view(&self) -> InstructionModel {
        match self {
            EchoInstruction::Echo { data } => InstructionModel::Echo { data: data@ },
            EchoInstruction::InitializeAuthorizedEcho { buffer_seed, buffer_size } => {
                InstructionModel::InitializeAuthorizedEcho {
                    buffer_seed: buffer_seed@,
                    buffer_size: *buffer_size as nat,
                }
            },
            EchoInstruction::AuthorizedEcho { data } => InstructionModel::AuthorizedEcho {
                data: data@,
            },
            EchoInstruction::InitializeVendingMachineEcho { price, buffer_size } => {
                InstructionModel::InitializeVendingMachineEcho {
                    price: *price as nat,
                    buffer_size: *buffer_size as nat,
                }
            },
            EchoInstruction::VendingMachineEcho { data } => InstructionModel::VendingMachineEcho {
                data: data@,
            },
        }
    }
}

} // verus!
