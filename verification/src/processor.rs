use vstd::prelude::*;
use crate::account::{models, zeroed, AccountHandle, AccountModel};
use crate::address::{bytes_of, derived_address, Address};
use crate::buffer::{lemma_written, written, BufferAccount};
use crate::config::{
    AuthorizedBufferConfig, BufferConfig, ConfigModel, ConfigStore, VendingMachineConfig,
};
use crate::error::EchoError;
use crate::guard::{authorization_refusal, authorize};
use crate::instruction::{EchoInstruction, InstructionModel};
use crate::payment::{charge, cost_of, payment_refusal};

verus! {

/// What a successful request hands back: the full contents of the buffer after
/// it, and the payment units the payer owes for it.
#[derive(Debug, PartialEq, Eq)]
pub struct Receipt {
    pub contents: Vec<u8>,
    pub payment: u64,
}

/// A receipt, as mathematical values.
pub struct ReceiptModel {
    pub contents: Seq<u8>,
    pub payment: nat,
}

impl View for Receipt {
    type V = ReceiptModel;

    open spec fn view(&self) -> ReceiptModel {
        ReceiptModel { contents: self.contents@, payment: self.payment as nat }
    }
}

/// Why `data` cannot be written to the buffer of `target`, if it cannot: the
/// account has no buffer, or the data is longer than the buffer.
pub open spec fn write_refusal(target: AccountModel, data: Seq<u8>) -> Option<EchoError> {
    if target.buffer is None {
        Some(EchoError::InvalidRequest)
    } else if data.len() > target.buffer.unwrap().len() {
        Some(EchoError::BufferOverflow)
    } else {
        None
    }
}

/// Why `caller` cannot write `data` to the buffer of `target` under a
/// configuration with the given authority, if it cannot. `derived` is the
/// address that belongs to the configuration. Authorization is decided first,
/// the write after it.
pub open spec fn guarded_write_refusal(
    authority: Seq<u8>,
    derived: Option<Seq<u8>>,
    target: AccountModel,
    caller: Seq<u8>,
    caller_signed: bool,
    data: Seq<u8>,
) -> Option<EchoError> {
    match authorization_refusal(authority, caller, caller_signed, derived, target.address) {
        Some(e) => Some(e),
        None => write_refusal(target, data),
    }
}

/// Why an authority-gated write is refused, if it is. The buffer's address must
/// have a configuration of the authority-gated kind; the rest is decided by
/// [`guarded_write_refusal`] with the address derived from that configuration.
pub open spec fn authorized_echo_refusal(
    program_id: Seq<u8>,
    configs: Map<Seq<u8>, ConfigModel>,
    target: AccountModel,
    caller: Seq<u8>,
    caller_signed: bool,
    data: Seq<u8>,
) -> Option<EchoError> {
    if configs.contains_key(target.address) && configs[target.address] is Authorized {
        let authority = configs[target.address]->authority;
        let seed = configs[target.address]->seed;
        guarded_write_refusal(
            authority,
            derived_address(program_id, authority, seed),
            target,
            caller,
            caller_signed,
            data,
        )
    } else {
        Some(EchoError::InvalidRequest)
    }
}

/// Why a paid write is refused, if it is. The buffer's address must have a
/// configuration of the pay-per-byte kind; a payer with `funds` units must be
/// able to pay for the data; only then is the write itself considered.
pub open spec fn vending_machine_echo_refusal(
    configs: Map<Seq<u8>, ConfigModel>,
    target: AccountModel,
    funds: nat,
    data: Seq<u8>,
) -> Option<EchoError> {
    if configs.contains_key(target.address) && configs[target.address] is VendingMachine {
        match payment_refusal(configs[target.address]->price_per_byte, data.len(), funds) {
            Some(e) => Some(e),
            None => write_refusal(target, data),
        }
    } else {
        Some(EchoError::InvalidRequest)
    }
}

/// Why a buffer cannot be initialized at the address `derived` for it, if it
/// cannot: no address could be derived, the address already has a
/// configuration, the account presented sits elsewhere, or the capacity asked
/// for is zero.
pub open spec fn initialize_refusal(
    configs: Map<Seq<u8>, ConfigModel>,
    derived: Option<Seq<u8>>,
    target_address: Seq<u8>,
    capacity: nat,
) -> Option<EchoError> {
    if derived is None {
        Some(EchoError::AddressMismatch)
    } else if configs.contains_key(derived.unwrap()) {
        Some(EchoError::AlreadyInitialized)
    } else if derived.unwrap() != target_address {
        Some(EchoError::AddressMismatch)
    } else if capacity == 0 {
        Some(EchoError::InvalidRequest)
    } else {
        None
    }
}

/// The receipt of a write of `data` to the buffer of `target`, paid with
/// `payment` units.
pub open spec fn write_receipt(target: AccountModel, data: Seq<u8>, payment: nat) -> ReceiptModel
    recommends
        target.buffer is Some,
{
    ReceiptModel { contents: written(target.buffer.unwrap(), data), payment }
}

/// The receipt of the creation of a buffer of `capacity` bytes.
pub open spec fn initialize_receipt(capacity: nat) -> ReceiptModel {
    ReceiptModel { contents: zeroed(capacity), payment: 0 }
}

/// How many accounts a request needs: the buffer's account first, then the
/// authority's or the payer's where the operation has one.
pub open spec fn required_accounts(instruction: InstructionModel) -> nat {
    match instruction {
        InstructionModel::Echo { .. } => 1,
        InstructionModel::InitializeAuthorizedEcho { .. } => 2,
        InstructionModel::AuthorizedEcho { .. } => 2,
        InstructionModel::InitializeVendingMachineEcho { .. } => 1,
        InstructionModel::VendingMachineEcho { .. } => 2,
    }
}

/// Why a request is refused, if it is: an account it needs is missing, or the
/// operation it names refuses it.
pub open spec fn process_refusal(
    program_id: Seq<u8>,
    configs: Map<Seq<u8>, ConfigModel>,
    accounts: Seq<AccountModel>,
    instruction: InstructionModel,
) -> Option<EchoError> {
    if accounts.len() < required_accounts(instruction) {
        Some(EchoError::InvalidRequest)
    } else {
        match instruction {
            InstructionModel::Echo { data } => write_refusal(accounts[0], data),
            InstructionModel::InitializeAuthorizedEcho { buffer_seed, buffer_size } => {
                initialize_refusal(
                    configs,
                    derived_address(program_id, accounts[1].address, buffer_seed),
                    accounts[0].address,
                    buffer_size,
                )
            },
            InstructionModel::AuthorizedEcho { data } => authorized_echo_refusal(
                program_id,
                configs,
                accounts[0],
                accounts[1].address,
                accounts[1].is_signer,
                data,
            ),
            InstructionModel::InitializeVendingMachineEcho { price, buffer_size } => {
                initialize_refusal(
                    configs,
                    Some(accounts[0].address),
                    accounts[0].address,
                    buffer_size,
                )
            },
            InstructionModel::VendingMachineEcho { data } => vending_machine_echo_refusal(
                configs,
                accounts[0],
                accounts[1].funds,
                data,
            ),
        }
    }
}

/// The receipt of a request that is not refused.
pub open spec fn processed_receipt(
    configs: Map<Seq<u8>, ConfigModel>,
    accounts: Seq<AccountModel>,
    instruction: InstructionModel,
) -> ReceiptModel {
    match instruction {
        InstructionModel::Echo { data } => write_receipt(accounts[0], data, 0),
        InstructionModel::InitializeAuthorizedEcho { buffer_size, .. } => initialize_receipt(
            buffer_size,
        ),
        InstructionModel::AuthorizedEcho { data } => write_receipt(accounts[0], data, 0),
        InstructionModel::InitializeVendingMachineEcho { buffer_size, .. } => initialize_receipt(
            buffer_size,
        ),
        InstructionModel::VendingMachineEcho { data } => write_receipt(
            accounts[0],
            data,
            cost_of(configs[accounts[0].address]->price_per_byte, data.len()),
        ),
    }
}

/// The accounts after a request that is not refused: the first holds the
/// buffer that was written or created, and the payer of a paid write has paid.
pub open spec fn processed_accounts(
    configs: Map<Seq<u8>, ConfigModel>,
    accounts: Seq<AccountModel>,
    instruction: InstructionModel,
) -> Seq<AccountModel> {
    match instruction {
        InstructionModel::Echo { data } => accounts.update(0, accounts[0].after_write(data)),
        InstructionModel::InitializeAuthorizedEcho { buffer_size, .. } => accounts.update(
            0,
            accounts[0].with_buffer(zeroed(buffer_size)),
        ),
        InstructionModel::AuthorizedEcho { data } => accounts.update(
            0,
            accounts[0].after_write(data),
        ),
        InstructionModel::InitializeVendingMachineEcho { buffer_size, .. } => accounts.update(
            0,
            accounts[0].with_buffer(zeroed(buffer_size)),
        ),
        InstructionModel::VendingMachineEcho { data } => accounts.update(
            0,
            accounts[0].after_write(data),
        ).update(
            1,
            accounts[1].after_payment(
                cost_of(configs[accounts[0].address]->price_per_byte, data.len()),
            ),
        ),
    }
}

/// The configurations after a request that is not refused: an initialization
/// adds one at the address of the first account, and nothing else changes.
pub open spec fn processed_configs(
    configs: Map<Seq<u8>, ConfigModel>,
    accounts: Seq<AccountModel>,
    instruction: InstructionModel,
) -> Map<Seq<u8>, ConfigModel> {
    match instruction {
        InstructionModel::InitializeAuthorizedEcho { buffer_seed, buffer_size } => configs.insert(
            accounts[0].address,
            ConfigModel::Authorized {
                authority: accounts[1].address,
                seed: buffer_seed,
                capacity: buffer_size,
            },
        ),
        InstructionModel::InitializeVendingMachineEcho { price, buffer_size } => configs.insert(
            accounts[0].address,
            ConfigModel::VendingMachine { price_per_byte: price, capacity: buffer_size },
        ),
        _ => configs,
    }
}

/// Of a signed request whose data fits the buffer: an authority-gated write
/// succeeds exactly when the caller is the stored authority and the buffer sits
/// at the address derived from the stored authority and seed. Any other such
/// request fails as unauthorized or as an address mismatch.
pub proof fn lemma_authorized_echo_succeeds_iff(
    program_id: Seq<u8>,
    configs: Map<Seq<u8>, ConfigModel>,
    target: AccountModel,
    caller: Seq<u8>,
    data: Seq<u8>,
)
    requires
        configs.contains_key(target.address),
        configs[target.address] is Authorized,
        target.buffer is Some,
        data.len() <= target.buffer.unwrap().len(),
    ensures
        ({
            let authority = configs[target.address]->authority;
            let seed = configs[target.address]->seed;
            let refusal = authorized_echo_refusal(program_id, configs, target, caller, true, data);
            &&& refusal is None <==> caller == authority && derived_address(
                program_id,
                authority,
                seed,
            ) == Some(target.address)
            &&& refusal matches Some(e) ==> e == EchoError::Unauthorized || e
                == EchoError::AddressMismatch
        }),
{
}

/// A paid write goes ahead only if the payer can cover exactly the price times
/// the data's length; a payer who cannot is refused for insufficient funds, and
/// a cost beyond 64 bits is refused as an overflow.
pub proof fn lemma_vending_machine_echo_is_paid(
    configs: Map<Seq<u8>, ConfigModel>,
    target: AccountModel,
    funds: nat,
    data: Seq<u8>,
)
    requires
        configs.contains_key(target.address),
        configs[target.address] is VendingMachine,
    ensures
        ({
            let cost = configs[target.address]->price_per_byte * data.len();
            let refusal = vending_machine_echo_refusal(configs, target, funds, data);
            &&& refusal is None ==> cost <= funds && cost <= u64::MAX
            &&& cost > u64::MAX ==> refusal == Some(EchoError::PaymentOverflow)
            &&& funds < cost <= u64::MAX ==> refusal == Some(EchoError::InsufficientFunds)
        }),
{
}

/// Once a buffer has been initialized at an address, every further
/// initialization at that address fails as already initialized, whatever else
/// it asks for, and the configuration created first is still the one there.
pub proof fn lemma_initialize_twice(
    configs: Map<Seq<u8>, ConfigModel>,
    derived: Option<Seq<u8>>,
    target_address: Seq<u8>,
    capacity: nat,
    config: ConfigModel,
    later_target_address: Seq<u8>,
    later_capacity: nat,
)
    requires
        initialize_refusal(configs, derived, target_address, capacity) is None,
    ensures
        ({
            let created = configs.insert(target_address, config);
            &&& initialize_refusal(created, derived, later_target_address, later_capacity) == Some(
                EchoError::AlreadyInitialized,
            )
            &&& created[derived.unwrap()] == config
        }),
{
}

/// A configuration never changes once it exists: a request that succeeds
/// leaves every configuration that was there before it as it was.
pub proof fn lemma_configurations_are_immutable(
    program_id: Seq<u8>,
    configs: Map<Seq<u8>, ConfigModel>,
    accounts: Seq<AccountModel>,
    instruction: InstructionModel,
    address: Seq<u8>,
)
    requires
        process_refusal(program_id, configs, accounts, instruction) is None,
        configs.contains_key(address),
    ensures
        processed_configs(configs, accounts, instruction).contains_key(address),
        processed_configs(configs, accounts, instruction)[address] == configs[address],
{
}

/// A write never changes a buffer's capacity: after a request that succeeds,
/// a buffer that the first account had before is as long as it was.
pub proof fn lemma_capacity_is_fixed(
    program_id: Seq<u8>,
    configs: Map<Seq<u8>, ConfigModel>,
    accounts: Seq<AccountModel>,
    instruction: InstructionModel,
)
    requires
        process_refusal(program_id, configs, accounts, instruction) is None,
        instruction is Echo || instruction is AuthorizedEcho || instruction is VendingMachineEcho,
    ensures
        accounts[0].buffer is Some,
        processed_accounts(configs, accounts, instruction)[0].buffer is Some,
        processed_accounts(configs, accounts, instruction)[0].buffer.unwrap().len()
            == accounts[0].buffer.unwrap().len(),
{
}

/// No request is ever refused as not implemented.
pub proof fn lemma_every_operation_is_implemented(
    program_id: Seq<u8>,
    configs: Map<Seq<u8>, ConfigModel>,
    accounts: Seq<AccountModel>,
    instruction: InstructionModel,
)
    ensures
        process_refusal(program_id, configs, accounts, instruction) != Some(
            EchoError::NotImplemented,
        ),
{
}

/// The routing and decision logic of the three echo services.
pub struct Processor {}

impl Processor {
    /// Writes `data` to the buffer of `target` from offset 0, for any caller.
    /// Bytes of the buffer that the data does not reach stay as they were.
    pub fn echo(target: &mut AccountHandle, data: &[u8]) -> (result: Result<Receipt, EchoError>)
        ensures
            old(target)@.buffer is Some && data@.len() <= old(target)@.buffer.unwrap().len() ==> {
                &&& result is Ok
                &&& final(target)@.buffer matches Some(after)
                &&& after.len() == old(target)@.buffer.unwrap().len()
                &&& after.subrange(0, data@.len() as int) == data@
            },
            old(target)@.buffer is Some && data@.len() > old(target)@.buffer.unwrap().len() ==> {
                &&& result matches Err(err)
                &&& err == EchoError::BufferOverflow
                &&& final(target)@ == old(target)@
            },
            match write_refusal(old(target)@, data@) {
                Some(e) => {
                    &&& result matches Err(err)
                    &&& err == e
                    &&& final(target)@ == old(target)@
                },
                None => {
                    &&& result matches Ok(receipt)
                    &&& receipt@ == write_receipt(old(target)@, data@, 0)
                    &&& final(target)@ == old(target)@.after_write(data@)
                },
            },
    {
        proof {
            if target@.buffer is Some && data@.len() <= target@.buffer.unwrap().len() {
                lemma_written(target@.buffer.unwrap(), data@);
            }
        }
        match &mut target.buffer {
            Some(buffer) => {
                let contents = buffer.write(data)?;
                Ok(Receipt { contents, payment: 0 })
            },
            None => Err(EchoError::InvalidRequest),
        }
    }

    /// Writes `data` to the buffer of `target` for `caller`, under the
    /// configuration `config` of that buffer and the address `derived` from its
    /// authority and seed. The caller must be the authority and must have
    /// signed, and the buffer must sit at the derived address.
    pub fn authorized_echo_at(
        config: &AuthorizedBufferConfig,
        derived: &Option<Address>,
        target: &mut AccountHandle,
        caller: &Address,
        caller_signed: bool,
        data: &[u8],
    ) -> (result: Result<Receipt, EchoError>)
        ensures
            match guarded_write_refusal(
                config.authority@,
                bytes_of(*derived),
                old(target)@,
                caller@,
                caller_signed,
                data@,
            ) {
                Some(e) => {
                    &&& result matches Err(err)
                    &&& err == e
                    &&& final(target)@ == old(target)@
                },
                None => {
                    &&& result matches Ok(receipt)
                    &&& receipt@ == write_receipt(old(target)@, data@, 0)
                    &&& final(target)@ == old(target)@.after_write(data@)
                },
            },
    {
        authorize(config, caller, caller_signed, derived, &target.address)?;
        Self::echo(target, data)
    }

    /// Writes `data` to the buffer of `target` for `caller`, if the buffer has
    /// an authority-gated configuration in `configs` that lets the caller write.
    pub fn authorized_echo(
        program_id: &Address,
        configs: &ConfigStore,
        target: &mut AccountHandle,
        caller: &Address,
        caller_signed: bool,
        data: &[u8],
    ) -> (result: Result<Receipt, EchoError>)
        ensures
            match authorized_echo_refusal(
                program_id@,
                configs@,
                old(target)@,
                caller@,
                caller_signed,
                data@,
            ) {
                Some(e) => {
                    &&& result matches Err(err)
                    &&& err == e
                    &&& final(target)@ == old(target)@
                },
                None => {
                    &&& result matches Ok(receipt)
                    &&& receipt@ == write_receipt(old(target)@, data@, 0)
                    &&& final(target)@ == old(target)@.after_write(data@)
                },
            },
    {
        match configs.get(&target.address) {
            Some(BufferConfig::Authorized(config)) => {
                let derived = Address::derive(program_id, &config.authority, config.seed.as_slice());
                Self::authorized_echo_at(config, &derived, target, caller, caller_signed, data)
            },
            _ => Err(EchoError::InvalidRequest),
        }
    }

    /// Writes `data` to the buffer of `target` once a payer with `funds`
    /// payment units has been found able to pay for it, at the price in the
    /// buffer's pay-per-byte configuration. The receipt names the exact cost;
    /// a write that is refused costs nothing.
    pub fn vending_machine_echo(
        configs: &ConfigStore,
        target: &mut AccountHandle,
        funds: u64,
        data: &[u8],
    ) -> (result: Result<Receipt, EchoError>)
        ensures
            match vending_machine_echo_refusal(configs@, old(target)@, funds as nat, data@) {
                Some(e) => {
                    &&& result matches Err(err)
                    &&& err == e
                    &&& final(target)@ == old(target)@
                },
                None => {
                    &&& result matches Ok(receipt)
                    &&& receipt@ == write_receipt(
                        old(target)@,
                        data@,
                        cost_of(configs@[old(target)@.address]->price_per_byte, data@.len()),
                    )
                    &&& receipt.payment <= funds
                    &&& final(target)@ == old(target)@.after_write(data@)
                },
            },
    {
        match configs.get(&target.address) {
            Some(BufferConfig::VendingMachine(config)) => {
                let payment = charge(config.price_per_byte, data.len(), funds)?;
                let receipt = Self::echo(target, data)?;
                Ok(Receipt { contents: receipt.contents, payment })
            },
            _ => Err(EchoError::InvalidRequest),
        }
    }

    /// Creates an authority-gated buffer of `capacity` zero bytes in `target`,
    /// and its configuration at the address `derived` for `authority` and
    /// `seed`, which must be the address of `target` and must not have a
    /// configuration yet.
    pub fn initialize_authorized_echo_at(
        derived: &Option<Address>,
        configs: &mut ConfigStore,
        target: &mut AccountHandle,
        authority: &Address,
        seed: Vec<u8>,
        capacity: usize,
    ) -> (result: Result<Receipt, EchoError>)
        ensures
            match initialize_refusal(
                old(configs)@,
                bytes_of(*derived),
                old(target)@.address,
                capacity as nat,
            ) {
                Some(e) => {
                    &&& result matches Err(err)
                    &&& err == e
                    &&& final(target)@ == old(target)@
                    &&& final(configs)@ == old(configs)@
                },
                None => {
                    &&& result matches Ok(receipt)
                    &&& receipt@ == initialize_receipt(capacity as nat)
                    &&& final(target)@ == old(target)@.with_buffer(zeroed(capacity as nat))
                    &&& final(configs)@ == old(configs)@.insert(
                        old(target)@.address,
                        ConfigModel::Authorized {
                            authority: authority@,
                            seed: seed@,
                            capacity: capacity as nat,
                        },
                    )
                },
            },
    {
        let address = match derived {
            Some(address) => *address,
            None => { return Err(EchoError::AddressMismatch); },
        };
        let config = BufferConfig::Authorized(
            AuthorizedBufferConfig { authority: *authority, seed, capacity },
        );
        Self::initialize(configs, address, target, config, capacity)
    }

    /// Creates an authority-gated buffer of `capacity` zero bytes in `target`,
    /// and its configuration at the address derived from `program_id`,
    /// `authority` and `seed`.
    pub fn initialize_authorized_echo(
        program_id: &Address,
        configs: &mut ConfigStore,
        target: &mut AccountHandle,
        authority: &Address,
        seed: Vec<u8>,
        capacity: usize,
    ) -> (result: Result<Receipt, EchoError>)
        ensures
            match initialize_refusal(
                old(configs)@,
                derived_address(program_id@, authority@, seed@),
                old(target)@.address,
                capacity as nat,
            ) {
                Some(e) => {
                    &&& result matches Err(err)
                    &&& err == e
                    &&& final(target)@ == old(target)@
                    &&& final(configs)@ == old(configs)@
                },
                None => {
                    &&& result matches Ok(receipt)
                    &&& receipt@ == initialize_receipt(capacity as nat)
                    &&& final(target)@ == old(target)@.with_buffer(zeroed(capacity as nat))
                    &&& final(configs)@ == old(configs)@.insert(
                        old(target)@.address,
                        ConfigModel::Authorized {
                            authority: authority@,
                            seed: seed@,
                            capacity: capacity as nat,
                        },
                    )
                },
            },
    {
        let derived = Address::derive(program_id, authority, seed.as_slice());
        Self::initialize_authorized_echo_at(&derived, configs, target, authority, seed, capacity)
    }

    /// Creates a pay-per-byte buffer of `capacity` zero bytes in `target`, and
    /// its configuration at the address of `target`, which must not have a
    /// configuration yet.
    pub fn initialize_vending_machine_echo(
        configs: &mut ConfigStore,
        target: &mut AccountHandle,
        price_per_byte: u64,
        capacity: usize,
    ) -> (result: Result<Receipt, EchoError>)
        ensures
            match initialize_refusal(
                old(configs)@,
                Some(old(target)@.address),
                old(target)@.address,
                capacity as nat,
            ) {
                Some(e) => {
                    &&& result matches Err(err)
                    &&& err == e
                    &&& final(target)@ == old(target)@
                    &&& final(configs)@ == old(configs)@
                },
                None => {
                    &&& result matches Ok(receipt)
                    &&& receipt@ == initialize_receipt(capacity as nat)
                    &&& final(target)@ == old(target)@.with_buffer(zeroed(capacity as nat))
                    &&& final(configs)@ == old(configs)@.insert(
                        old(target)@.address,
                        ConfigModel::VendingMachine {
                            price_per_byte: price_per_byte as nat,
                            capacity: capacity as nat,
                        },
                    )
                },
            },
    {
        let address = target.address;
        let config = BufferConfig::VendingMachine(VendingMachineConfig { price_per_byte, capacity });
        Self::initialize(configs, address, target, config, capacity)
    }

    /// Routes a decoded request to the one operation it names. The accounts
    /// come in the order the operation expects: the buffer's account first,
    /// then the authority's or the payer's. A request that is refused changes
    /// nothing; one that succeeds returns the buffer's resulting contents and
    /// the payment taken from the payer.
    pub fn process_instruction(
        program_id: &Address,
        configs: &mut ConfigStore,
        accounts: &mut Vec<AccountHandle>,
        instruction: &EchoInstruction,
    ) -> (result: Result<Receipt, EchoError>)
        ensures
            final(accounts)@.len() == old(accounts)@.len(),
            match process_refusal(
                program_id@,
                old(configs)@,
                models(old(accounts)@),
                instruction@,
            ) {
                Some(e) => {
                    &&& result matches Err(err)
                    &&& err == e
                    &&& models(final(accounts)@) == models(old(accounts)@)
                    &&& final(configs)@ == old(configs)@
                },
                None => {
                    &&& result matches Ok(receipt)
                    &&& receipt@ == processed_receipt(
                        old(configs)@,
                        models(old(accounts)@),
                        instruction@,
                    )
                    &&& models(final(accounts)@) == processed_accounts(
                        old(configs)@,
                        models(old(accounts)@),
                        instruction@,
                    )
                    &&& final(configs)@ == processed_configs(
                        old(configs)@,
                        models(old(accounts)@),
                        instruction@,
                    )
                },
            },
    {
        let ghost before = models(accounts@);
        match instruction {
            EchoInstruction::Echo { data } => {
                if accounts.len() < 1 {
                    return Err(EchoError::InvalidRequest);
                }
                let result = Self::echo(&mut accounts[0], data.as_slice());
                assert(models(accounts@) =~= before.update(0, accounts@[0]@));
                assert(result is Err ==> models(accounts@) =~= before);
                result
            },
            EchoInstruction::InitializeAuthorizedEcho { buffer_seed, buffer_size } => {
                if accounts.len() < 2 {
                    return Err(EchoError::InvalidRequest);
                }
                let authority = accounts[1].address;
                let seed = buffer_seed.clone();
                assert(seed@ =~= buffer_seed@);
                let result = Self::initialize_authorized_echo(
                    program_id,
                    configs,
                    &mut accounts[0],
                    &authority,
                    seed,
                    *buffer_size,
                );
                assert(models(accounts@) =~= before.update(0, accounts@[0]@));
                assert(result is Err ==> models(accounts@) =~= before);
                result
            },
            EchoInstruction::AuthorizedEcho { data } => {
                if accounts.len() < 2 {
                    return Err(EchoError::InvalidRequest);
                }
                let caller = accounts[1].address;
                let caller_signed = accounts[1].is_signer;
                let result = Self::authorized_echo(
                    program_id,
                    configs,
                    &mut accounts[0],
                    &caller,
                    caller_signed,
                    data.as_slice(),
                );
                assert(models(accounts@) =~= before.update(0, accounts@[0]@));
                assert(result is Err ==> models(accounts@) =~= before);
                result
            },
            EchoInstruction::InitializeVendingMachineEcho { price, buffer_size } => {
                if accounts.len() < 1 {
                    return Err(EchoError::InvalidRequest);
                }
                let result = Self::initialize_vending_machine_echo(
                    configs,
                    &mut accounts[0],
                    *price,
                    *buffer_size,
                );
                assert(models(accounts@) =~= before.update(0, accounts@[0]@));
                assert(result is Err ==> models(accounts@) =~= before);
                result
            },
            EchoInstruction::VendingMachineEcho { data } => {
                if accounts.len() < 2 {
                    return Err(EchoError::InvalidRequest);
                }
                let funds = accounts[1].funds;
                let result = Self::vending_machine_echo(
                    configs,
                    &mut accounts[0],
                    funds,
                    data.as_slice(),
                );
                assert(models(accounts@) =~= before.update(0, accounts@[0]@));
                assert(result is Err ==> models(accounts@) =~= before);
                match result {
                    Ok(receipt) => {
                        let ghost written_accounts = models(accounts@);
                        accounts[1].funds = funds - receipt.payment;
                        assert(models(accounts@) =~= written_accounts.update(
                            1,
                            before[1].after_payment(receipt.payment as nat),
                        ));
                        Ok(receipt)
                    },
                    Err(e) => Err(e),
                }
            },
        }
    }

    /// Records `config` at `address` and gives `target`, which must sit there,
    /// a buffer of `capacity` zero bytes.
    fn initialize(
        configs: &mut ConfigStore,
        address: Address,
        target: &mut AccountHandle,
        config: BufferConfig,
        capacity: usize,
    ) -> (result: Result<Receipt, EchoError>)
        ensures
            match initialize_refusal(
                old(configs)@,
                Some(address@),
                old(target)@.address,
                capacity as nat,
            ) {
                Some(e) => {
                    &&& result matches Err(err)
                    &&& err == e
                    &&& final(target)@ == old(target)@
                    &&& final(configs)@ == old(configs)@
                },
                None => {
                    &&& result matches Ok(receipt)
                    &&& receipt@ == initialize_receipt(capacity as nat)
                    &&& final(target)@ == old(target)@.with_buffer(zeroed(capacity as nat))
                    &&& final(configs)@ == old(configs)@.insert(old(target)@.address, config@)
                },
            },
    {
        if configs.contains(&address) {
            return Err(EchoError::AlreadyInitialized);
        }
        if !(address == target.address) {
            return Err(EchoError::AddressMismatch);
        }
        let buffer = match BufferAccount::new(capacity) {
            Some(buffer) => buffer,
            None => { return Err(EchoError::InvalidRequest); },
        };
        configs.create(address, config)?;
        let contents = buffer.contents();
        target.buffer = Some(buffer);
        Ok(Receipt { contents, payment: 0 })
    }
}

} // verus!
