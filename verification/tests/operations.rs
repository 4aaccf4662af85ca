use echo::account::AccountHandle;
use echo::address::Address;
use echo::buffer::BufferAccount;
use echo::config::{AuthorizedBufferConfig, BufferConfig, ConfigStore};
use echo::error::EchoError;
use echo::processor::{Processor, Receipt};

fn account(byte: u8, buffer: Option<BufferAccount>) -> AccountHandle {
    AccountHandle { address: Address::new([byte; 32]), is_signer: false, funds: 0, buffer }
}

fn contents(handle: &AccountHandle) -> Vec<u8> {
    handle.buffer.as_ref().unwrap().contents()
}

fn authorized_config() -> AuthorizedBufferConfig {
    AuthorizedBufferConfig { authority: Address::new([1u8; 32]), seed: vec![7, 7], capacity: 4 }
}

#[test]
fn echo_writes_the_data_at_the_start() {
    let mut target = account(5, BufferAccount::from_bytes(vec![9u8; 6]));
    let receipt = Processor::echo(&mut target, &[1, 2, 3]).unwrap();
    assert_eq!(receipt, Receipt { contents: vec![1, 2, 3, 9, 9, 9], payment: 0 });
    assert_eq!(&contents(&target)[0..3], &[1u8, 2, 3]);
    assert_eq!(contents(&target), vec![1u8, 2, 3, 9, 9, 9]);
}

#[test]
fn echo_of_too_much_data_overflows() {
    let mut target = account(5, BufferAccount::from_bytes(vec![9u8; 2]));
    assert_eq!(Processor::echo(&mut target, &[1, 2, 3]), Err(EchoError::BufferOverflow));
    assert_eq!(contents(&target), vec![9u8, 9]);
}

#[test]
fn echo_needs_a_buffer() {
    let mut target = account(5, None);
    assert_eq!(Processor::echo(&mut target, &[1]), Err(EchoError::InvalidRequest));
    assert!(target.buffer.is_none());
}

#[test]
fn authorized_echo_at_writes_for_the_authority() {
    let mut target = account(5, BufferAccount::new(4));
    let derived = Some(Address::new([5u8; 32]));
    let receipt = Processor::authorized_echo_at(
        &authorized_config(),
        &derived,
        &mut target,
        &Address::new([1u8; 32]),
        true,
        &[8, 9],
    );
    assert_eq!(receipt, Ok(Receipt { contents: vec![8, 9, 0, 0], payment: 0 }));
    assert_eq!(contents(&target), vec![8u8, 9, 0, 0]);
}

#[test]
fn authorized_echo_at_refuses_everyone_else() {
    let derived = Some(Address::new([5u8; 32]));
    let elsewhere = Some(Address::new([6u8; 32]));
    let authority = Address::new([1u8; 32]);
    let stranger = Address::new([2u8; 32]);
    let cases = vec![
        (stranger, true, derived, EchoError::Unauthorized),
        (authority, false, derived, EchoError::Unauthorized),
        (stranger, false, elsewhere, EchoError::Unauthorized),
        (authority, true, elsewhere, EchoError::AddressMismatch),
        (authority, true, None, EchoError::AddressMismatch),
    ];
    for (caller, signed, derived, expected) in cases {
        let mut target = account(5, BufferAccount::new(4));
        let result = Processor::authorized_echo_at(
            &authorized_config(),
            &derived,
            &mut target,
            &caller,
            signed,
            &[8, 9],
        );
        assert_eq!(result, Err(expected));
        assert_eq!(contents(&target), vec![0u8; 4]);
    }
}

#[test]
fn authorized_echo_at_checks_the_capacity_last() {
    let derived = Some(Address::new([5u8; 32]));
    let mut target = account(5, BufferAccount::new(4));
    let authority = Address::new([1u8; 32]);
    let config = authorized_config();
    assert_eq!(
        Processor::authorized_echo_at(&config, &derived, &mut target, &authority, true, &[1; 5]),
        Err(EchoError::BufferOverflow)
    );
    assert_eq!(
        Processor::authorized_echo_at(&config, &derived, &mut target, &authority, false, &[1; 5]),
        Err(EchoError::Unauthorized)
    );
    assert_eq!(contents(&target), vec![0u8; 4]);
}

#[test]
fn initialize_authorized_echo_at_creates_config_and_buffer() {
    let mut configs = ConfigStore::new();
    let mut target = account(5, None);
    let derived = Some(Address::new([5u8; 32]));
    let authority = Address::new([1u8; 32]);
    let receipt = Processor::initialize_authorized_echo_at(
        &derived,
        &mut configs,
        &mut target,
        &authority,
        vec![7, 7],
        3,
    );
    assert_eq!(receipt, Ok(Receipt { contents: vec![0, 0, 0], payment: 0 }));
    assert_eq!(contents(&target), vec![0u8, 0, 0]);
    match configs.get(&Address::new([5u8; 32])) {
        Some(BufferConfig::Authorized(config)) => {
            assert_eq!(config.authority, authority);
            assert_eq!(config.seed, vec![7u8, 7]);
            assert_eq!(config.capacity, 3);
        },
        other => panic!("unexpected configuration: {:?}", other),
    }
}

#[test]
fn initialize_authorized_echo_at_refusals_come_in_order() {
    let authority = Address::new([1u8; 32]);
    let here = Some(Address::new([5u8; 32]));
    let elsewhere = Some(Address::new([6u8; 32]));

    let mut configs = ConfigStore::new();
    let mut target = account(5, None);
    let init = Processor::initialize_authorized_echo_at;
    assert_eq!(
        init(&None, &mut configs, &mut target, &authority, vec![], 0),
        Err(EchoError::AddressMismatch)
    );
    assert_eq!(
        init(&elsewhere, &mut configs, &mut target, &authority, vec![], 0),
        Err(EchoError::AddressMismatch)
    );
    assert_eq!(
        init(&here, &mut configs, &mut target, &authority, vec![], 0),
        Err(EchoError::InvalidRequest)
    );
    assert!(target.buffer.is_none());
    assert!(!configs.contains(&Address::new([5u8; 32])));
    assert!(init(&here, &mut configs, &mut target, &authority, vec![], 2).is_ok());

    let mut other = account(6, None);
    assert_eq!(
        init(&here, &mut configs, &mut other, &authority, vec![], 0),
        Err(EchoError::AlreadyInitialized)
    );
    assert!(other.buffer.is_none());
}

#[test]
fn initialize_authorized_echo_derives_the_address_itself() {
    let program = Address::new([3u8; 32]);
    let authority = Address::new([1u8; 32]);
    let derived = Address::derive(&program, &authority, &[7, 7]).unwrap();
    let mut configs = ConfigStore::new();

    let mut wrong = account(5, None);
    assert_eq!(
        Processor::initialize_authorized_echo(
            &program,
            &mut configs,
            &mut wrong,
            &authority,
            vec![7, 7],
            4
        ),
        Err(EchoError::AddressMismatch)
    );
    let mut target =
        AccountHandle { address: derived, is_signer: false, funds: 0, buffer: None };
    assert_eq!(
        Processor::initialize_authorized_echo(
            &program,
            &mut configs,
            &mut target,
            &authority,
            vec![7, 7],
            4
        ),
        Ok(Receipt { contents: vec![0; 4], payment: 0 })
    );
    assert!(configs.contains(&derived));
    assert_eq!(
        Processor::authorized_echo(&program, &configs, &mut target, &authority, true, &[1, 2]),
        Ok(Receipt { contents: vec![1, 2, 0, 0], payment: 0 })
    );
    assert_eq!(
        Processor::authorized_echo(
            &Address::new([4u8; 32]),
            &configs,
            &mut target,
            &authority,
            true,
            &[3]
        ),
        Err(EchoError::AddressMismatch)
    );
    assert_eq!(contents(&target), vec![1u8, 2, 0, 0]);
}

#[test]
fn initialize_authorized_echo_refuses_an_overlong_seed() {
    let program = Address::new([3u8; 32]);
    let authority = Address::new([1u8; 32]);
    let mut configs = ConfigStore::new();
    let mut target = account(5, None);
    assert_eq!(
        Processor::initialize_authorized_echo(
            &program,
            &mut configs,
            &mut target,
            &authority,
            vec![0; 33],
            4
        ),
        Err(EchoError::AddressMismatch)
    );
}

#[test]
fn authorized_echo_needs_an_authorized_config() {
    let program = Address::new([3u8; 32]);
    let authority = Address::new([1u8; 32]);
    let mut configs = ConfigStore::new();
    let mut target = account(5, BufferAccount::new(4));
    assert_eq!(
        Processor::authorized_echo(&program, &configs, &mut target, &authority, true, &[1]),
        Err(EchoError::InvalidRequest)
    );
    assert!(Processor::initialize_vending_machine_echo(&mut configs, &mut target, 1, 4).is_ok());
    assert_eq!(
        Processor::authorized_echo(&program, &configs, &mut target, &authority, true, &[1]),
        Err(EchoError::InvalidRequest)
    );
    assert_eq!(contents(&target), vec![0u8; 4]);
}

#[test]
fn initialize_vending_machine_echo_twice_is_refused() {
    let mut configs = ConfigStore::new();
    let mut target = account(5, None);
    assert_eq!(
        Processor::initialize_vending_machine_echo(&mut configs, &mut target, 5, 10),
        Ok(Receipt { contents: vec![0; 10], payment: 0 })
    );
    assert!(Processor::echo(&mut target, &[1, 2]).is_ok());
    assert_eq!(
        Processor::initialize_vending_machine_echo(&mut configs, &mut target, 6, 3),
        Err(EchoError::AlreadyInitialized)
    );
    assert_eq!(
        Processor::initialize_vending_machine_echo(&mut configs, &mut target, 6, 0),
        Err(EchoError::AlreadyInitialized)
    );
    assert_eq!(contents(&target), vec![1u8, 2, 0, 0, 0, 0, 0, 0, 0, 0]);
    match configs.get(&target.address) {
        Some(BufferConfig::VendingMachine(config)) => {
            assert_eq!(config.price_per_byte, 5);
            assert_eq!(config.capacity, 10);
        },
        other => panic!("unexpected configuration: {:?}", other),
    }
}

#[test]
fn initialize_vending_machine_echo_needs_capacity() {
    let mut configs = ConfigStore::new();
    let mut target = account(5, None);
    assert_eq!(
        Processor::initialize_vending_machine_echo(&mut configs, &mut target, 5, 0),
        Err(EchoError::InvalidRequest)
    );
    assert!(!configs.contains(&target.address));
    assert!(target.buffer.is_none());
}

#[test]
fn vending_machine_echo_charges_price_times_length() {
    let mut configs = ConfigStore::new();
    let mut target = account(5, None);
    assert!(Processor::initialize_vending_machine_echo(&mut configs, &mut target, 3, 8).is_ok());
    assert_eq!(
        Processor::vending_machine_echo(&configs, &mut target, 100, &[1, 2, 3, 4]),
        Ok(Receipt { contents: vec![1, 2, 3, 4, 0, 0, 0, 0], payment: 12 })
    );
    assert_eq!(
        Processor::vending_machine_echo(&configs, &mut target, 0, &[]),
        Ok(Receipt { contents: vec![1, 2, 3, 4, 0, 0, 0, 0], payment: 0 })
    );
}

#[test]
fn vending_machine_echo_refusals_come_in_order() {
    let mut configs = ConfigStore::new();
    let mut target = account(5, None);
    assert_eq!(
        Processor::vending_machine_echo(&configs, &mut target, 100, &[1]),
        Err(EchoError::InvalidRequest)
    );
    assert!(
        Processor::initialize_vending_machine_echo(&mut configs, &mut target, u64::MAX, 2).is_ok()
    );
    assert_eq!(
        Processor::vending_machine_echo(&configs, &mut target, u64::MAX, &[1, 2, 3]),
        Err(EchoError::PaymentOverflow)
    );
    assert_eq!(
        Processor::vending_machine_echo(&configs, &mut target, u64::MAX - 1, &[1]),
        Err(EchoError::InsufficientFunds)
    );
    assert_eq!(contents(&target), vec![0u8, 0]);

    let mut cheap = account(6, None);
    assert!(Processor::initialize_vending_machine_echo(&mut configs, &mut cheap, 1, 2).is_ok());
    assert_eq!(
        Processor::vending_machine_echo(&configs, &mut cheap, 2, &[1, 2, 3]),
        Err(EchoError::InsufficientFunds)
    );
    assert_eq!(
        Processor::vending_machine_echo(&configs, &mut cheap, 3, &[1, 2, 3]),
        Err(EchoError::BufferOverflow)
    );
    assert_eq!(contents(&cheap), vec![0u8, 0]);
}
