use vstd::prelude::*;
use crate::address::Address;
use crate::error::EchoError;

verus! {

/// The configuration of a buffer that only its authority may write to: the
/// authority, and the seed from which the buffer's address is derived with it.
#[derive(Clone, Debug, PartialEq, Eq)]
pub struct AuthorizedBufferConfig {
    pub authority: Address,
    pub seed: Vec<u8>,
    pub capacity: usize,
}

/// The configuration of a buffer whose writes are paid for by the byte.
#[derive(Clone, Copy, Debug, PartialEq, Eq)]
pub struct VendingMachineConfig {
    pub price_per_byte: u64,
    pub capacity: usize,
}

/// The configuration recorded for a buffer when it is initialized.
#[derive(Clone, Debug, PartialEq, Eq)]
pub enum BufferConfig {
    Authorized(AuthorizedBufferConfig),
    VendingMachine(VendingMachineConfig),
}

/// What a configuration says, as mathematical values.
pub enum ConfigModel {
    Authorized { authority: Seq<u8>, seed: Seq<u8>, capacity: nat },
    VendingMachine { price_per_byte: nat, capacity: nat },
}

impl View for AuthorizedBufferConfig {
    type V = ConfigModel;

    open spec fn view(&self) -> ConfigModel {
        ConfigModel::Authorized {
            authority: self.authority@,
            seed: self.seed@,
            capacity: self.capacity as nat,
        }
    }
}

impl View for VendingMachineConfig {
    type V = ConfigModel;

    open spec fn view(&self) -> ConfigModel {
        ConfigModel::VendingMachine {
            price_per_byte: self.price_per_byte as nat,
            capacity: self.capacity as nat,
        }
    }
}

impl View for BufferConfig {
    type V = ConfigModel;

    open spec fn view(&self) -> ConfigModel {
        match self {
            BufferConfig::Authorized(config) => config@,
            BufferConfig::VendingMachine(config) => config@,
        }
    }
}

/// One configuration and the address it was created at.
#[derive(Debug)]
struct ConfigEntry {
    address: Address,
    config: BufferConfig,
}

/// The map that a sequence of entries stands for.
spec fn model_of(entries: Seq<ConfigEntry>) -> Map<Seq<u8>, ConfigModel>
    decreases entries.len(),
{
    if entries.len() == 0 {
        Map::empty()
    } else {
        model_of(entries.drop_last()).insert(entries.last().address@, entries.last().config@)
    }
}

/// The configurations created so far, each under the address of its buffer. Its
/// view maps an address's bytes to what the configuration there says. Entries
/// are only ever added: none is changed or removed.
#[derive(Debug)]
pub struct ConfigStore {
    entries: Vec<ConfigEntry>,
}

impl View for ConfigStore {
    type V = Map<Seq<u8>, ConfigModel>;

    closed spec fn view(&self) -> Map<Seq<u8>, ConfigModel> {
        model_of(self.entries@)
    }
}

impl ConfigStore {
    /// A store without configurations.
    pub fn new() -> (store: ConfigStore)
        ensures
            store@ == Map::<Seq<u8>, ConfigModel>::empty(),
    {
        ConfigStore { entries: Vec::new() }
    }

    /// The configuration at `address`, if one was created there.
    pub fn get(&self, address: &Address) -> (found: Option<&BufferConfig>)
        ensures
            match found {
                Some(config) => self@.contains_key(address@) && self@[address@] == config@,
                None => !self@.contains_key(address@),
            },
    {
        let mut i: usize = self.entries.len();
        assert(self.entries@.take(i as int) =~= self.entries@);
        while i > 0
            invariant
                i <= self.entries@.len(),
                self@.contains_key(address@) <==> model_of(
                    self.entries@.take(i as int),
                ).contains_key(address@),
                self@.contains_key(address@) ==> self@[address@] == model_of(
                    self.entries@.take(i as int),
                )[address@],
            decreases i,
        {
            i = i - 1;
            assert(self.entries@.take(i + 1).drop_last() =~= self.entries@.take(i as int));
            if self.entries[i].address == *address {
                return Some(&self.entries[i].config);
            }
        }
        None
    }

    /// Whether a configuration was created at `address`.
    pub fn contains(&self, address: &Address) -> (present: bool)
        ensures
            present == self@.contains_key(address@),
    {
        self.get(address).is_some()
    }

    /// Records `config` at `address`. An address that already has a configuration
    /// keeps it, and the call fails.
    pub fn create(&mut self, address: Address, config: BufferConfig) -> (result: Result<
        (),
        EchoError,
    >)
        ensures
            match result {
                Ok(()) => {
                    &&& !old(self)@.contains_key(address@)
                    &&& final(self)@ == old(self)@.insert(address@, config@)
                },
                Err(e) => {
                    &&& e == EchoError::AlreadyInitialized
                    &&& old(self)@.contains_key(address@)
                    &&& final(self)@ == old(self)@
                },
            },
    {
        if self.contains(&address) {
            return Err(EchoError::AlreadyInitialized);
        }
        self.entries.push(ConfigEntry { address, config });
        assert(self.entries@.drop_last() =~= old(self).entries@);
        Ok(())
    }
}

} // verus!
