use solana_program::pubkey::Pubkey;
use vstd::prelude::*;

verus! {

/// An opaque 32-byte public identifier of an account or a program. Its view is
/// its bytes.
#[derive(Clone, Copy, Debug)]
pub struct Address {
    bytes: [u8; 32],
}

impl View for Address {
    type V = Seq<u8>;

    closed spec fn view(&self) -> Seq<u8> {
        self.bytes@
    }
}

impl PartialEq for Address {
    fn eq(&self, other: &Address) -> (same: bool) {
        let mut i: usize = 0;
        while i < 32
            invariant
                i <= 32,
                forall|j: int| 0 <= j < i ==> self.bytes@[j] == other.bytes@[j],
            decreases 32 - i,
        {
            if self.bytes[i] != other.bytes[i] {
                return false;
            }
            i = i + 1;
        }
        assert(self.bytes@ =~= other.bytes@);
        true
    }
}

impl Eq for Address {

}

impl vstd::std_specs::cmp::PartialEqSpecImpl for Address {
    open spec fn obeys_eq_spec() -> bool {
        true
    }

    open spec fn eq_spec(&self, other: &Address) -> bool {
        self@ == other@
    }
}

impl Address {
    /// The address with the given bytes.
    pub fn new(bytes: [u8; 32]) -> (address: Address)
        ensures
            address@ == bytes@,
    {
        Address { bytes }
    }

    /// The address's bytes.
    pub fn to_bytes(&self) -> (bytes: [u8; 32])
        ensures
            bytes@ == self@,
    {
        self.bytes
    }

    /// Every address has 32 bytes.
    pub proof fn lemma_len(self)
        ensures
            self@.len() == 32,
    {
    }

    /// The address that belongs to a program, an authority and a seed, where
    /// one can be derived.
    pub fn derive(program_id: &Address, authority: &Address, seed: &[u8]) -> (derived: Option<
        Address,
    >)
        ensures
            bytes_of(derived) == derived_address(program_id@, authority@, seed@),
    {
        find_program_address(authority.bytes.as_slice(), seed, program_id)
    }
}

/// The bytes of an address that may be absent.
pub open spec fn bytes_of(address: Option<Address>) -> Option<Seq<u8>> {
    match address {
        Some(a) => Some(a@),
        None => None,
    }
}

/// The bytes of the address that the outside derivation finds for two seeds
/// under a program, or none where it finds no address.
pub uninterp spec fn program_address(
    first_seed: Seq<u8>,
    second_seed: Seq<u8>,
    program_id: Seq<u8>,
) -> Option<Seq<u8>>;

/// The bytes of the address at which the buffer of `authority` with `seed`
/// lives under `program_id`: the program address of the seeds `authority`, `seed`.
pub open spec fn derived_address(program_id: Seq<u8>, authority: Seq<u8>, seed: Seq<u8>) -> Option<
    Seq<u8>,
> {
    program_address(authority, seed, program_id)
}

/// Calls `Pubkey::try_find_program_address` of solana_program with the two
/// seeds, in that order, and keeps the address it finds, without the bump seed.
/// Believed, not proved: the outcome depends on the three arguments' bytes alone.
/// The call hashes the seeds, a bump seed and the program id, and returns the
/// first hash that is no curve point; it returns nothing where no bump seed
/// gives one or a seed is longer than it accepts.
#[verifier::external_body]
fn find_program_address(first_seed: &[u8], second_seed: &[u8], program_id: &Address) -> (found:
    Option<Address>)
    ensures
        bytes_of(found) == program_address(first_seed@, second_seed@, program_id@),
{
    let program = Pubkey::new_from_array(program_id.bytes);
    match Pubkey::try_find_program_address(&[first_seed, second_seed], &program) {
        Some((address, _)) => Some(Address { bytes: address.to_bytes() }),
        None => None,
    }
}

} // verus!
