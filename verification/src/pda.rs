//! Descriptor addresses: one per counter value, derived from the owning
//! program, the watched account and the counter.

use vstd::prelude::*;
use crate::address::Address;
use crate::codec::{append_u64_le, descriptor_of, u64_le_bytes, DecodeError, TransferDescriptor};

verus! {

/// The program-derived address and bump seed that the ledger's derivation
/// gives for three seeds under a program, or `None` where it finds none.
pub uninterp spec fn program_address(
    seed0: Seq<u8>,
    seed1: Seq<u8>,
    seed2: Seq<u8>,
    program_id: Seq<u8>,
) -> Option<(Seq<u8>, u8)>;

/// The literal that opens every descriptor seed tuple: the ASCII of "nonce".
pub open spec fn nonce_label() -> Seq<u8> {
    seq![110u8, 111u8, 110u8, 99u8, 101u8]
}

/// The descriptor address of `counter` for a watched account under a program.
pub open spec fn descriptor_address(
    program_id: Seq<u8>,
    watched_account: Seq<u8>,
    counter: u64,
) -> Option<(Seq<u8>, u8)> {
    program_address(nonce_label(), watched_account, u64_le_bytes(counter), program_id)
}

/// Whether `r` is the derivation result `expected`, address by its bytes.
pub open spec fn is_derived(r: Option<(Address, u8)>, expected: Option<(Seq<u8>, u8)>) -> bool {
    match r {
        Some((address, bump)) => expected == Some((address@, bump)),
        None => expected is None,
    }
}

/// Calls `Pubkey::try_find_program_address` of solana_sdk with the three
/// seeds in order. Trusted: the result is the derivation of exactly these
/// seeds under this program, a function of the bytes alone; `None` where the
/// outside search over the bump seeds ends without an address.
#[verifier::external_body]
fn find_program_address(seed0: &[u8], seed1: &[u8], seed2: &[u8], program_id: &Address) -> (r:
    Option<(Address, u8)>)
    ensures
        is_derived(r, program_address(seed0@, seed1@, seed2@, program_id@)),
{
    let owner = solana_sdk::pubkey::Pubkey::new_from_array(program_id.bytes);
    let seeds: [&[u8]; 3] = [seed0, seed1, seed2];
    match solana_sdk::pubkey::Pubkey::try_find_program_address(&seeds, &owner) {
        Some((key, bump)) => Some((Address { bytes: key.to_bytes() }, bump)),
        None => None,
    }
}

/// Resolves and reads the per-counter descriptor accounts of one watched
/// account.
#[derive(Clone, Copy, Debug, PartialEq, Eq)]
pub struct PdaManager {
    pub program_id: Address,
    pub watched_account: Address,
}

impl PdaManager {
    pub fn new(program_id: Address, watched_account: Address) -> (m: PdaManager)
        ensures
            m.program_id == program_id,
            m.watched_account == watched_account,
    {
        PdaManager { program_id, watched_account }
    }

    /// The descriptor address and bump seed for `nonce`: derived from the
    /// seeds ("nonce", watched account, `nonce` as eight little-endian
    /// bytes) under the owning program.
    pub fn find_address(&self, nonce: u64) -> (r: Option<(Address, u8)>)
        ensures
            is_derived(r, descriptor_address(self.program_id@, self.watched_account@, nonce)),
    {
        let label: [u8; 5] = [110u8, 111u8, 110u8, 99u8, 101u8];
        assert(label@ =~= nonce_label());
        let mut counter_bytes: Vec<u8> = Vec::with_capacity(8);
        append_u64_le(&mut counter_bytes, nonce);
        assert(counter_bytes@ =~= u64_le_bytes(nonce));
        find_program_address(
            label.as_slice(),
            self.watched_account.bytes.as_slice(),
            counter_bytes.as_slice(),
            &self.program_id,
        )
    }

    /// Decodes what was read from a descriptor account: the amount and the
    /// destination address.
    pub fn get_transfer_info(&self, data: &[u8]) -> (r: Result<(u64, Address), DecodeError>)
        ensures
            r == transfer_info_of(data@),
            r is Ok ==> r->Ok_0.1@ == data@.subrange(40, 72),
    {
        match TransferDescriptor::from_bytes(data) {
            Ok(descriptor) => Ok((descriptor.amount, descriptor.destination_address)),
            Err(e) => Err(e),
        }
    }
}

/// The (amount, destination) pair that a descriptor buffer holds, or the
/// error its decoding gives.
pub open spec fn transfer_info_of(data: Seq<u8>) -> Result<(u64, Address), DecodeError> {
    match descriptor_of(data) {
        Ok(descriptor) => Ok((descriptor.amount, descriptor.destination_address)),
        Err(e) => Err(e),
    }
}

} // verus!
