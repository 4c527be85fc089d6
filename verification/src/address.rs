//! Ledger addresses as plain 32-byte values.

use vstd::prelude::*;

verus! {

/// Width of a ledger address in bytes.
pub const ADDRESS_LEN: usize = 32;

/// A 32-byte ledger identifier (an account or a program).
#[derive(Clone, Copy, Debug, PartialEq, Eq, Hash)]
pub struct Address {
    pub bytes: [u8; 32],
}

impl View for Address {
    type V = Seq<u8>;

    open spec fn view(&self) -> Seq<u8> {
        self.bytes@
    }
}

/// The address that holds the 32 bytes `s`.
pub open spec fn address_of(s: Seq<u8>) -> Address
    recommends
        s.len() == 32,
{
    choose|a: Address| a@ == s
}

/// An array whose first `n` places hold the first `n` bytes of `s`; the
/// other places are left open.
pub open spec fn array_of(s: Seq<u8>, n: nat) -> [u8; 32]
    decreases n,
{
    if n == 0 {
        arbitrary()
    } else {
        vstd::array::spec_array_update(array_of(s, (n - 1) as nat), n - 1, s[n - 1])
    }
}

/// `array_of` holds what it is named after.
pub proof fn lemma_array_of(s: Seq<u8>, n: nat)
    requires
        n <= 32,
        n <= s.len(),
    ensures
        array_of(s, n)@.len() == 32,
        forall|i: int| 0 <= i < n ==> array_of(s, n)@[i] == s[i],
    decreases n,
{
    if n > 0 {
        lemma_array_of(s, (n - 1) as nat);
    }
}

/// The address of 32 bytes holds these bytes.
pub proof fn lemma_address_of_bytes(s: Seq<u8>)
    requires
        s.len() == 32,
    ensures
        address_of(s)@ == s,
{
    lemma_array_of(s, 32);
    let witness = Address { bytes: array_of(s, 32) };
    assert(witness@ =~= s);
}

/// An address is determined by its bytes.
pub proof fn lemma_address_by_bytes(a: Address)
    ensures
        address_of(a@) == a,
{
    let b = address_of(a@);
    assert(b@ == a@);
    assert(b.bytes =~= a.bytes);
}

impl Address {
    /// The address whose bytes are the given array.
    pub fn new(bytes: [u8; 32]) -> (a: Address)
        ensures
            a.bytes == bytes,
            a@ == bytes@,
    {
        Address { bytes }
    }

    /// Copies the 32 bytes that start at `offset` out of `data`.
    pub fn from_slice(data: &[u8], offset: usize) -> (a: Address)
        requires
            offset + 32 <= data@.len(),
        ensures
            a@ == data@.subrange(offset as int, offset + 32),
            a == address_of(data@.subrange(offset as int, offset + 32)),
    {
        let total: usize = data.len();
        let mut bytes: [u8; 32] = [0u8; 32];
        let mut i: usize = 0;
        while i < 32
            invariant
                i <= 32,
                offset + 32 <= total,
                total == data@.len(),
                forall|k: int| 0 <= k < i ==> bytes@[k] == data@[offset + k],
            decreases 32 - i,
        {
            bytes[i] = data[offset + i];
            i = i + 1;
        }
        assert(bytes@ =~= data@.subrange(offset as int, offset + 32));
        let a = Address { bytes };
        proof {
            lemma_address_by_bytes(a);
        }
        a
    }
}

} // verus!
