//! Assembly of the relay transaction: one instruction over four accounts,
//! signed by the relay's key over a recent block reference.

use vstd::prelude::*;
use solana_sdk::instruction::{AccountMeta, Instruction};
use solana_sdk::pubkey::Pubkey;
use solana_sdk::signer::keypair::Keypair;
use solana_sdk::transaction::Transaction;
use crate::address::Address;
use crate::codec::{encode_payload, payload_bytes};

verus! {

/// A signed transaction of the destination ledger, carried through as is.
#[verifier::external_type_specification]
#[verifier::external_body]
pub struct ExTransaction(Transaction);

/// Whether `Keypair::from_bytes` of solana_sdk accepts these key bytes.
pub uninterp spec fn keypair_accepted(bytes: Seq<u8>) -> bool;

/// The signatures, one after the other, and the serialized message of the
/// transaction that `Transaction::new_signed_with_payer` of solana_sdk makes
/// of one instruction (program, accounts with their signer and writable
/// flags, data), a fee payer and a recent blockhash, signed with the key of
/// these key bytes.
pub uninterp spec fn signed_transaction(
    key: Seq<u8>,
    program_id: Seq<u8>,
    accounts: Seq<(Seq<u8>, bool, bool)>,
    data: Seq<u8>,
    payer: Seq<u8>,
    recent_blockhash: Seq<u8>,
) -> (Seq<u8>, Seq<u8>);

/// The relay's signing key: 32 secret bytes followed by the 32 bytes of the
/// public key, which is the signer's address.
#[derive(Clone)]
pub struct SignerKey {
    pub bytes: [u8; 64],
}

impl View for SignerKey {
    type V = Seq<u8>;

    open spec fn view(&self) -> Seq<u8> {
        self.bytes@
    }
}

impl SignerKey {
    /// The signer's address: the second half of the key bytes.
    pub fn address(&self) -> (a: Address)
        ensures
            a@ == self@.subrange(32, 64),
    {
        Address::from_slice(self.bytes.as_slice(), 32)
    }
}

/// One account an instruction refers to, with the access it asks for.
#[derive(Clone, Copy, Debug, PartialEq, Eq)]
pub struct AccountRef {
    pub address: Address,
    pub is_signer: bool,
    pub is_writable: bool,
}

/// An instruction for the destination program.
#[derive(Clone, Debug, PartialEq, Eq)]
pub struct RelayInstruction {
    pub program_id: Address,
    pub accounts: Vec<AccountRef>,
    pub data: Vec<u8>,
}

/// The system program's address: 32 zero bytes.
pub open spec fn system_program() -> Seq<u8> {
    Seq::new(32, |i: int| 0u8)
}

/// Whether `account` refers to `address` with exactly this access.
pub open spec fn account_is(
    account: AccountRef,
    address: Seq<u8>,
    is_signer: bool,
    is_writable: bool,
) -> bool {
    &&& account.address@ == address
    &&& account.is_signer == is_signer
    &&& account.is_writable == is_writable
}

/// Whether `ix` is the relay-transfer instruction: the counter-account
/// (writable), the payer (writable, signer), the transfer's destination
/// (writable) and the system program (read-only), in this order, with the
/// payload that carries `amount` and `nonce`.
pub open spec fn is_transfer_instruction(
    ix: RelayInstruction,
    program_id: Seq<u8>,
    nonce_account: Seq<u8>,
    payer: Seq<u8>,
    to_address: Seq<u8>,
    amount: u64,
    nonce: u64,
) -> bool {
    &&& ix.program_id@ == program_id
    &&& ix.data@ == payload_bytes(amount, nonce)
    &&& ix.accounts@.len() == 4
    &&& account_is(ix.accounts@[0], nonce_account, false, true)
    &&& account_is(ix.accounts@[1], payer, true, true)
    &&& account_is(ix.accounts@[2], to_address, false, true)
    &&& account_is(ix.accounts@[3], system_program(), false, false)
}

/// An account list as plain values: address, signer flag, writable flag.
pub open spec fn account_views(accounts: Seq<AccountRef>) -> Seq<(Seq<u8>, bool, bool)> {
    Seq::new(
        accounts.len(),
        |i: int| (accounts[i].address@, accounts[i].is_signer, accounts[i].is_writable),
    )
}

/// The account list of the relay-transfer instruction as plain values.
pub open spec fn transfer_accounts(
    nonce_account: Seq<u8>,
    payer: Seq<u8>,
    to_address: Seq<u8>,
) -> Seq<(Seq<u8>, bool, bool)> {
    seq![
        (nonce_account, false, true),
        (payer, true, true),
        (to_address, false, true),
        (system_program(), false, false),
    ]
}

/// Why a transaction could not be assembled.
#[derive(Clone, Copy, Debug, PartialEq, Eq, Structural)]
pub enum AssembleError {
    /// The signing key was not accepted.
    InvalidSigner,
}

/// A relay transaction together with what was signed.
pub struct SignedTransfer {
    pub instruction: RelayInstruction,
    pub payer: Address,
    pub recent_blockhash: [u8; 32],
    /// The transaction's signatures, one after the other.
    pub signatures: Vec<u8>,
    /// The serialized message that was signed.
    pub message: Vec<u8>,
    pub transaction: Transaction,
}

impl SignedTransfer {
    /// Pairs what was handed to the signer with what the signer gave back
    /// (signatures, message, transaction): the signed transfer where there
    /// is a transaction, the signer's failure where there is none.
    pub fn from_signing(
        instruction: RelayInstruction,
        payer: Address,
        recent_blockhash: [u8; 32],
        signed: Option<(Vec<u8>, Vec<u8>, Transaction)>,
    ) -> (r: Result<SignedTransfer, AssembleError>)
        ensures
            r is Ok <==> signed is Some,
            r is Err ==> r->Err_0 == AssembleError::InvalidSigner,
            r is Ok ==> {
                &&& r->Ok_0.instruction == instruction
                &&& r->Ok_0.payer == payer
                &&& r->Ok_0.recent_blockhash == recent_blockhash
                &&& r->Ok_0.signatures == signed->Some_0.0
                &&& r->Ok_0.message == signed->Some_0.1
                &&& r->Ok_0.transaction == signed->Some_0.2
            },
    {
        match signed {
            Some((signatures, message, transaction)) => Ok(
                SignedTransfer {
                    instruction,
                    payer,
                    recent_blockhash,
                    signatures,
                    message,
                    transaction,
                },
            ),
            None => Err(AssembleError::InvalidSigner),
        }
    }
}

/// Calls `Keypair::from_bytes` and `Transaction::new_signed_with_payer` of
/// solana_sdk: the instruction as given, `payer` as fee payer, the key as
/// the only signer; beside the transaction it hands out its signatures and
/// `Transaction::message_data`. Trusted: there is a transaction exactly
/// where the key bytes are accepted, and its signatures and message are a
/// function of the key, the instruction, the payer and the blockhash alone.
/// The `requires` keeps to the inputs on which the
/// outside call returns: the payer is the key's own address and no other
/// account is asked to sign, so that the signing finds its one signer; the
/// account list and the instruction data are short enough for the message
/// to be compiled and serialized, whose length prefixes are 16 bits wide.
#[verifier::external_body]
fn sign_with_payer(
    key: &SignerKey,
    ix: &RelayInstruction,
    payer: &Address,
    recent_blockhash: &[u8; 32],
) -> (r: Option<(Vec<u8>, Vec<u8>, Transaction)>)
    requires
        payer@ == key@.subrange(32, 64),
        ix.accounts@.len() <= 16,
        ix.data@.len() <= 65535,
        forall|i: int|
            0 <= i < ix.accounts@.len() && (#[trigger] ix.accounts@[i]).is_signer
                ==> ix.accounts@[i].address@ == payer@,
    ensures
        r is Some <==> keypair_accepted(key@),
        r is Some ==> (r->Some_0.0@, r->Some_0.1@) == signed_transaction(
            key@,
            ix.program_id@,
            account_views(ix.accounts@),
            ix.data@,
            payer@,
            recent_blockhash@,
        ),
{
    let keypair = Keypair::from_bytes(&key.bytes).ok()?;
    let accounts = ix.accounts.iter().map(|a| AccountMeta {
        pubkey: Pubkey::new_from_array(a.address.bytes),
        is_signer: a.is_signer,
        is_writable: a.is_writable,
    }).collect();
    let program_id = Pubkey::new_from_array(ix.program_id.bytes);
    let instruction = Instruction { program_id, accounts, data: ix.data.clone() };
    let fee_payer = Pubkey::new_from_array(payer.bytes);
    let hash = (*recent_blockhash).into();
    let tx = Transaction::new_signed_with_payer(&[instruction], Some(&fee_payer), &[&keypair], hash);
    let signatures = tx.signatures.iter().flat_map(|s| s.as_ref().to_vec()).collect();
    Some((signatures, tx.message_data(), tx))
}

/// Builds relay transactions for one destination program and its
/// counter-account.
#[derive(Clone, Copy, Debug, PartialEq, Eq)]
pub struct TransactionBuilder {
    pub program_id: Address,
    pub nonce_account: Address,
}

impl TransactionBuilder {
    pub fn new(program_id: Address, nonce_account: Address) -> (b: TransactionBuilder)
        ensures
            b.program_id == program_id,
            b.nonce_account == nonce_account,
    {
        TransactionBuilder { program_id, nonce_account }
    }

    /// The relay-transfer instruction for one transfer, paid by `payer`.
    pub fn build_transfer_instruction(
        &self,
        amount: u64,
        nonce: u64,
        to_address: &Address,
        payer: &Address,
    ) -> (ix: RelayInstruction)
        ensures
            is_transfer_instruction(
                ix,
                self.program_id@,
                self.nonce_account@,
                payer@,
                to_address@,
                amount,
                nonce,
            ),
    {
        let system = Address::new([0u8; 32]);
        assert(system@ =~= system_program());
        let mut accounts: Vec<AccountRef> = Vec::with_capacity(4);
        accounts.push(AccountRef { address: self.nonce_account, is_signer: false, is_writable: true });
        accounts.push(AccountRef { address: *payer, is_signer: true, is_writable: true });
        accounts.push(AccountRef { address: *to_address, is_signer: false, is_writable: true });
        accounts.push(AccountRef { address: system, is_signer: false, is_writable: false });
        let data = encode_payload(amount, nonce);
        RelayInstruction { program_id: self.program_id, accounts, data }
    }

    /// Assembles and signs the relay transaction for one transfer. The
    /// signer pays and is the only account that signs; the transaction is
    /// valid with respect to `recent_blockhash`. Fails exactly where the
    /// signing key is not accepted. The signatures and the signed message
    /// are those of the relay-transfer instruction under this key, payer and
    /// blockhash.
    pub fn build_transfer_transaction(
        &self,
        amount: u64,
        nonce: u64,
        to_address: &Address,
        payer: &SignerKey,
        recent_blockhash: &[u8; 32],
    ) -> (r: Result<SignedTransfer, AssembleError>)
        ensures
            r is Ok <==> keypair_accepted(payer@),
            r is Err ==> r->Err_0 == AssembleError::InvalidSigner,
            r is Ok ==> {
                &&& is_transfer_instruction(
                    r->Ok_0.instruction,
                    self.program_id@,
                    self.nonce_account@,
                    payer@.subrange(32, 64),
                    to_address@,
                    amount,
                    nonce,
                )
                &&& r->Ok_0.payer@ == payer@.subrange(32, 64)
                &&& r->Ok_0.recent_blockhash == *recent_blockhash
                &&& (r->Ok_0.signatures@, r->Ok_0.message@) == signed_transaction(
                    payer@,
                    self.program_id@,
                    transfer_accounts(
                        self.nonce_account@,
                        payer@.subrange(32, 64),
                        to_address@,
                    ),
                    payload_bytes(amount, nonce),
                    payer@.subrange(32, 64),
                    recent_blockhash@,
                )
            },
    {
        let payer_address = payer.address();
        let instruction = self.build_transfer_instruction(amount, nonce, to_address, &payer_address);
        assert(account_views(instruction.accounts@) =~= transfer_accounts(
            self.nonce_account@,
            payer@.subrange(32, 64),
            to_address@,
        ));
        let signed = sign_with_payer(payer, &instruction, &payer_address, recent_blockhash);
        SignedTransfer::from_signing(instruction, payer_address, *recent_blockhash, signed)
    }
}

} // verus!
