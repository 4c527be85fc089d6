//! The relayer: the parsed configuration, the signing key and the engine,
//! and the step that turns the engine's decisions into actions on accounts.

use vstd::prelude::*;
use solana_sdk::pubkey::Pubkey;
use crate::address::{address_of, lemma_address_by_bytes, Address};
use crate::config::RelayerConfig;
use crate::engine::{next_progress, next_step, Decision, Engine, EngineState, Event, RelayError};
use crate::pda::{descriptor_address, PdaManager};
use crate::transaction::{SignerKey, TransactionBuilder};

verus! {

/// The 32 bytes that base58 text spells as a ledger identifier, or `None`
/// where `Pubkey::from_str` of solana_sdk rejects the text.
pub uninterp spec fn base58_address(text: Seq<char>) -> Option<Seq<u8>>;

/// Whether `r` is the parsing result `expected`, address by its bytes.
pub open spec fn is_parsed(r: Option<Address>, expected: Option<Seq<u8>>) -> bool {
    match r {
        Some(address) => expected == Some(address@),
        None => expected is None,
    }
}

/// Calls `Pubkey::from_str` of solana_sdk. Trusted: the result is a function
/// of the text alone, `None` where the text is rejected.
#[verifier::external_body]
fn parse_address(text: &str) -> (r: Option<Address>)
    ensures
        is_parsed(r, base58_address(text@)),
{
    match text.parse::<Pubkey>() {
        Ok(key) => Some(Address { bytes: key.to_bytes() }),
        Err(_) => None,
    }
}

/// Why a relayer could not be made.
#[derive(Clone, Copy, Debug, PartialEq, Eq, Structural)]
pub enum StartupError {
    InvalidWatchedAccount,
    KeypairUnreadable,
    InvalidL1ProgramId,
    InvalidL2ProgramId,
    InvalidNonceAccount,
}

/// What the caller is to do for the engine.
#[derive(Clone, Copy, Debug, PartialEq, Eq)]
pub enum Action {
    /// Read the watched account on the source ledger.
    ReadWatchedAccount { address: Address },
    /// Read the counter-account on the destination ledger.
    ReadCounterAccount { address: Address },
    /// Read the descriptor account of `counter` on the source ledger.
    ReadDescriptor { counter: u64, address: Address },
    /// Assemble, sign and submit the transfer recorded under `counter`.
    Submit { counter: u64, amount: u64, destination: Address },
    Sleep { seconds: u64 },
    /// Start the next pass.
    Proceed,
    /// Surface the error; the pass is abandoned.
    Fail(RelayError),
}

pub struct Relayer {
    pub watched_account: Address,
    pub keypair: SignerKey,
    pub pda_manager: PdaManager,
    pub transaction_builder: TransactionBuilder,
    pub engine: Engine,
}

/// The descriptor address of `counter` as an address value.
pub open spec fn derived_address(
    program_id: Seq<u8>,
    watched_account: Seq<u8>,
    counter: u64,
) -> Option<(Address, u8)> {
    match descriptor_address(program_id, watched_account, counter) {
        Some((bytes, bump)) => Some((address_of(bytes), bump)),
        None => None,
    }
}

/// The action that carries out a decision, given the descriptor address
/// derived for the counter it names.
pub open spec fn action_of(
    decision: Decision,
    derived: Option<(Address, u8)>,
    watched_account: Address,
    nonce_account: Address,
) -> Action {
    match decision {
        Decision::ReadWatchedAccount => Action::ReadWatchedAccount { address: watched_account },
        Decision::ReadCounterAccount => Action::ReadCounterAccount { address: nonce_account },
        Decision::ReadDescriptor { counter } => match derived {
            Some((address, _)) => Action::ReadDescriptor { counter, address },
            None => Action::Fail(RelayError::NoDescriptorAddress { counter }),
        },
        Decision::Submit { counter, amount, destination } => Action::Submit {
            counter,
            amount,
            destination,
        },
        Decision::Sleep { seconds } => Action::Sleep { seconds },
        Decision::Proceed => Action::Proceed,
        Decision::Fail(error) => Action::Fail(error),
    }
}

/// The counter whose descriptor a decision asks for; 0 for other decisions.
pub open spec fn counter_asked(decision: Decision) -> u64 {
    match decision {
        Decision::ReadDescriptor { counter } => counter,
        _ => 0,
    }
}

/// The relayer that the parsed settings give, or the first setting that is
/// wrong: the watched account, the signing key, the source program, the
/// destination program, the counter-account, in this order.
pub open spec fn relayer_of(
    watched_account: Option<Address>,
    keypair: Option<SignerKey>,
    l1_program_id: Option<Address>,
    l2_program_id: Option<Address>,
    nonce_account: Option<Address>,
) -> Result<Relayer, StartupError> {
    if watched_account is None {
        Err(StartupError::InvalidWatchedAccount)
    } else if keypair is None {
        Err(StartupError::KeypairUnreadable)
    } else if l1_program_id is None {
        Err(StartupError::InvalidL1ProgramId)
    } else if l2_program_id is None {
        Err(StartupError::InvalidL2ProgramId)
    } else if nonce_account is None {
        Err(StartupError::InvalidNonceAccount)
    } else {
        Ok(
            Relayer {
                watched_account: watched_account->Some_0,
                keypair: keypair->Some_0,
                pda_manager: PdaManager {
                    program_id: l1_program_id->Some_0,
                    watched_account: watched_account->Some_0,
                },
                transaction_builder: TransactionBuilder {
                    program_id: l2_program_id->Some_0,
                    nonce_account: nonce_account->Some_0,
                },
                engine: Engine {
                    state: EngineState::Idle,
                    progress: crate::engine::RelayProgress { last_seen_destination_counter: None },
                },
            },
        )
    }
}

/// The parsed form of an identifier setting.
pub open spec fn parsed(text: Seq<char>) -> Option<Address> {
    match base58_address(text) {
        Some(bytes) => Some(address_of(bytes)),
        None => None,
    }
}

/// Parses an identifier setting.
fn parse_setting(text: &str) -> (r: Option<Address>)
    ensures
        r == parsed(text@),
        is_parsed(r, base58_address(text@)),
{
    let r = parse_address(text);
    proof {
        if let Some(address) = r {
            lemma_address_by_bytes(address);
        }
    }
    r
}

impl Relayer {
    /// Makes a relayer from a configuration and the signing key that was
    /// read from the configured wallet, `None` where it could not be read.
    pub fn new(config: &RelayerConfig, keypair: Option<SignerKey>) -> (r: Result<
        Relayer,
        StartupError,
    >)
        ensures
            r == relayer_of(
                parsed(config.watched_account@),
                keypair,
                parsed(config.l1_program_id@),
                parsed(config.l2_program_id@),
                parsed(config.nonce_account@),
            ),
            r is Ok ==> {
                &&& base58_address(config.watched_account@) == Some(r->Ok_0.watched_account@)
                &&& base58_address(config.watched_account@) == Some(
                    r->Ok_0.pda_manager.watched_account@,
                )
                &&& base58_address(config.l1_program_id@) == Some(r->Ok_0.pda_manager.program_id@)
                &&& base58_address(config.l2_program_id@) == Some(
                    r->Ok_0.transaction_builder.program_id@,
                )
                &&& base58_address(config.nonce_account@) == Some(
                    r->Ok_0.transaction_builder.nonce_account@,
                )
                &&& keypair == Some(r->Ok_0.keypair)
            },
            r is Ok <==> {
                &&& base58_address(config.watched_account@) is Some
                &&& keypair is Some
                &&& base58_address(config.l1_program_id@) is Some
                &&& base58_address(config.l2_program_id@) is Some
                &&& base58_address(config.nonce_account@) is Some
            },
    {
        let watched_account = parse_setting(config.watched_account.as_str());
        let l1_program_id = parse_setting(config.l1_program_id.as_str());
        let l2_program_id = parse_setting(config.l2_program_id.as_str());
        let nonce_account = parse_setting(config.nonce_account.as_str());
        Relayer::from_parts(watched_account, keypair, l1_program_id, l2_program_id, nonce_account)
    }

    /// Makes a relayer from settings that are parsed already.
    pub fn from_parts(
        watched_account: Option<Address>,
        keypair: Option<SignerKey>,
        l1_program_id: Option<Address>,
        l2_program_id: Option<Address>,
        nonce_account: Option<Address>,
    ) -> (r: Result<Relayer, StartupError>)
        ensures
            r == relayer_of(watched_account, keypair, l1_program_id, l2_program_id, nonce_account),
            r is Ok ==> {
                &&& watched_account == Some(r->Ok_0.watched_account)
                &&& watched_account == Some(r->Ok_0.pda_manager.watched_account)
                &&& l1_program_id == Some(r->Ok_0.pda_manager.program_id)
                &&& l2_program_id == Some(r->Ok_0.transaction_builder.program_id)
                &&& nonce_account == Some(r->Ok_0.transaction_builder.nonce_account)
                &&& keypair == Some(r->Ok_0.keypair)
            },
    {
        let watched = match watched_account {
            Some(a) => a,
            None => { return Err(StartupError::InvalidWatchedAccount); },
        };
        let key = match keypair {
            Some(k) => k,
            None => { return Err(StartupError::KeypairUnreadable); },
        };
        let l1 = match l1_program_id {
            Some(a) => a,
            None => { return Err(StartupError::InvalidL1ProgramId); },
        };
        let l2 = match l2_program_id {
            Some(a) => a,
            None => { return Err(StartupError::InvalidL2ProgramId); },
        };
        let nonce = match nonce_account {
            Some(a) => a,
            None => { return Err(StartupError::InvalidNonceAccount); },
        };
        Ok(
            Relayer {
                watched_account: watched,
                keypair: key,
                pda_manager: PdaManager::new(l1, watched),
                transaction_builder: TransactionBuilder::new(l2, nonce),
                engine: Engine::new(),
            },
        )
    }

    /// The action for a decision of the engine, given the descriptor address
    /// that was derived for the counter it names.
    pub fn action_for(&self, decision: Decision, derived: Option<(Address, u8)>) -> (action: Action)
        ensures
            action == action_of(
                decision,
                derived,
                self.watched_account,
                self.transaction_builder.nonce_account,
            ),
    {
        match decision {
            Decision::ReadWatchedAccount => Action::ReadWatchedAccount {
                address: self.watched_account,
            },
            Decision::ReadCounterAccount => Action::ReadCounterAccount {
                address: self.transaction_builder.nonce_account,
            },
            Decision::ReadDescriptor { counter } => match derived {
                Some((address, _)) => Action::ReadDescriptor { counter, address },
                None => Action::Fail(RelayError::NoDescriptorAddress { counter }),
            },
            Decision::Submit { counter, amount, destination } => Action::Submit {
                counter,
                amount,
                destination,
            },
            Decision::Sleep { seconds } => Action::Sleep { seconds },
            Decision::Proceed => Action::Proceed,
            Decision::Fail(error) => Action::Fail(error),
        }
    }

    /// Hands one event to the engine and says what to do next. Where the
    /// engine asks for a descriptor, its address is derived here; a counter
    /// for which no address can be derived abandons the pass.
    pub fn on_event(&mut self, event: &Event) -> (action: Action)
        ensures
            action == action_of(
                next_step(old(self).engine.state, *event).1,
                derived_address(
                    old(self).pda_manager.program_id@,
                    old(self).pda_manager.watched_account@,
                    counter_asked(next_step(old(self).engine.state, *event).1),
                ),
                old(self).watched_account,
                old(self).transaction_builder.nonce_account,
            ),
            action is ReadDescriptor ==> {
                &&& next_step(old(self).engine.state, *event).1 == (Decision::ReadDescriptor {
                    counter: action->ReadDescriptor_counter,
                })
                &&& descriptor_address(
                    old(self).pda_manager.program_id@,
                    old(self).pda_manager.watched_account@,
                    action->ReadDescriptor_counter,
                ) is Some
                &&& descriptor_address(
                    old(self).pda_manager.program_id@,
                    old(self).pda_manager.watched_account@,
                    action->ReadDescriptor_counter,
                )->Some_0.0 == action->ReadDescriptor_address@
            },
            final(self).engine.state == (if action is Fail {
                EngineState::Idle
            } else {
                next_step(old(self).engine.state, *event).0
            }),
            final(self).engine.progress == next_progress(
                old(self).engine.state,
                *event,
                old(self).engine.progress,
            ),
            final(self).watched_account == old(self).watched_account,
            final(self).keypair == old(self).keypair,
            final(self).pda_manager == old(self).pda_manager,
            final(self).transaction_builder == old(self).transaction_builder,
    {
        let decision = self.engine.step(event);
        let derived = match decision {
            Decision::ReadDescriptor { counter } => {
                let found = self.pda_manager.find_address(counter);
                proof {
                    if let Some((address, _)) = found {
                        lemma_address_by_bytes(address);
                    }
                }
                found
            },
            _ => None,
        };
        let action = self.action_for(decision, derived);
        if let Action::Fail(_) = action {
            self.engine.state = EngineState::Idle;
        }
        action
    }
}

} // verus!
