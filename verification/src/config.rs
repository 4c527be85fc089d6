//! The relay's configuration, as loaded by the caller.

use vstd::prelude::*;

verus! {

/// The seven settings of a relay. Identifiers are base58 text; they are
/// parsed when a relayer is made from the configuration.
#[derive(Clone, Debug, PartialEq, Eq)]
pub struct RelayerConfig {
    pub l1_url: String,
    pub l2_url: String,
    pub watched_account: String,
    pub wallet_path: String,
    pub l1_program_id: String,
    pub l2_program_id: String,
    pub nonce_account: String,
}

} // verus!
