//! Settlement core of a cross-chain token bridge: the instruction codec, the
//! signer checks, the vault ledger with replay protection, and the dispatcher
//! that ties them together.

pub mod error;
pub mod instruction;
pub mod ledger;
pub mod processor;

pub use error::BridgeError;
pub use instruction::BridgeInstruction;
pub use ledger::{LockRecord, VaultLedger};
pub use processor::{
    process_instruction, settle_instruction, AccountRef, BridgeConfig, PendingInstruction, Transfer,
};
