use vstd::prelude::*;

use crate::error::BridgeError;
use crate::instruction::{spec_unpack, BridgeInstruction, InstructionModel};
use crate::ledger::{
    bytes32_eq, spec_check_lock, spec_check_unlock, spec_lock, spec_unlock, LedgerState,
    LockRecord, VaultLedger,
};

verus! {

/// What the core reads of an account supplied with an instruction.
#[derive(Debug, Clone, Copy)]
pub struct AccountRef {
    pub key: [u8; 32],
    pub is_signer: bool,
}

/// Configuration fixed when the bridge is set up.
#[derive(Debug, Clone, Copy)]
pub struct BridgeConfig {
    /// The only identity allowed to release tokens from the vault.
    pub authority: [u8; 32],
}

/// A token movement between two accounts, named by their keys.
#[derive(Debug, Clone, Copy)]
pub struct Transfer {
    pub from: [u8; 32],
    pub to: [u8; 32],
    pub amount: u64,
}

/// An instruction that passed decoding, authorization and the ledger's checks,
/// and now waits for its transfer (and, for an unlock, for proof verification).
#[derive(Debug, Clone)]
pub struct PendingInstruction {
    pub instruction: BridgeInstruction,
    pub transfer: Transfer,
}

/// Number of accounts every instruction takes: actor, vault, token account.
pub const ACCOUNTS_PER_INSTRUCTION: usize = 3;

/// Whether `account` may act on an instruction of this kind: any signer may
/// lock; only the configured authority, having signed, may unlock.
pub open spec fn spec_authorized(config: BridgeConfig, m: InstructionModel, account: AccountRef) -> bool {
    match m {
        InstructionModel::Lock { .. } => account.is_signer,
        InstructionModel::Unlock { .. } => account.is_signer && account.key@ == config.authority@,
    }
}

/// The transfer an instruction calls for, given its accounts in order.
pub open spec fn spec_transfer(m: InstructionModel, accounts: Seq<AccountRef>) -> Transfer {
    match m {
        InstructionModel::Lock { amount, .. } => Transfer {
            from: accounts[2].key,
            to: accounts[1].key,
            amount,
        },
        InstructionModel::Unlock { amount, .. } => Transfer {
            from: accounts[1].key,
            to: accounts[2].key,
            amount,
        },
    }
}

/// The ledger's verdict on an instruction before its transfer.
pub open spec fn spec_check(s: LedgerState, m: InstructionModel) -> Result<(), BridgeError> {
    match m {
        InstructionModel::Lock { amount, .. } => spec_check_lock(s, amount),
        InstructionModel::Unlock { amount, source_tx_hash } => spec_check_unlock(
            s,
            amount,
            source_tx_hash,
        ),
    }
}

/// What the dispatcher decides for `data` and `accounts`: decode, find the
/// accounts, authorize, check against the ledger, in that order; the first
/// failure is the result.
pub open spec fn spec_process(
    s: LedgerState,
    config: BridgeConfig,
    accounts: Seq<AccountRef>,
    data: Seq<u8>,
) -> Result<(InstructionModel, Transfer), BridgeError> {
    match spec_unpack(data) {
        Err(e) => Err(e),
        Ok(m) => if accounts.len() < ACCOUNTS_PER_INSTRUCTION {
            Err(BridgeError::MissingAccount)
        } else if !spec_authorized(config, m, accounts[0]) {
            Err(BridgeError::MissingSignature)
        } else {
            match spec_check(s, m) {
                Err(e) => Err(e),
                Ok(_) => Ok((m, spec_transfer(m, accounts))),
            }
        },
    }
}

/// The ledger after booking an instruction whose transfer succeeded or failed.
pub open spec fn spec_settle(s: LedgerState, m: InstructionModel, transferred: bool) -> Result<
    LedgerState,
    BridgeError,
> {
    match m {
        InstructionModel::Lock { amount, .. } => spec_lock(s, amount, transferred),
        InstructionModel::Unlock { amount, source_tx_hash } => spec_unlock(
            s,
            amount,
            source_tx_hash,
            transferred,
        ),
    }
}

/// Fails with `MissingSignature` unless `account` signed the transaction.
pub fn require_signer(account: &AccountRef) -> (r: Result<(), BridgeError>)
    ensures
        r is Ok <==> account.is_signer,
        r is Err ==> r == Err::<(), BridgeError>(BridgeError::MissingSignature),
{
    if account.is_signer {
        Ok(())
    } else {
        Err(BridgeError::MissingSignature)
    }
}

impl BridgeConfig {
    /// Fails with `MissingSignature` unless `account` is the configured
    /// authority and signed the transaction.
    pub fn require_authority(&self, account: &AccountRef) -> (r: Result<(), BridgeError>)
        ensures
            r is Ok <==> account.is_signer && account.key@ == self.authority@,
            r is Err ==> r == Err::<(), BridgeError>(BridgeError::MissingSignature),
    {
        require_signer(account)?;
        if bytes32_eq(&account.key, &self.authority) {
            Ok(())
        } else {
            Err(BridgeError::MissingSignature)
        }
    }
}

/// Runs every check an instruction must pass before tokens move: decoding,
/// the account list, the actor's signature, replay protection and the amount
/// policy. On success it returns the decoded instruction with the transfer to
/// perform; the ledger is only read.
pub fn process_instruction(
    ledger: &VaultLedger,
    config: &BridgeConfig,
    accounts: &[AccountRef],
    instruction_data: &[u8],
) -> (r: Result<PendingInstruction, BridgeError>)
    ensures
        match spec_process(ledger@, *config, accounts@, instruction_data@) {
            Ok((m, t)) => r matches Ok(p) && p.instruction@ == m && p.transfer == t,
            Err(e) => r == Err::<PendingInstruction, BridgeError>(e),
        },
{
    let instruction = BridgeInstruction::unpack(instruction_data)?;
    if accounts.len() < ACCOUNTS_PER_INSTRUCTION {
        return Err(BridgeError::MissingAccount);
    }
    let actor = accounts[0];
    let vault = accounts[1];
    let token_account = accounts[2];
    let transfer = match &instruction {
        BridgeInstruction::LockTokens { amount, .. } => {
            require_signer(&actor)?;
            ledger.check_lock(*amount)?;
            Transfer { from: token_account.key, to: vault.key, amount: *amount }
        },
        BridgeInstruction::UnlockTokens { amount, source_tx_hash } => {
            config.require_authority(&actor)?;
            ledger.check_unlock(*amount, source_tx_hash)?;
            Transfer { from: vault.key, to: token_account.key, amount: *amount }
        },
    };
    Ok(PendingInstruction { instruction, transfer })
}

/// Books a checked instruction once its transfer has run: `transferred` says
/// whether the tokens moved. A lock returns its record for the relayer. On any
/// failure the ledger is left as it was.
pub fn settle_instruction(ledger: &mut VaultLedger, pending: PendingInstruction, transferred: bool) -> (r:
    Result<Option<LockRecord>, BridgeError>)
    requires
        old(ledger).wf(),
    ensures
        final(ledger).wf(),
        match spec_settle(old(ledger)@, pending.instruction@, transferred) {
            Ok(s) => {
                &&& final(ledger)@ == s
                &&& r is Ok
                &&& (r->Ok_0 is Some <==> pending.instruction@ is Lock)
                &&& r matches Ok(Some(rec)) ==> (rec.amount == pending.instruction@.amount()
                    && rec.target_chain@ == pending.instruction@.target_chain()
                    && rec.locked_balance == s.locked_balance)
            },
            Err(e) => {
                &&& r == Err::<Option<LockRecord>, BridgeError>(e)
                &&& *final(ledger) == *old(ledger)
            },
        },
{
    match pending.instruction {
        BridgeInstruction::LockTokens { amount, target_chain } => {
            let rec = ledger.apply_lock(amount, target_chain, transferred)?;
            Ok(Some(rec))
        },
        BridgeInstruction::UnlockTokens { amount, source_tx_hash } => {
            ledger.apply_unlock(amount, source_tx_hash, transferred)?;
            Ok(None)
        },
    }
}

/// A lock whose actor account did not sign is refused with `MissingSignature`
/// before the ledger is consulted, whatever the ledger and configuration hold.
pub proof fn lemma_unsigned_lock_rejected(
    s: LedgerState,
    config: BridgeConfig,
    accounts: Seq<AccountRef>,
    data: Seq<u8>,
)
    requires
        spec_unpack(data) matches Ok(InstructionModel::Lock { .. }),
        accounts.len() >= ACCOUNTS_PER_INSTRUCTION,
        !accounts[0].is_signer,
    ensures
        spec_process(s, config, accounts, data) == Err::<(InstructionModel, Transfer), BridgeError>(
            BridgeError::MissingSignature,
        ),
{
}

} // verus!
