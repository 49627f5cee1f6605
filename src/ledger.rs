use vstd::prelude::*;

use vstd::bytes::{spec_u64_from_le_bytes, spec_u64_to_le_bytes, u64_from_le_bytes, u64_to_le_bytes};

use crate::error::BridgeError;
use crate::instruction::read_bytes32;

verus! {

/// The vault's books: the amount currently locked and the source transactions
/// already redeemed.
#[derive(Debug)]
pub struct VaultLedger {
    locked_balance: u64,
    processed_tx_hashes: Vec<[u8; 32]>,
}

/// The mathematical content of a [`VaultLedger`].
pub struct LedgerState {
    pub locked_balance: u64,
    pub processed_tx_hashes: Set<Seq<u8>>,
}

/// What a completed lock reports, for the relayer to observe and later prove on
/// the destination chain.
#[derive(Debug, Clone)]
pub struct LockRecord {
    pub amount: u64,
    pub target_chain: String,
    pub locked_balance: u64,
}

/// The hashes held in a list, as byte sequences.
pub open spec fn hash_seq(hashes: Seq<[u8; 32]>) -> Seq<Seq<u8>> {
    hashes.map_values(|h: [u8; 32]| h@)
}

impl View for VaultLedger {
    type V = LedgerState;

    closed spec fn view(&self) -> LedgerState {
        LedgerState {
            locked_balance: self.locked_balance,
            processed_tx_hashes: hash_seq(self.processed_tx_hashes@).to_set(),
        }
    }
}

/// Length of the stored ledger's header, the little-endian locked balance.
/// Stored form: `[locked_balance: u64 LE][hash: 32 bytes]*`.
pub const LEDGER_HEADER_LEN: usize = 8;

/// The `i`-th hash of a stored ledger.
pub open spec fn stored_hash(b: Seq<u8>, i: int) -> Seq<u8> {
    b.subrange(8 + 32 * i, 8 + 32 * i + 32)
}

/// The hashes of a stored ledger, in stored order.
pub open spec fn stored_hashes(b: Seq<u8>) -> Seq<Seq<u8>> {
    Seq::new(((b.len() - 8) / 32) as nat, |i: int| stored_hash(b, i))
}

/// Bytes that hold a ledger: a full header, whole hashes, none of them twice.
pub open spec fn valid_stored_ledger(b: Seq<u8>) -> bool {
    &&& b.len() >= 8
    &&& (b.len() - 8) % 32 == 0
    &&& stored_hashes(b).no_duplicates()
}

/// Whether a lock of `amount` may proceed to its transfer.
pub open spec fn spec_check_lock(s: LedgerState, amount: u64) -> Result<(), BridgeError> {
    if amount == 0 {
        Err(BridgeError::InvalidAmount)
    } else if s.locked_balance + amount > u64::MAX {
        Err(BridgeError::BalanceOverflow)
    } else {
        Ok(())
    }
}

/// Whether an unlock of `amount` redeeming `hash` may proceed to its transfer.
/// The replay check comes first: a redeemed hash is refused whatever the amount.
pub open spec fn spec_check_unlock(s: LedgerState, amount: u64, hash: Seq<u8>) -> Result<
    (),
    BridgeError,
> {
    if s.processed_tx_hashes.contains(hash) {
        Err(BridgeError::ReplayedTransaction)
    } else if amount == 0 {
        Err(BridgeError::InvalidAmount)
    } else if amount > s.locked_balance {
        Err(BridgeError::InsufficientVaultBalance)
    } else {
        Ok(())
    }
}

/// The ledger after a lock whose transfer succeeded or failed, or its error.
pub open spec fn spec_lock(s: LedgerState, amount: u64, transferred: bool) -> Result<
    LedgerState,
    BridgeError,
> {
    match spec_check_lock(s, amount) {
        Err(e) => Err(e),
        Ok(_) => if !transferred {
            Err(BridgeError::TransferFailed)
        } else {
            Ok(
                LedgerState {
                    locked_balance: (s.locked_balance + amount) as u64,
                    processed_tx_hashes: s.processed_tx_hashes,
                },
            )
        },
    }
}

/// The ledger after an unlock whose transfer succeeded or failed, or its error.
/// The balance and the set of redeemed hashes change together or not at all.
pub open spec fn spec_unlock(s: LedgerState, amount: u64, hash: Seq<u8>, transferred: bool) -> Result<
    LedgerState,
    BridgeError,
> {
    match spec_check_unlock(s, amount, hash) {
        Err(e) => Err(e),
        Ok(_) => if !transferred {
            Err(BridgeError::TransferFailed)
        } else {
            Ok(
                LedgerState {
                    locked_balance: (s.locked_balance - amount) as u64,
                    processed_tx_hashes: s.processed_tx_hashes.insert(hash),
                },
            )
        },
    }
}

/// Each lock of `amounts` applied in order, each with a completed transfer;
/// `None` if one of them is rejected.
pub open spec fn spec_lock_sequence(s: LedgerState, amounts: Seq<u64>) -> Option<LedgerState>
    decreases amounts.len(),
{
    if amounts.len() == 0 {
        Some(s)
    } else {
        match spec_lock(s, amounts[0], true) {
            Ok(next) => spec_lock_sequence(next, amounts.drop_first()),
            Err(_) => None,
        }
    }
}

/// The sum of a list of amounts.
pub open spec fn sum_amounts(amounts: Seq<u64>) -> int
    decreases amounts.len(),
{
    if amounts.len() == 0 {
        0
    } else {
        amounts[0] + sum_amounts(amounts.drop_first())
    }
}

/// A zero amount is refused with `InvalidAmount` by a lock, and by an unlock of
/// a hash not yet redeemed, whatever the transfer would have done; the ledger
/// methods leave the state untouched on every refusal.
pub proof fn lemma_zero_amount_rejected(s: LedgerState, hash: Seq<u8>, transferred: bool)
    requires
        !s.processed_tx_hashes.contains(hash),
    ensures
        spec_lock(s, 0, transferred) == Err::<LedgerState, BridgeError>(BridgeError::InvalidAmount),
        spec_unlock(s, 0, hash, transferred) == Err::<LedgerState, BridgeError>(
            BridgeError::InvalidAmount,
        ),
{
}

/// After a run of successful locks the locked balance has grown by exactly the
/// sum of their amounts, and the redeemed hashes are untouched; from a fresh
/// ledger the balance is that sum.
pub proof fn lemma_locks_add_up(s: LedgerState, amounts: Seq<u64>)
    requires
        spec_lock_sequence(s, amounts) is Some,
    ensures
        spec_lock_sequence(s, amounts)->Some_0.locked_balance == s.locked_balance + sum_amounts(
            amounts,
        ),
        spec_lock_sequence(s, amounts)->Some_0.processed_tx_hashes == s.processed_tx_hashes,
    decreases amounts.len(),
{
    if amounts.len() > 0 {
        let next = spec_lock(s, amounts[0], true)->Ok_0;
        lemma_locks_add_up(next, amounts.drop_first());
    }
}

/// An unlock of a positive amount no larger than the locked balance, redeeming
/// a hash not yet seen, succeeds once its transfer does: the balance drops by
/// the amount and the hash joins the redeemed set.
pub proof fn lemma_unlock_succeeds(s: LedgerState, amount: u64, hash: Seq<u8>)
    requires
        !s.processed_tx_hashes.contains(hash),
        0 < amount <= s.locked_balance,
    ensures
        spec_unlock(s, amount, hash, true) == Ok::<LedgerState, BridgeError>(
            LedgerState {
                locked_balance: (s.locked_balance - amount) as u64,
                processed_tx_hashes: s.processed_tx_hashes.insert(hash),
            },
        ),
{
}

/// Replaying an unlock: once an unlock of `hash` has succeeded, every later
/// unlock of the same hash fails with `ReplayedTransaction`, whatever its amount
/// and transfer, and the ledger methods then leave the state as the first
/// unlock left it.
pub proof fn lemma_unlock_replay_rejected(
    s: LedgerState,
    amount: u64,
    hash: Seq<u8>,
    again_amount: u64,
    again_transferred: bool,
)
    requires
        spec_unlock(s, amount, hash, true) is Ok,
    ensures
        spec_unlock(spec_unlock(s, amount, hash, true)->Ok_0, again_amount, hash, again_transferred)
            == Err::<LedgerState, BridgeError>(BridgeError::ReplayedTransaction),
{
}

/// Byte-wise equality of two 32-byte values (hashes, account keys).
pub(crate) fn bytes32_eq(a: &[u8; 32], b: &[u8; 32]) -> (r: bool)
    ensures
        r == (a@ == b@),
{
    let mut i: usize = 0;
    while i < 32
        invariant
            i <= 32,
            a@.len() == 32,
            b@.len() == 32,
            forall|j: int| 0 <= j < i ==> a@[j] == b@[j],
        decreases 32 - i,
    {
        if a[i] != b[i] {
            assert(a@[i as int] != b@[i as int]);
            return false;
        }
        i = i + 1;
    }
    assert(a@ =~= b@);
    true
}

impl VaultLedger {
    /// A hash is recorded at most once.
    pub closed spec fn wf(&self) -> bool {
        hash_seq(self.processed_tx_hashes@).no_duplicates()
    }

    /// The ledger of a freshly initialised bridge: nothing locked, nothing redeemed.
    pub fn new() -> (r: Self)
        ensures
            r.wf(),
            r@.locked_balance == 0,
            r@.processed_tx_hashes == Set::<Seq<u8>>::empty(),
    {
        let r = VaultLedger { locked_balance: 0, processed_tx_hashes: Vec::new() };
        assert(hash_seq(r.processed_tx_hashes@).to_set() =~= Set::<Seq<u8>>::empty());
        r
    }

    /// The amount currently locked in the vault.
    pub fn locked_balance(&self) -> (r: u64)
        ensures
            r == self@.locked_balance,
    {
        self.locked_balance
    }

    /// Whether `hash` has already been redeemed by an unlock.
    pub fn is_processed(&self, hash: &[u8; 32]) -> (r: bool)
        ensures
            r == self@.processed_tx_hashes.contains(hash@),
    {
        let ghost hs = hash_seq(self.processed_tx_hashes@);
        let mut i: usize = 0;
        while i < self.processed_tx_hashes.len()
            invariant
                i <= self.processed_tx_hashes@.len(),
                hs == hash_seq(self.processed_tx_hashes@),
                forall|j: int| 0 <= j < i ==> hs[j] != hash@,
            decreases self.processed_tx_hashes@.len() - i,
        {
            if bytes32_eq(&self.processed_tx_hashes[i], hash) {
                assert(hs[i as int] == hash@);
                assert(hs.contains(hash@));
                return true;
            }
            i = i + 1;
        }
        assert(!hs.contains(hash@));
        false
    }

    /// Reads a ledger from its stored form; `MalformedField` if the bytes are
    /// not a header followed by distinct whole hashes.
    pub fn from_bytes(b: &[u8]) -> (r: Result<Self, BridgeError>)
        ensures
            r is Ok <==> valid_stored_ledger(b@),
            r matches Err(e) ==> e == BridgeError::MalformedField,
            r matches Ok(l) ==> {
                &&& l.wf()
                &&& l@.locked_balance == spec_u64_from_le_bytes(b@.subrange(0, 8))
                &&& l@.processed_tx_hashes == stored_hashes(b@).to_set()
            },
    {
        if b.len() < LEDGER_HEADER_LEN || (b.len() - LEDGER_HEADER_LEN) % 32 != 0 {
            return Err(BridgeError::MalformedField);
        }
        let locked_balance = u64_from_le_bytes(&b[0..8]);
        let n: usize = (b.len() - LEDGER_HEADER_LEN) / 32;
        let ghost hs = stored_hashes(b@);
        let len = b.len();
        let mut ledger = VaultLedger { locked_balance, processed_tx_hashes: Vec::new() };
        let mut i: usize = 0;
        while i < n
            invariant
                len == b@.len(),
                b@.len() >= 8,
                (b@.len() - 8) % 32 == 0,
                n == (b@.len() - 8) / 32,
                hs == stored_hashes(b@),
                i <= n,
                ledger.locked_balance == locked_balance,
                ledger.wf(),
                hash_seq(ledger.processed_tx_hashes@) == hs.take(i as int),
            decreases n - i,
        {
            assert(8 + 32 * i + 32 <= b@.len()) by (nonlinear_arith)
                requires
                    i < n,
                    n == (b@.len() - 8) / 32,
                    b@.len() >= 8,
            ;
            let h = read_bytes32(b, LEDGER_HEADER_LEN + 32 * i);
            assert(h@ == hs[i as int]);
            if ledger.is_processed(&h) {
                proof {
                    let prefix = hash_seq(ledger.processed_tx_hashes@);
                    assert(prefix.contains(h@));
                    let j = choose|j: int| 0 <= j < prefix.len() && prefix[j] == h@;
                    assert(hs[j] == hs[i as int]);
                    assert(!hs.no_duplicates());
                }
                return Err(BridgeError::MalformedField);
            }
            let ghost before = ledger.processed_tx_hashes@;
            ledger.processed_tx_hashes.push(h);
            assert(ledger.processed_tx_hashes@ == before.push(h));
            assert(hash_seq(before.push(h)) =~= hash_seq(before).push(h@));
            assert(hs.take(i as int).push(hs[i as int]) =~= hs.take(i + 1));
            assert(hash_seq(ledger.processed_tx_hashes@) =~= hs.take(i + 1));
            i = i + 1;
        }
        assert(hs.take(n as int) =~= hs);
        Ok(ledger)
    }

    /// Writes the ledger in the stored form that [`Self::from_bytes`] reads.
    pub fn to_bytes(&self) -> (r: Vec<u8>)
        requires
            self.wf(),
        ensures
            valid_stored_ledger(r@),
            r@.subrange(0, 8) == spec_u64_to_le_bytes(self@.locked_balance),
            stored_hashes(r@).to_set() == self@.processed_tx_hashes,
    {
        let ghost hs = hash_seq(self.processed_tx_hashes@);
        let mut out = u64_to_le_bytes(self.locked_balance);
        let ghost header = out@;
        let mut i: usize = 0;
        while i < self.processed_tx_hashes.len()
            invariant
                i <= self.processed_tx_hashes@.len(),
                hs == hash_seq(self.processed_tx_hashes@),
                out@.len() == 8 + 32 * i,
                out@.subrange(0, 8) == header,
                forall|j: int| 0 <= j < i ==> #[trigger] stored_hash(out@, j) == hs[j],
            decreases self.processed_tx_hashes@.len() - i,
        {
            let ghost before = out@;
            let mut h = vstd::slice::slice_to_vec(self.processed_tx_hashes[i].as_slice());
            out.append(&mut h);
            assert(out@.subrange(0, 8) =~= header);
            assert forall|j: int| 0 <= j < i + 1 implies #[trigger] stored_hash(out@, j) == hs[j] by {
                if j < i {
                    assert(stored_hash(out@, j) =~= stored_hash(before, j));
                } else {
                    assert(stored_hash(out@, j) =~= hs[j]);
                }
            }
            i = i + 1;
        }
        assert((out@.len() - 8) / 32 == i) by (nonlinear_arith)
            requires
                out@.len() == 8 + 32 * i,
        ;
        assert(stored_hashes(out@) =~= hs);
        out
    }

    /// Checks the amount policy of a lock, without changing anything.
    pub fn check_lock(&self, amount: u64) -> (r: Result<(), BridgeError>)
        ensures
            r == spec_check_lock(self@, amount),
    {
        if amount == 0 {
            Err(BridgeError::InvalidAmount)
        } else if self.locked_balance > u64::MAX - amount {
            Err(BridgeError::BalanceOverflow)
        } else {
            Ok(())
        }
    }

    /// Checks replay protection and the amount policy of an unlock, without
    /// changing anything.
    pub fn check_unlock(&self, amount: u64, source_tx_hash: &[u8; 32]) -> (r: Result<
        (),
        BridgeError,
    >)
        ensures
            r == spec_check_unlock(self@, amount, source_tx_hash@),
    {
        if self.is_processed(source_tx_hash) {
            Err(BridgeError::ReplayedTransaction)
        } else if amount == 0 {
            Err(BridgeError::InvalidAmount)
        } else if amount > self.locked_balance {
            Err(BridgeError::InsufficientVaultBalance)
        } else {
            Ok(())
        }
    }

    /// Books a lock of `amount` towards `target_chain`, given whether the
    /// transfer from the user into the vault went through. On success it
    /// returns the lock record; on any failure the ledger is left as it was.
    pub fn apply_lock(&mut self, amount: u64, target_chain: String, transferred: bool) -> (r:
        Result<LockRecord, BridgeError>)
        requires
            old(self).wf(),
        ensures
            final(self).wf(),
            match spec_lock(old(self)@, amount, transferred) {
                Ok(s) => {
                    &&& final(self)@ == s
                    &&& r matches Ok(rec) && rec.amount == amount && rec.target_chain@
                        == target_chain@ && rec.locked_balance == s.locked_balance
                },
                Err(e) => {
                    &&& r == Err::<LockRecord, BridgeError>(e)
                    &&& *final(self) == *old(self)
                },
            },
    {
        match self.check_lock(amount) {
            Err(e) => Err(e),
            Ok(()) => {
                if !transferred {
                    return Err(BridgeError::TransferFailed);
                }
                self.locked_balance = self.locked_balance + amount;
                Ok(LockRecord { amount, target_chain, locked_balance: self.locked_balance })
            },
        }
    }

    /// Books an unlock of `amount` redeeming `source_tx_hash`, given whether
    /// the transfer from the vault to the recipient went through. On success
    /// the balance drops by `amount` and the hash is recorded, together; on
    /// any failure the ledger is left as it was.
    pub fn apply_unlock(&mut self, amount: u64, source_tx_hash: [u8; 32], transferred: bool) -> (r:
        Result<(), BridgeError>)
        requires
            old(self).wf(),
        ensures
            final(self).wf(),
            match spec_unlock(old(self)@, amount, source_tx_hash@, transferred) {
                Ok(s) => r is Ok && final(self)@ == s,
                Err(e) => r == Err::<(), BridgeError>(e) && *final(self) == *old(self),
            },
    {
        match self.check_unlock(amount, &source_tx_hash) {
            Err(e) => Err(e),
            Ok(()) => {
                if !transferred {
                    return Err(BridgeError::TransferFailed);
                }
                let ghost old_hs = hash_seq(self.processed_tx_hashes@);
                self.locked_balance = self.locked_balance - amount;
                self.processed_tx_hashes.push(source_tx_hash);
                proof {
                    let hs = hash_seq(self.processed_tx_hashes@);
                    assert(hs =~= old_hs.push(source_tx_hash@));
                    old_hs.lemma_push_to_set_commute(source_tx_hash@);
                    assert(hs.to_set() =~= old_hs.to_set().insert(source_tx_hash@));
                }
                Ok(())
            },
        }
    }
}

} // verus!
