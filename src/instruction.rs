use vstd::bytes::{
    lemma_auto_spec_u64_to_from_le_bytes, spec_u64_from_le_bytes, spec_u64_to_le_bytes,
    u64_from_le_bytes, u64_to_le_bytes,
};
use vstd::prelude::*;
use vstd::utf8::{
    decode_utf8, decode_utf8_encode_utf8, encode_utf8, encode_utf8_decode_utf8,
    encode_utf8_valid_utf8, valid_utf8,
};

use crate::error::BridgeError;

verus! {

/// Discriminant byte of a lock instruction.
pub const LOCK_TAG: u8 = 0;

/// Discriminant byte of an unlock instruction.
pub const UNLOCK_TAG: u8 = 1;

/// Length of a source transaction hash in bytes.
pub const HASH_LEN: usize = 32;

/// A decoded bridge instruction.
///
/// Wire format: one discriminant byte, then
/// - lock: `[amount: u64 LE][target_chain: UTF-8, the rest of the buffer]`;
/// - unlock: `[amount: u64 LE][source_tx_hash: 32 bytes]`.
#[derive(Debug, Clone)]
pub enum BridgeInstruction {
    /// Lock tokens for a transfer to another chain.
    /// Accounts: 0. the user (signer), 1. the vault, 2. the user's token account.
    LockTokens { amount: u64, target_chain: String },
    /// Release tokens once a lock on the source chain has been proven.
    /// Accounts: 0. the bridge authority (signer), 1. the vault, 2. the recipient's token account.
    UnlockTokens { amount: u64, source_tx_hash: [u8; 32] },
}

/// The mathematical content of a [`BridgeInstruction`].
pub enum InstructionModel {
    Lock { amount: u64, target_chain: Seq<char> },
    Unlock { amount: u64, source_tx_hash: Seq<u8> },
}

impl View for BridgeInstruction {
    type V = InstructionModel;

    open spec fn view(&self) -> InstructionModel {
        match self {
            BridgeInstruction::LockTokens { amount, target_chain } => InstructionModel::Lock {
                amount: *amount,
                target_chain: target_chain@,
            },
            BridgeInstruction::UnlockTokens { amount, source_tx_hash } => InstructionModel::Unlock {
                amount: *amount,
                source_tx_hash: source_tx_hash@,
            },
        }
    }
}

impl InstructionModel {
    /// The amount carried by either variant.
    pub open spec fn amount(self) -> u64 {
        match self {
            InstructionModel::Lock { amount, .. } => amount,
            InstructionModel::Unlock { amount, .. } => amount,
        }
    }

    /// The destination of a lock; empty for an unlock.
    pub open spec fn target_chain(self) -> Seq<char> {
        match self {
            InstructionModel::Lock { target_chain, .. } => target_chain,
            InstructionModel::Unlock { .. } => Seq::empty(),
        }
    }

    /// Instructions that the codec can produce: a lock names a destination,
    /// an unlock carries a full-length hash.
    pub open spec fn well_formed(self) -> bool {
        match self {
            InstructionModel::Lock { target_chain, .. } => target_chain.len() > 0,
            InstructionModel::Unlock { source_tx_hash, .. } => source_tx_hash.len() == HASH_LEN,
        }
    }
}

/// What decoding `input` yields. Empty input, or fewer bytes than the variant's
/// fixed fields need, is `TruncatedInstruction`; a discriminant other than the
/// two known ones is `UnknownInstruction`; a lock destination that is not
/// UTF-8 text, or is empty, is `MalformedField`. Bytes after an unlock's hash
/// are ignored.
pub open spec fn spec_unpack(input: Seq<u8>) -> Result<InstructionModel, BridgeError> {
    if input.len() == 0 {
        Err(BridgeError::TruncatedInstruction)
    } else if input[0] == LOCK_TAG {
        if input.len() < 9 {
            Err(BridgeError::TruncatedInstruction)
        } else {
            let text = input.subrange(9, input.len() as int);
            if !valid_utf8(text) || text.len() == 0 {
                Err(BridgeError::MalformedField)
            } else {
                Ok(
                    InstructionModel::Lock {
                        amount: spec_u64_from_le_bytes(input.subrange(1, 9)),
                        target_chain: decode_utf8(text),
                    },
                )
            }
        }
    } else if input[0] == UNLOCK_TAG {
        if input.len() < 41 {
            Err(BridgeError::TruncatedInstruction)
        } else {
            Ok(
                InstructionModel::Unlock {
                    amount: spec_u64_from_le_bytes(input.subrange(1, 9)),
                    source_tx_hash: input.subrange(9, 41),
                },
            )
        }
    } else {
        Err(BridgeError::UnknownInstruction)
    }
}

/// The bytes that encode an instruction.
pub open spec fn spec_pack(m: InstructionModel) -> Seq<u8> {
    match m {
        InstructionModel::Lock { amount, target_chain } => seq![LOCK_TAG] + spec_u64_to_le_bytes(
            amount,
        ) + encode_utf8(target_chain),
        InstructionModel::Unlock { amount, source_tx_hash } => seq![UNLOCK_TAG]
            + spec_u64_to_le_bytes(amount) + source_tx_hash,
    }
}

/// A decoding result seen through the instruction's view.
pub open spec fn unpack_view(r: Result<BridgeInstruction, BridgeError>) -> Result<
    InstructionModel,
    BridgeError,
> {
    match r {
        Ok(ins) => Ok(ins@),
        Err(e) => Err(e),
    }
}

/// Relies on `String::from_utf8`: it accepts exactly the byte strings that are
/// well-formed UTF-8, and the string it returns holds those bytes unchanged.
#[verifier::external_body]
fn string_from_utf8(bytes: Vec<u8>) -> (r: Option<String>)
    ensures
        r is Some <==> valid_utf8(bytes@),
        r matches Some(s) ==> s@ == decode_utf8(bytes@),
{
    String::from_utf8(bytes).ok()
}

/// Copies the 32 bytes of `b` that start at `start`.
pub(crate) fn read_bytes32(b: &[u8], start: usize) -> (r: [u8; 32])
    requires
        start + 32 <= b@.len(),
    ensures
        r@ == b@.subrange(start as int, start + 32),
{
    let len = b.len();
    let mut r = [0u8; 32];
    let mut i: usize = 0;
    while i < 32
        invariant
            start + 32 <= b@.len(),
            len == b@.len(),
            i <= 32,
            r@.len() == 32,
            forall|j: int| 0 <= j < i ==> r@[j] == b@[start + j],
        decreases 32 - i,
    {
        r[i] = b[start + i];
        i = i + 1;
    }
    assert(r@ =~= b@.subrange(start as int, start + 32));
    r
}

impl BridgeInstruction {
    /// Decodes raw instruction data, as [`spec_unpack`] describes. Pure: no
    /// state is read or written.
    pub fn unpack(input: &[u8]) -> (r: Result<Self, BridgeError>)
        ensures
            unpack_view(r) == spec_unpack(input@),
            r matches Ok(ins) ==> ins@.well_formed(),
    {
        if input.len() == 0 {
            return Err(BridgeError::TruncatedInstruction);
        }
        let tag = input[0];
        if tag == LOCK_TAG {
            if input.len() < 9 {
                return Err(BridgeError::TruncatedInstruction);
            }
            let amount = u64_from_le_bytes(&input[1..9]);
            let text = vstd::slice::slice_to_vec(&input[9..input.len()]);
            assert(text@ == input@.subrange(9, input@.len() as int));
            if text.len() == 0 {
                return Err(BridgeError::MalformedField);
            }
            match string_from_utf8(text) {
                Some(target_chain) => Ok(BridgeInstruction::LockTokens { amount, target_chain }),
                None => Err(BridgeError::MalformedField),
            }
        } else if tag == UNLOCK_TAG {
            if input.len() < 41 {
                return Err(BridgeError::TruncatedInstruction);
            }
            let amount = u64_from_le_bytes(&input[1..9]);
            let source_tx_hash = read_bytes32(input, 9);
            Ok(BridgeInstruction::UnlockTokens { amount, source_tx_hash })
        } else {
            Err(BridgeError::UnknownInstruction)
        }
    }

    /// Encodes the instruction in the wire format that [`Self::unpack`] reads.
    pub fn pack(&self) -> (r: Vec<u8>)
        ensures
            r@ == spec_pack(self@),
    {
        let mut out: Vec<u8> = Vec::new();
        match self {
            BridgeInstruction::LockTokens { amount, target_chain } => {
                out.push(LOCK_TAG);
                let mut amount_bytes = u64_to_le_bytes(*amount);
                out.append(&mut amount_bytes);
                let mut text = vstd::slice::slice_to_vec(target_chain.as_str().as_bytes());
                out.append(&mut text);
            },
            BridgeInstruction::UnlockTokens { amount, source_tx_hash } => {
                out.push(UNLOCK_TAG);
                let mut amount_bytes = u64_to_le_bytes(*amount);
                out.append(&mut amount_bytes);
                let mut hash = vstd::slice::slice_to_vec(source_tx_hash.as_slice());
                out.append(&mut hash);
            },
        }
        out
    }
}

/// Decoding and re-encoding agree: whatever `input` decodes to encodes to the
/// bytes it was read from (all of them for a lock; for an unlock, the prefix up
/// to the end of the hash, as bytes past it are ignored), and that encoding
/// decodes to the same amount, destination and hash.
pub proof fn lemma_unpack_then_pack(input: Seq<u8>)
    requires
        spec_unpack(input) is Ok,
    ensures
        ({
            let m = spec_unpack(input)->Ok_0;
            &&& m.well_formed()
            &&& spec_pack(m) == input.subrange(0, spec_pack(m).len() as int)
            &&& m is Lock ==> spec_pack(m) == input
            &&& spec_unpack(spec_pack(m)) == Ok::<InstructionModel, BridgeError>(m)
        }),
{
    lemma_auto_spec_u64_to_from_le_bytes();
    let m = spec_unpack(input)->Ok_0;
    match m {
        InstructionModel::Lock { amount, target_chain } => {
            let text = input.subrange(9, input.len() as int);
            decode_utf8_encode_utf8(text);
            assert(input.subrange(1, 9).len() == 8);
            assert(spec_pack(m) =~= input);
        },
        InstructionModel::Unlock { amount, source_tx_hash } => {
            assert(input.subrange(1, 9).len() == 8);
            assert(spec_pack(m) =~= input.subrange(0, 41));
        },
    }
    lemma_pack_then_unpack(m);
}

/// Encoding then decoding is the identity on every instruction the codec can
/// produce.
pub proof fn lemma_pack_then_unpack(m: InstructionModel)
    requires
        m.well_formed(),
    ensures
        spec_unpack(spec_pack(m)) == Ok::<InstructionModel, BridgeError>(m),
{
    lemma_auto_spec_u64_to_from_le_bytes();
    let b = spec_pack(m);
    match m {
        InstructionModel::Lock { amount, target_chain } => {
            encode_utf8_valid_utf8(target_chain);
            encode_utf8_decode_utf8(target_chain);
            let text = encode_utf8(target_chain);
            assert(b.subrange(1, 9) =~= spec_u64_to_le_bytes(amount));
            assert(b.subrange(9, b.len() as int) =~= text);
            if text.len() == 0 {
                assert(text =~= Seq::<u8>::empty());
                assert(decode_utf8(text) =~= Seq::<char>::empty());
            }
        },
        InstructionModel::Unlock { amount, source_tx_hash } => {
            assert(b.subrange(1, 9) =~= spec_u64_to_le_bytes(amount));
            assert(b.subrange(9, 41) =~= source_tx_hash);
        },
    }
}

} // verus!
