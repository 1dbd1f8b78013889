use anchor_lang::compat::solana_instructions_sysvar::load_instruction_at_checked;
use anchor_lang::prelude::AccountInfo;
use vstd::bytes::spec_u64_to_le_bytes;
use vstd::bytes::u64_to_le_bytes;
use vstd::prelude::*;

use crate::errors::ErrorCode;
use crate::pubkey::Pubkey;
use crate::state::intent::StrategyType;

verus! {

/// Address of the program that verifies Ed25519 signatures.
pub const ED25519_PROGRAM_ID: [u8; 32] = [
    3, 125, 70, 214, 124, 147, 251, 190, 18, 249, 66, 143, 131, 141, 64, 255,
    5, 112, 116, 73, 39, 244, 138, 100, 252, 202, 112, 68, 128, 0, 0, 0,
];

/// Address of the account that holds the instructions of the transaction
/// under way.
pub const INSTRUCTIONS_SYSVAR_ID: [u8; 32] = [
    6, 167, 213, 23, 24, 123, 209, 102, 53, 218, 212, 4, 85, 253, 194, 192,
    193, 36, 198, 143, 33, 86, 117, 165, 219, 186, 203, 95, 8, 0, 0, 0,
];

/// Length in bytes of a quote message.
pub const QUOTE_MESSAGE_LEN: usize = 105;

/// The bytes a market maker signs for a quote: asset mint, quote mint, the
/// strategy's tag, then strike, premium per contract, contract size, quote
/// expiry and nonce, each as 8 little-endian bytes.
pub open spec fn quote_message(
    asset_mint: Pubkey,
    quote_mint: Pubkey,
    strategy: StrategyType,
    strike_price: u64,
    premium_per_contract: u64,
    contract_size: u64,
    quote_expiry: i64,
    quote_nonce: u64,
) -> Seq<u8> {
    asset_mint@ + quote_mint@ + seq![strategy.tag()] + spec_u64_to_le_bytes(strike_price)
        + spec_u64_to_le_bytes(premium_per_contract) + spec_u64_to_le_bytes(contract_size)
        + spec_u64_to_le_bytes(quote_expiry as u64) + spec_u64_to_le_bytes(quote_nonce)
}

/// Append `bytes` to `message`.
fn append(message: &mut Vec<u8>, bytes: &[u8])
    ensures
        final(message)@ == old(message)@ + bytes@,
{
    let mut i: usize = 0;
    while i < bytes.len()
        invariant
            i <= bytes@.len(),
            message@ == old(message)@ + bytes@.subrange(0, i as int),
        decreases bytes@.len() - i,
    {
        message.push(bytes[i]);
        i += 1;
        assert(bytes@.subrange(0, i as int) == bytes@.subrange(0, i - 1).push(bytes@[i - 1]));
    }
    assert(bytes@.subrange(0, i as int) == bytes@);
}

/// Construct the quote message that the market maker signs.
pub fn construct_quote_message(
    asset_mint: &Pubkey,
    quote_mint: &Pubkey,
    strategy: StrategyType,
    strike_price: u64,
    premium_per_contract: u64,
    contract_size: u64,
    quote_expiry: i64,
    quote_nonce: u64,
) -> (message: Vec<u8>)
    ensures
        message@ == quote_message(
            *asset_mint,
            *quote_mint,
            strategy,
            strike_price,
            premium_per_contract,
            contract_size,
            quote_expiry,
            quote_nonce,
        ),
        message@.len() == QUOTE_MESSAGE_LEN,
{
    proof {
        vstd::bytes::lemma_auto_spec_u64_to_from_le_bytes();
    }
    let mut message: Vec<u8> = Vec::with_capacity(QUOTE_MESSAGE_LEN);
    append(&mut message, asset_mint.bytes.as_slice());
    append(&mut message, quote_mint.bytes.as_slice());
    message.push(strategy.to_tag());
    append(&mut message, u64_to_le_bytes(strike_price).as_slice());
    append(&mut message, u64_to_le_bytes(premium_per_contract).as_slice());
    append(&mut message, u64_to_le_bytes(contract_size).as_slice());
    append(&mut message, u64_to_le_bytes(#[verifier::truncate] (quote_expiry as u64)).as_slice());
    append(&mut message, u64_to_le_bytes(quote_nonce).as_slice());
    message
}

/// Where a signature-verification instruction says its parts lie: the
/// seven 16-bit fields that follow its two header bytes.
#[derive(Clone, Copy, PartialEq, Eq, Structural, Debug)]
pub struct Ed25519SignatureOffsets {
    pub signature_offset: u16,
    pub signature_instruction_index: u16,
    pub public_key_offset: u16,
    pub public_key_instruction_index: u16,
    pub message_data_offset: u16,
    pub message_data_size: u16,
    pub message_instruction_index: u16,
}

/// Length of the header of a signature-verification instruction: the number
/// of signatures and a padding byte.
pub const SIGNATURE_HEADER_LEN: usize = 2;

/// Length of the header together with one set of offsets.
pub const SIGNATURE_OFFSETS_END: usize = 16;

/// The 16-bit number whose little-endian bytes are `lo`, `hi`.
pub open spec fn le_u16(lo: u8, hi: u8) -> u16 {
    (lo + 256 * hi) as u16
}

/// The first set of offsets in the data of a signature-verification
/// instruction of at least 16 bytes.
pub open spec fn offsets_of(data: Seq<u8>) -> Ed25519SignatureOffsets {
    Ed25519SignatureOffsets {
        signature_offset: le_u16(data[2], data[3]),
        signature_instruction_index: le_u16(data[4], data[5]),
        public_key_offset: le_u16(data[6], data[7]),
        public_key_instruction_index: le_u16(data[8], data[9]),
        message_data_offset: le_u16(data[10], data[11]),
        message_data_size: le_u16(data[12], data[13]),
        message_instruction_index: le_u16(data[14], data[15]),
    }
}

fn read_le_u16(lo: u8, hi: u8) -> (r: u16)
    ensures
        r == le_u16(lo, hi),
{
    lo as u16 + 256 * (hi as u16)
}

impl Ed25519SignatureOffsets {
    /// Read the first set of offsets from the data of a
    /// signature-verification instruction, if the data is long enough to
    /// hold one.
    pub fn parse(data: &[u8]) -> (r: Option<Ed25519SignatureOffsets>)
        ensures
            r == (if data@.len() >= SIGNATURE_OFFSETS_END {
                Some(offsets_of(data@))
            } else {
                None
            }),
    {
        if data.len() < SIGNATURE_OFFSETS_END {
            return None;
        }
        Some(
            Ed25519SignatureOffsets {
                signature_offset: read_le_u16(data[2], data[3]),
                signature_instruction_index: read_le_u16(data[4], data[5]),
                public_key_offset: read_le_u16(data[6], data[7]),
                public_key_instruction_index: read_le_u16(data[8], data[9]),
                message_data_offset: read_le_u16(data[10], data[11]),
                message_data_size: read_le_u16(data[12], data[13]),
                message_instruction_index: read_le_u16(data[14], data[15]),
            },
        )
    }
}

/// Whether `data` holds `expected` from position `start` on.
fn holds_at(data: &[u8], start: usize, expected: &[u8]) -> (r: bool)
    requires
        start + expected@.len() <= data@.len(),
    ensures
        r == (data@.subrange(start as int, start + expected@.len()) == expected@),
{
    let ghost part = data@.subrange(start as int, start + expected@.len());
    let len = data.len();
    let mut i: usize = 0;
    while i < expected.len()
        invariant
            i <= expected@.len(),
            len == data@.len(),
            start + expected@.len() <= data@.len(),
            part == data@.subrange(start as int, start + expected@.len()),
            forall|j: int| 0 <= j < i ==> part[j] == expected@[j],
        decreases expected@.len() - i,
    {
        if data[start + i] != expected[i] {
            assert(part[i as int] != expected@[i as int]);
            return false;
        }
        i += 1;
    }
    assert(part =~= expected@);
    true
}

/// What the check of a companion instruction comes to. The instruction has
/// to be one of the signature-verification program, claim exactly one
/// signature and hold one set of offsets; the public key that the offsets
/// point to has to be `expected_signing_key`, and the message that they
/// point to has to be `expected_message`, byte for byte.
pub open spec fn companion_verdict(
    program_id: Seq<u8>,
    data: Seq<u8>,
    expected_signing_key: Seq<u8>,
    expected_message: Seq<u8>,
) -> Result<(), ErrorCode> {
    if program_id != ED25519_PROGRAM_ID@ {
        Err(ErrorCode::InvalidSignature)
    } else if data.len() < SIGNATURE_HEADER_LEN || data[0] != 1 || data.len()
        < SIGNATURE_OFFSETS_END {
        Err(ErrorCode::InvalidSignature)
    } else {
        let offsets = offsets_of(data);
        let key_start = offsets.public_key_offset as int;
        let message_start = offsets.message_data_offset as int;
        let message_end = message_start + offsets.message_data_size;
        if data.len() < key_start + 32 {
            Err(ErrorCode::InvalidSignature)
        } else if data.subrange(key_start, key_start + 32) != expected_signing_key {
            Err(ErrorCode::SigningKeyMismatch)
        } else if data.len() < message_end {
            Err(ErrorCode::InvalidSignature)
        } else if data.subrange(message_start, message_end) != expected_message {
            Err(ErrorCode::InvalidSignature)
        } else {
            Ok(())
        }
    }
}

/// Check that a companion instruction, given by its program and its data,
/// is a verification of one signature by `expected_signing_key` over
/// `expected_message`.
pub fn check_ed25519_instruction(
    program_id: &Pubkey,
    data: &[u8],
    expected_signing_key: &Pubkey,
    expected_message: &[u8],
) -> (r: Result<(), ErrorCode>)
    ensures
        r == companion_verdict(program_id@, data@, expected_signing_key@, expected_message@),
{
    if !crate::pubkey::bytes32_equal(&program_id.bytes, &ED25519_PROGRAM_ID) {
        return Err(ErrorCode::InvalidSignature);
    }
    if data.len() < SIGNATURE_HEADER_LEN {
        return Err(ErrorCode::InvalidSignature);
    }
    let num_signatures = data[0];
    if num_signatures != 1 {
        return Err(ErrorCode::InvalidSignature);
    }
    let offsets = match Ed25519SignatureOffsets::parse(data) {
        Some(offsets) => offsets,
        None => {
            return Err(ErrorCode::InvalidSignature);
        },
    };
    let pubkey_start = offsets.public_key_offset as usize;
    let pubkey_end = pubkey_start + 32;
    if data.len() < pubkey_end {
        return Err(ErrorCode::InvalidSignature);
    }
    if !holds_at(data, pubkey_start, expected_signing_key.bytes.as_slice()) {
        return Err(ErrorCode::SigningKeyMismatch);
    }
    let msg_start = offsets.message_data_offset as usize;
    let msg_end = msg_start + offsets.message_data_size as usize;
    if data.len() < msg_end {
        return Err(ErrorCode::InvalidSignature);
    }
    if expected_message.len() != offsets.message_data_size as usize {
        assert(data@.subrange(msg_start as int, msg_end as int).len() != expected_message@.len());
        return Err(ErrorCode::InvalidSignature);
    }
    if !holds_at(data, msg_start, expected_message) {
        return Err(ErrorCode::InvalidSignature);
    }
    Ok(())
}

/// What verification reads of the account that lists the instructions of
/// the transaction under way: its address and its data.
#[derive(PartialEq, Eq, Debug)]
pub struct InstructionsSysvar {
    pub key: Pubkey,
    pub data: Vec<u8>,
}

/// An instruction that was read from the instructions account: the program
/// it calls and the data it carries.
#[derive(PartialEq, Eq, Debug)]
pub struct LoadedInstruction {
    pub program_id: Pubkey,
    pub data: Vec<u8>,
}

/// The instruction at `index` in an instructions account with address `key`
/// and contents `data`, as the program's address and the instruction's
/// data; `None` where the account holds none that can be read there.
pub uninterp spec fn instruction_at(index: int, key: Seq<u8>, data: Seq<u8>) -> Option<
    (Seq<u8>, Seq<u8>),
>;

/// Calls `load_instruction_at_checked` of the instructions-sysvar crate on
/// an account made of the given address and data. The contract claims only
/// that the outcome is a function of the index, the address and the data:
/// it is `instruction_at` of them, a failure of whatever kind standing for
/// `None`.
#[verifier::external_body]
fn load_instruction(index: usize, sysvar: &InstructionsSysvar) -> (r: Option<LoadedInstruction>)
    ensures
        match r {
            Some(ix) => instruction_at(index as int, sysvar.key@, sysvar.data@) == Some(
                (ix.program_id@, ix.data@),
            ),
            None => instruction_at(index as int, sysvar.key@, sysvar.data@) is None,
        },
{
    let key = anchor_lang::prelude::Pubkey::new_from_array(sysvar.key.bytes);
    let mut lamports = 0u64;
    let mut data = sysvar.data.clone();
    let account = AccountInfo::new(&key, false, false, &mut lamports, &mut data, &key, false);
    match load_instruction_at_checked(index, &account) {
        Ok(ix) => Some(
            LoadedInstruction {
                program_id: Pubkey { bytes: ix.program_id.to_bytes() },
                data: ix.data,
            },
        ),
        Err(_) => None,
    }
}

/// What verification of a quote's signature comes to, given what was read
/// at the companion's index: nothing there, or the wrong account to read
/// from, is an invalid signature; an instruction is judged by
/// `companion_verdict`.
pub open spec fn signature_verdict(
    sysvar_key: Pubkey,
    loaded: Option<(Seq<u8>, Seq<u8>)>,
    expected_signing_key: Pubkey,
    expected_message: Seq<u8>,
) -> Result<(), ErrorCode> {
    if sysvar_key@ != INSTRUCTIONS_SYSVAR_ID@ {
        Err(ErrorCode::InvalidSignature)
    } else {
        match loaded {
            None => Err(ErrorCode::InvalidSignature),
            Some((program, data)) => companion_verdict(
                program,
                data,
                expected_signing_key@,
                expected_message,
            ),
        }
    }
}

/// Judge what was read at the companion's index in the account
/// `sysvar_key`.
pub fn judge_loaded_instruction(
    sysvar_key: &Pubkey,
    loaded: &Option<LoadedInstruction>,
    expected_signing_key: &Pubkey,
    expected_message: &[u8],
) -> (r: Result<(), ErrorCode>)
    ensures
        r == signature_verdict(
            *sysvar_key,
            match *loaded {
                Some(ix) => Some((ix.program_id@, ix.data@)),
                None => None,
            },
            *expected_signing_key,
            expected_message@,
        ),
{
    if !crate::pubkey::bytes32_equal(&sysvar_key.bytes, &INSTRUCTIONS_SYSVAR_ID) {
        return Err(ErrorCode::InvalidSignature);
    }
    match loaded {
        None => Err(ErrorCode::InvalidSignature),
        Some(ix) => {
            check_ed25519_instruction(
                &ix.program_id,
                ix.data.as_slice(),
                expected_signing_key,
                expected_message,
            )
        },
    }
}

/// Verify a quote's signature by looking at the signature-verification
/// instruction that the caller put into the same transaction at
/// `ed25519_instruction_index`. That instruction has made the runtime check
/// the signature itself; what is checked here is that it was the market
/// maker's registered key and this very quote that were verified.
pub fn verify_ed25519_signature(
    instructions_sysvar: &InstructionsSysvar,
    expected_signing_key: &Pubkey,
    expected_message: &[u8],
    ed25519_instruction_index: u8,
) -> (r: Result<(), ErrorCode>)
    ensures
        r == signature_verdict(
            instructions_sysvar.key,
            instruction_at(
                ed25519_instruction_index as int,
                instructions_sysvar.key@,
                instructions_sysvar.data@,
            ),
            *expected_signing_key,
            expected_message@,
        ),
{
    let loaded = load_instruction(ed25519_instruction_index as usize, instructions_sysvar);
    judge_loaded_instruction(
        &instructions_sysvar.key,
        &loaded,
        expected_signing_key,
        expected_message,
    )
}

} // verus!
