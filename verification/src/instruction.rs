//! Instructions that the pool asks other programs to carry out.

use vstd::prelude::*;
use crate::pubkey::Pubkey;

verus! {

/// An account that an instruction names, and how it uses it.
#[derive(Clone, Copy, Debug, PartialEq, Eq)]
pub struct AccountMeta {
    /// The address of the account.
    pub pubkey: Pubkey,
    /// Whether the account has to sign.
    pub is_signer: bool,
    /// Whether the instruction may change the account.
    pub is_writable: bool,
}

/// A request to a program.
#[derive(Clone, Debug, PartialEq, Eq)]
pub struct Instruction {
    /// The program that carries the instruction out.
    pub program_id: Pubkey,
    /// The accounts the program is handed, in order.
    pub accounts: Vec<AccountMeta>,
    /// The request itself, in the program's own encoding.
    pub data: Vec<u8>,
}

/// What an instruction holds.
pub struct InstructionView {
    pub program_id: Pubkey,
    pub accounts: Seq<AccountMeta>,
    pub data: Seq<u8>,
}

impl View for Instruction {
    type V = InstructionView;

    open spec fn view(&self) -> InstructionView {
        InstructionView { program_id: self.program_id, accounts: self.accounts@, data: self.data@ }
    }
}

/// The address of the stake program:
/// `Stake11111111111111111111111111111111111111`.
pub open spec fn stake_program_address() -> Pubkey {
    Pubkey {
        bytes: [
            6, 161, 216, 23, 145, 55, 84, 42, 152, 52, 55, 189, 254, 42, 122, 178,
            85, 127, 83, 92, 138, 120, 114, 43, 104, 164, 157, 192, 0, 0, 0, 0,
        ],
    }
}

/// The address of the clock sysvar:
/// `SysvarC1ock11111111111111111111111111111111`.
pub open spec fn clock_sysvar_address() -> Pubkey {
    Pubkey {
        bytes: [
            6, 167, 213, 23, 24, 199, 116, 201, 40, 86, 99, 152, 105, 29, 94, 182,
            139, 94, 184, 163, 155, 75, 109, 92, 115, 85, 91, 33, 0, 0, 0, 0,
        ],
    }
}

/// The address of the stake-history sysvar:
/// `SysvarStakeHistory1111111111111111111111111`.
pub open spec fn stake_history_sysvar_address() -> Pubkey {
    Pubkey {
        bytes: [
            6, 167, 213, 23, 25, 53, 132, 208, 254, 237, 155, 179, 67, 29, 19, 32,
            107, 229, 68, 40, 27, 87, 184, 86, 108, 197, 55, 95, 244, 0, 0, 0,
        ],
    }
}

/// The address of the stake program.
pub fn stake_program_id() -> (id: Pubkey)
    ensures
        id == stake_program_address(),
{
    Pubkey {
        bytes: [
            6, 161, 216, 23, 145, 55, 84, 42, 152, 52, 55, 189, 254, 42, 122, 178,
            85, 127, 83, 92, 138, 120, 114, 43, 104, 164, 157, 192, 0, 0, 0, 0,
        ],
    }
}

/// The address of the clock sysvar.
pub fn clock_sysvar_id() -> (id: Pubkey)
    ensures
        id == clock_sysvar_address(),
{
    Pubkey {
        bytes: [
            6, 167, 213, 23, 24, 199, 116, 201, 40, 86, 99, 152, 105, 29, 94, 182,
            139, 94, 184, 163, 155, 75, 109, 92, 115, 85, 91, 33, 0, 0, 0, 0,
        ],
    }
}

/// The address of the stake-history sysvar.
pub fn stake_history_sysvar_id() -> (id: Pubkey)
    ensures
        id == stake_history_sysvar_address(),
{
    Pubkey {
        bytes: [
            6, 167, 213, 23, 25, 53, 132, 208, 254, 237, 155, 179, 67, 29, 19, 32,
            107, 229, 68, 40, 27, 87, 184, 86, 108, 197, 55, 95, 244, 0, 0, 0,
        ],
    }
}

/// The instruction that asks the stake program to merge the stake account
/// `source` into `destination`, signed by `authority`. Both stake accounts
/// are writable; the two sysvars and the authority are read only, and the
/// authority alone signs. The request is the number of the stake program's
/// merge instruction, 7, in four bytes.
pub open spec fn merge_instruction(
    destination: Pubkey,
    source: Pubkey,
    authority: Pubkey,
) -> InstructionView {
    InstructionView {
        program_id: stake_program_address(),
        accounts: seq![
            AccountMeta { pubkey: destination, is_signer: false, is_writable: true },
            AccountMeta { pubkey: source, is_signer: false, is_writable: true },
            AccountMeta { pubkey: clock_sysvar_address(), is_signer: false, is_writable: false },
            AccountMeta {
                pubkey: stake_history_sysvar_address(),
                is_signer: false,
                is_writable: false,
            },
            AccountMeta { pubkey: authority, is_signer: true, is_writable: false },
        ],
        data: seq![7u8, 0, 0, 0],
    }
}

/// Calls `solana_program::stake::instruction::merge`, which builds exactly
/// one instruction: for the stake program, naming the destination, the
/// source, the clock sysvar, the stake-history sysvar and the authority, with
/// the merge request as data. The contract states that instruction in full.
#[verifier::external_body]
pub(crate) fn stake_merge(destination: &Pubkey, source: &Pubkey, authority: &Pubkey) -> (built: Vec<
    Instruction,
>)
    ensures
        built@.len() == 1,
        built@[0]@ == merge_instruction(*destination, *source, *authority),
{
    let built = solana_program::stake::instruction::merge(
        &destination.bytes.into(),
        &source.bytes.into(),
        &authority.bytes.into(),
    );
    built.into_iter().map(|i| Instruction {
        program_id: Pubkey { bytes: i.program_id.to_bytes() },
        accounts: i.accounts.iter().map(|m| AccountMeta {
            pubkey: Pubkey { bytes: m.pubkey.to_bytes() },
            is_signer: m.is_signer,
            is_writable: m.is_writable,
        }).collect(),
        data: i.data,
    }).collect()
}

} // verus!
