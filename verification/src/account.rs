//! What an operation reads of the accounts it is handed.

use vstd::prelude::*;
use crate::error::LidoError;
use crate::pubkey::Pubkey;

verus! {

/// An account that may have signed the transaction.
#[derive(Clone, Copy, Debug, PartialEq, Eq)]
pub struct SignerAccount {
    /// The address of the account.
    pub key: Pubkey,
    /// Whether the transaction carries this account's signature.
    pub is_signer: bool,
}

/// Where the data of a vote account holds the commission: after the version
/// and two addresses.
pub const VOTE_ACCOUNT_COMMISSION_OFFSET: usize = 68;

/// The commission that the data of a vote account holds, if the data reaches
/// that far. The data of a closed account is empty and holds none.
pub open spec fn vote_account_commission(data: Seq<u8>) -> Option<u8> {
    if data.len() > VOTE_ACCOUNT_COMMISSION_OFFSET {
        Some(data[VOTE_ACCOUNT_COMMISSION_OFFSET as int])
    } else {
        None
    }
}

/// Reads the commission from the data of a vote account; the data is not
/// that of a vote account if it is too short to hold one.
pub fn get_vote_account_commission(data: &[u8]) -> (result: Result<u8, LidoError>)
    ensures
        data@.len() > 68 ==> result == Ok::<u8, LidoError>(data@[68]),
        data@.len() <= 68 ==> result == Err::<u8, LidoError>(LidoError::InvalidVoteAccount),
{
    if data.len() > VOTE_ACCOUNT_COMMISSION_OFFSET {
        Ok(data[VOTE_ACCOUNT_COMMISSION_OFFSET])
    } else {
        Err(LidoError::InvalidVoteAccount)
    }
}

/// A validator's vote account as it is on the ledger now.
#[derive(Clone, Copy, Debug, PartialEq, Eq)]
pub struct VoteAccount {
    /// The address of the account, which is the validator's identity.
    pub key: Pubkey,
    /// The program that owns the account.
    pub owner: Pubkey,
    /// The balance of the account.
    pub lamports: u64,
    /// The commission the validator charges, in percent; `None` where the
    /// data of the account holds no commission.
    pub commission: Option<u8>,
}

impl VoteAccount {
    /// The vote account with the given address, owner and balance, and with
    /// the commission that `data` holds.
    pub fn read(key: Pubkey, owner: Pubkey, lamports: u64, data: &[u8]) -> (account: VoteAccount)
        ensures
            account == (VoteAccount {
                key,
                owner,
                lamports,
                commission: vote_account_commission(data@),
            }),
    {
        let commission = match get_vote_account_commission(data) {
            Ok(commission) => Some(commission),
            Err(_) => None,
        };
        VoteAccount { key, owner, lamports, commission }
    }
}

/// An account proposed as a recipient of fees.
#[derive(Clone, Copy, Debug, PartialEq, Eq)]
pub struct TokenAccount {
    /// The address of the account.
    pub key: Pubkey,
    /// The program that owns the account.
    pub owner: Pubkey,
    /// The mint whose tokens the account holds, if its data is that of a
    /// token account.
    pub mint: Option<Pubkey>,
}

/// The size of the data of a token account.
pub const TOKEN_ACCOUNT_LEN: usize = 165;

/// The mint that the data of a token account names, as its bytes: the first
/// 32 bytes, where the data has the size of a token account, and `None`
/// where it has not.
pub open spec fn token_account_mint(data: Seq<u8>) -> Option<Seq<u8>> {
    if data.len() == TOKEN_ACCOUNT_LEN {
        Some(data.subrange(0, 32))
    } else {
        None
    }
}

impl TokenAccount {
    /// The account with the given address and owner, and with the mint that
    /// `data` names.
    pub fn read(key: Pubkey, owner: Pubkey, data: &[u8]) -> (account: TokenAccount)
        ensures
            account.key == key,
            account.owner == owner,
            match account.mint {
                Some(mint) => token_account_mint(data@) == Some(mint@),
                None => token_account_mint(data@) is None,
            },
    {
        if data.len() != TOKEN_ACCOUNT_LEN {
            return TokenAccount { key, owner, mint: None };
        }
        let mut bytes = [0u8; 32];
        let mut i: usize = 0;
        while i < 32
            invariant
                i <= 32,
                data@.len() == TOKEN_ACCOUNT_LEN,
                forall|j: int| 0 <= j < i ==> bytes@[j] == data@[j],
            decreases 32 - i,
        {
            bytes[i] = data[i];
            i += 1;
        }
        proof {
            assert(bytes@ =~= data@.subrange(0, 32));
        }
        TokenAccount { key, owner, mint: Some(Pubkey { bytes }) }
    }
}

/// The addresses that take part in merging two stake accounts.
#[derive(Clone, Copy, Debug, PartialEq, Eq)]
pub struct MergeStakeAccounts {
    /// The identity of the validator whose stake accounts are merged.
    pub validator_vote_account: Pubkey,
    /// The stake account that is merged away.
    pub from_stake: Pubkey,
    /// The stake account that receives the balance.
    pub to_stake: Pubkey,
    /// The authority that signs for the pool's stake accounts.
    pub stake_authority: Pubkey,
}

} // verus!
