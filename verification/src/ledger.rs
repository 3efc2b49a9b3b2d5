use crate::address::Address;
use crate::authority::AuthorityHandle;
use crate::context::EndGame;
use crate::registry::REWARD_UNIT;
use vstd::prelude::*;

verus! {

/// An order to move tokens of one mint from one token account to another.
#[derive(Clone, Copy, Debug, PartialEq, Eq)]
pub struct TransferOrder {
    /// The account that is debited.
    pub from: Address,
    /// The account that is credited.
    pub to: Address,
    /// The mint of the tokens.
    pub mint: Address,
    /// Whose signature authorises the debit.
    pub authority: Address,
    /// How many base units move.
    pub amount: u64,
    /// The decimals of the mint, which the ledger checks.
    pub decimals: u8,
}

/// An order to mint reward tokens to a player's token account.
#[derive(Clone, Copy, Debug, PartialEq, Eq)]
pub struct MintOrder {
    /// The reward mint.
    pub mint: Address,
    /// The token account that is credited.
    pub to: Address,
    /// The player who is rewarded.
    pub player: Address,
    /// The authority that signs for the mint.
    pub authority: AuthorityHandle,
    /// How many base units are minted.
    pub amount: u64,
}

impl MintOrder {
    /// Whether this is the order that rewards `player` with `tokens` reward
    /// tokens: minted at the mint and to the token account that `accounts`
    /// names, `REWARD_UNIT` base units for each token, and signed by
    /// `authority`.
    pub open spec fn is_reward_of(
        &self,
        authority: AuthorityHandle,
        accounts: EndGame,
        player: Address,
        tokens: u64,
    ) -> bool {
        &&& self.mint == accounts.park_mint
        &&& self.to == accounts.player_ata
        &&& self.player == player
        &&& self.authority == authority
        &&& self.amount == tokens * REWARD_UNIT
    }
}

/// What one player has earned in a game, in whole reward tokens.
#[derive(Clone, Copy, Debug, PartialEq, Eq)]
pub struct PlayerScore {
    pub player: Address,
    pub tokens: u64,
}

} // verus!
