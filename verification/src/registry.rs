use crate::address::Address;
use crate::authority::{authority_address, canonical_bump, find_canonical_bump, AuthorityHandle};
use crate::context::{CreateParkToken, Initialize};
use crate::error::GameError;
use vstd::prelude::*;

verus! {

/// The decimals of the reward mint.
pub const REWARD_DECIMALS: u8 = 6;

/// Base units in one reward token: ten to the power of `REWARD_DECIMALS`.
pub const REWARD_UNIT: u64 = 1_000_000;

/// The name of the reward token.
pub const REWARD_NAME: &'static str = "PARK Token";

/// The symbol of the reward token.
pub const REWARD_SYMBOL: &'static str = "PARK";

/// Where the description of the reward token is kept.
pub const REWARD_URI: &'static str = "https://metadata.solanapark.io/park.json";

/// The key of the further entry that says what the token is for.
pub const DESCRIPTION_KEY: &'static str = "Description";

/// What the reward token is for.
pub const REWARD_DESCRIPTION: &'static str = "Reward token for Solana Park game";

/// The key of the further entry that names the token's picture.
pub const IMAGE_KEY: &'static str = "Image";

/// Where the picture of the reward token is kept.
pub const REWARD_IMAGE: &'static str = "https://metadata.solanapark.io/park.png";

/// The registry of the game: who administers it, which server it trusts, and
/// the bump that completes `GAME_SEED` to the seed of its minting authority.
#[derive(Clone, Copy, Debug, PartialEq, Eq)]
pub struct GameState {
    pub admin: Address,
    pub server_wallet: Address,
    pub bump: u8,
}

impl GameState {
    /// The handle of the minting authority, derived under `program` from the
    /// seed that this registry stores; `None` if the seed gives no address
    /// under that program.
    pub fn authority(&self, program: &Address) -> (handle: Option<AuthorityHandle>)
        ensures
            match handle {
                Some(handle) => handle.is_derived(self.bump, *program),
                None => authority_address(self.bump, *program) is None,
            },
    {
        AuthorityHandle::derive(self.bump, program)
    }
}

/// What setting the registry up with the seed that ends in `bump` answers,
/// and what it leaves in a slot that held `slot`.
pub open spec fn registry_after(slot: Option<GameState>, accounts: Initialize, bump: u8) -> (
    Result<(), GameError>,
    Option<GameState>,
) {
    match slot {
        Some(_) => (Err(GameError::AlreadyInitialized), slot),
        None => (
            Ok(()),
            Some(GameState { admin: accounts.admin, server_wallet: accounts.server, bump }),
        ),
    }
}

/// Sets the registry up, once.
///
/// An empty `slot` receives the registry of `accounts.admin` and
/// `accounts.server`, with the canonical seed of the minting authority under
/// `program`: the largest bump that gives an address is searched and stored.
/// A slot that holds a registry keeps it, and the call is refused with
/// `AlreadyInitialized`; nothing is searched then.
///
/// Under a program for which no bump from 255 down to 1 gives an address, the
/// registry stores the bump 0 and has the authority that 0 gives, if any.
pub fn initialize(slot: &mut Option<GameState>, accounts: &Initialize, program: &Address) -> (res:
    Result<(), GameError>)
    ensures
        (res, *final(slot)) == registry_after(*old(slot), *accounts, canonical_bump(*program)),
{
    if slot.is_some() {
        return Err(GameError::AlreadyInitialized);
    }
    let bump: u8 = find_canonical_bump(program);
    initialize_with_bump(slot, accounts, bump)
}

/// Sets the registry up, once, with the seed that ends in `bump`: what
/// `initialize` does when the search has given `bump`.
pub fn initialize_with_bump(slot: &mut Option<GameState>, accounts: &Initialize, bump: u8) -> (res:
    Result<(), GameError>)
    ensures
        (res, *final(slot)) == registry_after(*old(slot), *accounts, bump),
{
    if slot.is_some() {
        return Err(GameError::AlreadyInitialized);
    }
    *slot = Some(GameState { admin: accounts.admin, server_wallet: accounts.server, bump });
    Ok(())
}

/// What describes the reward token to people.
#[derive(Debug, PartialEq, Eq)]
pub struct TokenMetadata {
    /// Who may change the description.
    pub update_authority: Option<Address>,
    /// The mint that is described.
    pub mint: Address,
    pub name: String,
    pub symbol: String,
    pub uri: String,
    /// Further entries, each a key and its value.
    pub additional_metadata: Vec<(String, String)>,
}

/// The reward mint as it is to be created on the ledger.
#[derive(Debug, PartialEq, Eq)]
pub struct RewardMint {
    /// The account of the mint.
    pub mint: Address,
    pub decimals: u8,
    /// The only one who can mint.
    pub mint_authority: Address,
    /// Who can freeze token accounts of this mint.
    pub freeze_authority: Option<Address>,
    pub metadata: TokenMetadata,
}

impl RewardMint {
    /// Whether this is the reward mint at the account `mint` under
    /// `authority`: `REWARD_DECIMALS` decimals, every right with the address
    /// of the authority, and the fixed description.
    pub open spec fn is_reward_mint_of(&self, authority: AuthorityHandle, mint: Address) -> bool {
        &&& self.mint == mint
        &&& self.decimals == REWARD_DECIMALS
        &&& self.mint_authority == authority.spec_address()
        &&& self.freeze_authority == Some(self.mint_authority)
        &&& self.metadata.update_authority == Some(self.mint_authority)
        &&& self.metadata.mint == mint
        &&& self.metadata.name@ == REWARD_NAME@
        &&& self.metadata.symbol@ == REWARD_SYMBOL@
        &&& self.metadata.uri@ == REWARD_URI@
        &&& self.metadata.additional_metadata@.len() == 2
        &&& self.metadata.additional_metadata@[0].0@ == DESCRIPTION_KEY@
        &&& self.metadata.additional_metadata@[0].1@ == REWARD_DESCRIPTION@
        &&& self.metadata.additional_metadata@[1].0@ == IMAGE_KEY@
        &&& self.metadata.additional_metadata@[1].1@ == REWARD_IMAGE@
    }
}

/// Lays down the reward mint at `accounts.park_mint`: the ledger is to create
/// it with `REWARD_DECIMALS` decimals and to give the right to mint, to
/// freeze and to change the description to the authority that the registry
/// has derived, and to nobody else.
pub fn create_park_token(authority: &AuthorityHandle, accounts: &CreateParkToken) -> (token:
    RewardMint)
    ensures
        token.is_reward_mint_of(*authority, accounts.park_mint),
{
    let authority = authority.address();
    let mut additional_metadata: Vec<(String, String)> = Vec::new();
    additional_metadata.push((DESCRIPTION_KEY.to_owned(), REWARD_DESCRIPTION.to_owned()));
    additional_metadata.push((IMAGE_KEY.to_owned(), REWARD_IMAGE.to_owned()));
    let metadata = TokenMetadata {
        update_authority: Some(authority),
        mint: accounts.park_mint,
        name: REWARD_NAME.to_owned(),
        symbol: REWARD_SYMBOL.to_owned(),
        uri: REWARD_URI.to_owned(),
        additional_metadata,
    };
    RewardMint {
        mint: accounts.park_mint,
        decimals: REWARD_DECIMALS,
        mint_authority: authority,
        freeze_authority: Some(authority),
        metadata,
    }
}

} // verus!
