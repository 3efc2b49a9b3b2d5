use crate::address::Address;
use anchor_lang::prelude::Pubkey;
use vstd::prelude::*;

verus! {

/// The seed from which the minting authority is derived: the bytes of "game".
pub const GAME_SEED: [u8; 4] = [103, 97, 109, 101];

/// What `Pubkey::create_program_address` gives for these seeds under this
/// program: the bytes of the derived address, or nothing where it refuses
/// the seeds.
pub uninterp spec fn program_address(seeds: Seq<Seq<u8>>, program: Seq<u8>) -> Option<Seq<u8>>;

/// Calls `Pubkey::create_program_address` with the two seeds `seed` and
/// `[bump]` and with `program`.
///
/// The derivation hashes the seeds and the program's address and tests the
/// hash against the curve, nothing else, so its result is taken as a function
/// of them. Whatever its reason, a refusal comes back as `None`.
#[verifier::external_body]
fn create_program_address(seed: &[u8], bump: u8, program: &Address) -> (derived: Option<Address>)
    ensures
        match derived {
            Some(address) => program_address(seq![seed@, seq![bump]], program@) == Some(address@),
            None => program_address(seq![seed@, seq![bump]], program@) is None,
        },
{
    match Pubkey::create_program_address(&[seed, &[bump]], &Pubkey::new_from_array(program.0)) {
        Ok(key) => Some(Address(key.to_bytes())),
        Err(_) => None,
    }
}

/// The bytes of the address that signs for the reward mint of `program` when
/// `bump` completes the seed, if the two give an address at all.
pub open spec fn authority_address(bump: u8, program: Address) -> Option<Seq<u8>> {
    program_address(seq![GAME_SEED@, seq![bump]], program@)
}

/// Whether a bump completes the seed to an address under `program`.
pub open spec fn gives_authority(program: Address) -> spec_fn(u8) -> bool {
    |bump: u8| authority_address(bump, program) is Some
}

/// The largest bump from `top` down to 1 of which `gives` holds, or 0 if it
/// holds of none of them.
pub open spec fn largest_bump_up_to(top: int, gives: spec_fn(u8) -> bool) -> u8
    decreases top,
{
    if top <= 0 || top > u8::MAX {
        0
    } else if gives(top as u8) {
        top as u8
    } else {
        largest_bump_up_to(top - 1, gives)
    }
}

/// The bump of the canonical seed under `program`: the largest that gives an
/// address, as the search of `Pubkey::find_program_address` finds it, or 0
/// for a program under which no bump from 255 down to 1 gives one.
pub open spec fn canonical_bump(program: Address) -> u8 {
    largest_bump_up_to(u8::MAX as int, gives_authority(program))
}

/// Searches the bump of the canonical seed under `program`, from the
/// largest down.
pub fn find_canonical_bump(program: &Address) -> (bump: u8)
    ensures
        bump == canonical_bump(*program),
{
    let mut bump: u8 = u8::MAX;
    while bump > 0
        invariant
            canonical_bump(*program) == largest_bump_up_to(bump as int, gives_authority(*program)),
        decreases bump,
    {
        if create_program_address(GAME_SEED.as_slice(), bump, program).is_some() {
            return bump;
        }
        bump -= 1;
    }
    bump
}

/// The search finds the largest: what is found is 0 or a bump of which
/// `gives` holds, it never lies above `top`, and `gives` holds of no bump
/// between it and `top`. So whenever `gives` holds of some bump from `top`
/// down to 1, the largest such bump is found.
pub proof fn lemma_largest_bump(top: int, bump: u8, gives: spec_fn(u8) -> bool)
    requires
        1 <= bump <= top <= u8::MAX,
    ensures
        largest_bump_up_to(top, gives) <= top,
        largest_bump_up_to(top, gives) >= 1 ==> gives(largest_bump_up_to(top, gives)),
        largest_bump_up_to(top, gives) < bump ==> !gives(bump),
        gives(bump) ==> largest_bump_up_to(top, gives) >= bump,
    decreases top,
{
    if !gives(top as u8) {
        if bump < top {
            lemma_largest_bump(top - 1, bump, gives);
        } else if top > 1 {
            lemma_largest_bump(top - 1, (top - 1) as u8, gives);
        }
    }
}

/// The right to sign for the minting authority of one program.
///
/// A handle cannot be made up: the only way to one is through the registry,
/// which derives it from the seed that it stores. Whoever orders a mint has to
/// show one.
#[derive(Clone, Copy, Debug, PartialEq, Eq)]
pub struct AuthorityHandle {
    address: Address,
    bump: u8,
}

impl AuthorityHandle {
    /// The address that signs.
    pub closed spec fn spec_address(&self) -> Address {
        self.address
    }

    /// The bump that completes the seed.
    pub closed spec fn spec_bump(&self) -> u8 {
        self.bump
    }

    /// Whether this is the handle that `bump` gives under `program`.
    pub open spec fn is_derived(&self, bump: u8, program: Address) -> bool {
        &&& self.spec_bump() == bump
        &&& authority_address(bump, program) == Some(self.spec_address()@)
    }

    /// The handle that `bump` gives under `program`, if it gives one.
    pub(crate) fn derive(bump: u8, program: &Address) -> (handle: Option<AuthorityHandle>)
        ensures
            match handle {
                Some(handle) => handle.is_derived(bump, *program),
                None => authority_address(bump, *program) is None,
            },
    {
        match create_program_address(GAME_SEED.as_slice(), bump, program) {
            Some(address) => Some(AuthorityHandle { address, bump }),
            None => None,
        }
    }

    /// The address of the authority.
    #[verifier::when_used_as_spec(spec_address)]
    pub fn address(&self) -> (address: Address)
        ensures
            address == self.spec_address(),
    {
        self.address
    }

    /// The bump which, after `GAME_SEED`, makes up the signer's seeds.
    #[verifier::when_used_as_spec(spec_bump)]
    pub fn bump(&self) -> (bump: u8)
        ensures
            bump == self.spec_bump(),
    {
        self.bump
    }

    /// A handle is its address and its bump, nothing more.
    pub proof fn lemma_same_parts(a: AuthorityHandle, b: AuthorityHandle)
        ensures
            a.spec_address() == b.spec_address() && a.spec_bump() == b.spec_bump() ==> a == b,
    {
    }
}

} // verus!
