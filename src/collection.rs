//! A collection of limited-supply items in eleven categories: ten of 120 units
//! and one rare category of 6. Each mint takes one unit from its category.
use crate::address::{
    address_of, check_associated, check_found, collection_seeds, collection_seeds_of, found_bump,
    is_associated_token_address, labubu_mint_seeds, labubu_mint_seeds_of, token_2022_program_id,
    token_2022_program_key, Address,
};
use crate::custody::{mint_to, mint_to_of, MintAccount, Slot, TokenAccount};
use crate::errors::{labubu_custody_error, LabubuError};
use crate::settlement::{supply_take_of, take_one};
use vstd::array::spec_array_update;
use vstd::prelude::*;

verus! {

broadcast use vstd::array::group_array_axioms;

pub const TOTAL_LABUBU_TYPES: usize = 11;

pub const NORMAL_SUPPLY: u16 = 120;

pub const RARE_SUPPLY: u16 = 6;

#[derive(Clone, Copy, Debug, PartialEq, Eq)]
pub struct LabubuCollection {
    pub authority: Address,
    /// Units left in each category; category `i` is item id `i + 1`.
    pub remaining_supply: [u16; TOTAL_LABUBU_TYPES],
    pub total_minted: u32,
}

/// Units a category starts with.
pub open spec fn initial_supply(i: int) -> u16 {
    if i < 10 {
        NORMAL_SUPPLY
    } else {
        RARE_SUPPLY
    }
}

/// Every category at its starting supply.
pub open spec fn full_supply() -> [u16; TOTAL_LABUBU_TYPES] {
    choose|a: [u16; TOTAL_LABUBU_TYPES]|
        a@ == Seq::new(TOTAL_LABUBU_TYPES as nat, |i: int| initial_supply(i))
}

/// Units taken from the first `n` categories.
pub open spec fn minted_in(remaining: Seq<u16>, n: int) -> int
    decreases n,
{
    if n <= 0 {
        0
    } else {
        minted_in(remaining, n - 1) + (initial_supply(n - 1) - remaining[n - 1])
    }
}

impl LabubuCollection {
    /// No category holds more than it started with, and the global counter is
    /// the number of units taken from all categories.
    pub open spec fn wf(&self) -> bool {
        &&& forall|i: int| 0 <= i < TOTAL_LABUBU_TYPES ==> self.remaining_supply@[i] <= initial_supply(i)
        &&& self.total_minted == minted_in(self.remaining_supply@, TOTAL_LABUBU_TYPES as int)
    }
}

pub struct InitializeCollection {
    pub authority: Address,
    pub collection: Slot<LabubuCollection>,
}

pub struct CreateLabubuMint {
    pub authority: Address,
    pub collection: Slot<LabubuCollection>,
    pub mint: Slot<MintAccount>,
}

pub struct MintRandom {
    pub user: Address,
    pub collection: Slot<LabubuCollection>,
    pub mint: Slot<MintAccount>,
    pub user_token_account: Slot<TokenAccount>,
}

/// Opening the collection with every category full.
pub open spec fn initialize_collection_step(c: InitializeCollection, collection_bump: Option<u8>) -> (
    InitializeCollection,
    Result<(), LabubuError>,
) {
    if collection_bump is None {
        (c, Err(LabubuError::AddressMismatch))
    } else if c.collection.data is Some {
        (c, Err(LabubuError::AlreadyInitialized))
    } else {
        (
            InitializeCollection {
                collection: Slot {
                    data: Some(
                        LabubuCollection {
                            authority: c.authority,
                            remaining_supply: full_supply(),
                            total_minted: 0,
                        },
                    ),
                    ..c.collection
                },
                ..c
            },
            Ok(()),
        )
    }
}

/// Opens the collection, given the bump derived for its account.
pub fn initialize_collection_with(ctx: &mut InitializeCollection, collection_bump: Option<u8>) -> (r: Result<
    (),
    LabubuError,
>)
    ensures
        (*final(ctx), r) == initialize_collection_step(*old(ctx), collection_bump),
        r is Ok ==> final(ctx).collection.data.unwrap().wf(),
{
    if collection_bump.is_none() {
        return Err(LabubuError::AddressMismatch);
    }
    if ctx.collection.data.is_some() {
        return Err(LabubuError::AlreadyInitialized);
    }
    let mut remaining_supply: [u16; TOTAL_LABUBU_TYPES] = [0; TOTAL_LABUBU_TYPES];
    let mut i: usize = 0;
    while i < TOTAL_LABUBU_TYPES
        invariant
            0 <= i <= TOTAL_LABUBU_TYPES,
            forall|j: int| 0 <= j < i ==> remaining_supply@[j] == initial_supply(j),
        decreases TOTAL_LABUBU_TYPES - i,
    {
        remaining_supply[i] = if i < 10 {
            NORMAL_SUPPLY
        } else {
            RARE_SUPPLY
        };
        i = i + 1;
    }
    let collection = LabubuCollection { authority: ctx.authority, remaining_supply, total_minted: 0 };
    proof {
        assert(remaining_supply@ =~= Seq::new(TOTAL_LABUBU_TYPES as nat, |i: int| initial_supply(i)));
        assert(remaining_supply =~= full_supply());
        assert(minted_in(collection.remaining_supply@, TOTAL_LABUBU_TYPES as int) == 0) by {
            reveal_with_fuel(minted_in, 12);
        }
    }
    ctx.collection.data = Some(collection);
    Ok(())
}

/// Opens the collection at the address derived from `["collection"]`.
pub fn initialize_collection(ctx: &mut InitializeCollection, program_id: &Address) -> (r: Result<(), LabubuError>)
    ensures
        (*final(ctx), r) == initialize_collection_step(
            *old(ctx),
            found_bump(old(ctx).collection.key, collection_seeds_of(), *program_id),
        ),
        r is Ok ==> final(ctx).collection.data.unwrap().wf(),
{
    let bump = check_found(&ctx.collection.key, &collection_seeds(), program_id);
    initialize_collection_with(ctx, bump)
}


/// Whether `labubu_id` names a category (1 to 11).
pub open spec fn valid_labubu_id(labubu_id: u8) -> bool {
    1 <= labubu_id <= TOTAL_LABUBU_TYPES
}

/// Creating the token mint of one category, given the bumps derived for the
/// collection and for `["labubu_mint", [labubu_id]]`.
pub open spec fn create_labubu_mint_step(
    c: CreateLabubuMint,
    collection_bump: Option<u8>,
    mint_bump: Option<u8>,
    labubu_id: u8,
) -> (CreateLabubuMint, Result<(), LabubuError>) {
    match c.collection.data {
        None => (c, Err(LabubuError::NotInitialized)),
        Some(col) => if collection_bump is None || mint_bump is None {
            (c, Err(LabubuError::AddressMismatch))
        } else if col.authority != c.authority {
            (c, Err(LabubuError::Unauthorized))
        } else if !valid_labubu_id(labubu_id) {
            (c, Err(LabubuError::InvalidLabubuId))
        } else if c.mint.data is Some {
            (c, Err(LabubuError::AlreadyInitialized))
        } else {
            (
                CreateLabubuMint {
                    mint: Slot {
                        data: Some(MintAccount { authority: c.collection.key, supply: 0, decimals: 0 }),
                        ..c.mint
                    },
                    ..c
                },
                Ok(()),
            )
        },
    }
}

/// Creates a category's mint, given the derived bumps.
pub fn create_labubu_mint_with(
    ctx: &mut CreateLabubuMint,
    collection_bump: Option<u8>,
    mint_bump: Option<u8>,
    labubu_id: u8,
) -> (r: Result<(), LabubuError>)
    ensures
        (*final(ctx), r) == create_labubu_mint_step(*old(ctx), collection_bump, mint_bump, labubu_id),
{
    let authority = match &ctx.collection.data {
        None => return Err(LabubuError::NotInitialized),
        Some(col) => col.authority,
    };
    if collection_bump.is_none() || mint_bump.is_none() {
        return Err(LabubuError::AddressMismatch);
    }
    if !authority.same(&ctx.authority) {
        return Err(LabubuError::Unauthorized);
    }
    if !(labubu_id >= 1 && labubu_id as usize <= TOTAL_LABUBU_TYPES) {
        return Err(LabubuError::InvalidLabubuId);
    }
    if ctx.mint.data.is_some() {
        return Err(LabubuError::AlreadyInitialized);
    }
    ctx.mint.data = Some(MintAccount { authority: ctx.collection.key, supply: 0, decimals: 0 });
    Ok(())
}

/// Creates the zero-decimal mint of category `labubu_id`, whose issuing
/// authority is the collection account; only the collection's authority may.
pub fn create_labubu_mint(ctx: &mut CreateLabubuMint, program_id: &Address, labubu_id: u8) -> (r: Result<
    (),
    LabubuError,
>)
    ensures
        (*final(ctx), r) == create_labubu_mint_step(
            *old(ctx),
            found_bump(old(ctx).collection.key, collection_seeds_of(), *program_id),
            found_bump(old(ctx).mint.key, labubu_mint_seeds_of(labubu_id), *program_id),
            labubu_id,
        ),
{
    let collection_bump = check_found(&ctx.collection.key, &collection_seeds(), program_id);
    let mint_bump = check_found(&ctx.mint.key, &labubu_mint_seeds(labubu_id), program_id);
    create_labubu_mint_with(ctx, collection_bump, mint_bump, labubu_id)
}

/// Minting one unit of category `labubu_id` to the user, given the derived
/// bumps of the collection and the mint, and whether the user's token account
/// is at its associated address.
pub open spec fn mint_random_step(
    c: MintRandom,
    collection_bump: Option<u8>,
    mint_bump: Option<u8>,
    token_account_at_address: bool,
    labubu_id: u8,
) -> (MintRandom, Result<(), LabubuError>) {
    match (c.collection.data, c.mint.data) {
        (None, _) => (c, Err(LabubuError::NotInitialized)),
        (Some(col), None) => if collection_bump is None || mint_bump is None {
            (c, Err(LabubuError::AddressMismatch))
        } else {
            (c, Err(LabubuError::NotInitialized))
        },
        (Some(col), Some(mint)) => {
            let account = match c.user_token_account.data {
                Some(t) => t,
                None => TokenAccount { mint: c.mint.key, owner: c.user, amount: 0 },
            };
            let idx = labubu_id - 1;
            if collection_bump is None || mint_bump is None || !token_account_at_address {
                (c, Err(LabubuError::AddressMismatch))
            } else if account.mint != c.mint.key {
                (c, Err(LabubuError::MintMismatch))
            } else if account.owner != c.user {
                (c, Err(LabubuError::Unauthorized))
            } else if !valid_labubu_id(labubu_id) {
                (c, Err(LabubuError::InvalidLabubuId))
            } else if supply_take_of(col.remaining_supply@[idx]) is Err {
                (c, Err(LabubuError::SoldOut))
            } else if mint.authority != c.collection.key {
                (c, Err(LabubuError::Unauthorized))
            } else {
                match mint_to_of(c.mint.key, mint, account, 1) {
                    Err(e) => (c, Err(labubu_custody_error(e))),
                    Ok((mint2, account2)) => if col.total_minted + 1 > u32::MAX {
                        (c, Err(LabubuError::Overflow))
                    } else {
                        (
                            MintRandom {
                                collection: Slot {
                                    data: Some(
                                        LabubuCollection {
                                            remaining_supply: spec_array_update(
                                                col.remaining_supply,
                                                idx,
                                                (col.remaining_supply@[idx] - 1) as u16,
                                            ),
                                            total_minted: (col.total_minted + 1) as u32,
                                            ..col
                                        },
                                    ),
                                    ..c.collection
                                },
                                mint: Slot { data: Some(mint2), ..c.mint },
                                user_token_account: Slot { data: Some(account2), ..c.user_token_account },
                                ..c
                            },
                            Ok(()),
                        )
                    },
                }
            }
        },
    }
}

/// Mints one unit, given the derived bumps and the token-account check.
pub fn mint_random_with(
    ctx: &mut MintRandom,
    collection_bump: Option<u8>,
    mint_bump: Option<u8>,
    token_account_at_address: bool,
    labubu_id: u8,
) -> (r: Result<(), LabubuError>)
    ensures
        (*final(ctx), r) == mint_random_step(
            *old(ctx),
            collection_bump,
            mint_bump,
            token_account_at_address,
            labubu_id,
        ),
{
    let col = match ctx.collection.data {
        None => return Err(LabubuError::NotInitialized),
        Some(col) => col,
    };
    if collection_bump.is_none() || mint_bump.is_none() {
        return Err(LabubuError::AddressMismatch);
    }
    let mint = match ctx.mint.data {
        None => return Err(LabubuError::NotInitialized),
        Some(m) => m,
    };
    if !token_account_at_address {
        return Err(LabubuError::AddressMismatch);
    }
    let account = match ctx.user_token_account.data {
        Some(t) => t,
        None => TokenAccount { mint: ctx.mint.key, owner: ctx.user, amount: 0 },
    };
    if !account.mint.same(&ctx.mint.key) {
        return Err(LabubuError::MintMismatch);
    }
    if !account.owner.same(&ctx.user) {
        return Err(LabubuError::Unauthorized);
    }
    if !(labubu_id >= 1 && labubu_id as usize <= TOTAL_LABUBU_TYPES) {
        return Err(LabubuError::InvalidLabubuId);
    }
    let idx = (labubu_id - 1) as usize;
    let left = match take_one(col.remaining_supply[idx]) {
        Ok(v) => v,
        Err(_) => return Err(LabubuError::SoldOut),
    };
    if !mint.authority.same(&ctx.collection.key) {
        return Err(LabubuError::Unauthorized);
    }
    let (mint2, account2) = match mint_to(&ctx.mint.key, &mint, &account, 1) {
        Ok(pair) => pair,
        Err(e) => return Err(LabubuError::from_custody(e)),
    };
    let total = match col.total_minted.checked_add(1) {
        Some(t) => t,
        None => return Err(LabubuError::Overflow),
    };
    let mut col2 = col;
    col2.remaining_supply[idx] = left;
    col2.total_minted = total;
    proof {
        let (c2, _) = mint_random_step(*old(ctx), collection_bump, mint_bump, token_account_at_address, labubu_id);
        assert(col2.remaining_supply =~= c2.collection.data.unwrap().remaining_supply);
    }
    ctx.collection.data = Some(col2);
    ctx.mint.data = Some(mint2);
    ctx.user_token_account.data = Some(account2);
    Ok(())
}

/// Whether the user's token account of `c` is its associated account for the
/// mint under the token-2022 program.
pub open spec fn mint_random_account_at_address(c: MintRandom) -> bool {
    is_associated_token_address(c.user_token_account.key, c.user, c.mint.key, address_of(token_2022_program_key()))
}

/// Mints one unit of category `labubu_id` to the user, creating the user's
/// token account on first use.
pub fn mint_random(ctx: &mut MintRandom, program_id: &Address, labubu_id: u8) -> (r: Result<(), LabubuError>)
    ensures
        (*final(ctx), r) == mint_random_step(
            *old(ctx),
            found_bump(old(ctx).collection.key, collection_seeds_of(), *program_id),
            found_bump(old(ctx).mint.key, labubu_mint_seeds_of(labubu_id), *program_id),
            mint_random_account_at_address(*old(ctx)),
            labubu_id,
        ),
{
    let collection_bump = check_found(&ctx.collection.key, &collection_seeds(), program_id);
    let mint_bump = check_found(&ctx.mint.key, &labubu_mint_seeds(labubu_id), program_id);
    let token_program = token_2022_program_id();
    let at_address = check_associated(&ctx.user_token_account.key, &ctx.user, &ctx.mint.key, &token_program);
    mint_random_with(ctx, collection_bump, mint_bump, at_address, labubu_id)
}


proof fn lemma_minted_in_update(remaining: Seq<u16>, k: int, v: u16, n: int)
    requires
        0 <= k < remaining.len(),
        n <= remaining.len(),
    ensures
        minted_in(remaining.update(k, v), n) == minted_in(remaining, n) + if k < n {
            remaining[k] - v
        } else {
            0
        },
    decreases n,
{
    if n > 0 {
        lemma_minted_in_update(remaining, k, v, n - 1);
    }
}

/// A well-formed collection stays well-formed through any mint attempt: no
/// category exceeds its starting supply, and the global counter stays the
/// number of units taken from all categories.
pub proof fn lemma_mint_keeps_supply_invariant(
    c: MintRandom,
    collection_bump: Option<u8>,
    mint_bump: Option<u8>,
    token_account_at_address: bool,
    labubu_id: u8,
)
    requires
        c.collection.data matches Some(col) && col.wf(),
    ensures
        mint_random_step(c, collection_bump, mint_bump, token_account_at_address, labubu_id).0.collection.data
            matches Some(col2) && col2.wf(),
{
    let (c2, r) = mint_random_step(c, collection_bump, mint_bump, token_account_at_address, labubu_id);
    if r is Ok {
        let col = c.collection.data.unwrap();
        let idx = labubu_id - 1;
        let v = (col.remaining_supply@[idx] - 1) as u16;
        lemma_minted_in_update(col.remaining_supply@, idx, v, TOTAL_LABUBU_TYPES as int);
        assert(c2.collection.data.unwrap().remaining_supply@ == col.remaining_supply@.update(idx, v));
    }
}

/// No mint attempt raises a category's counter, and once a category is
/// exhausted every mint of it is refused.
pub proof fn lemma_sold_out_is_final(
    c: MintRandom,
    collection_bump: Option<u8>,
    mint_bump: Option<u8>,
    token_account_at_address: bool,
    labubu_id: u8,
)
    requires
        c.collection.data is Some,
    ensures
        ({
            let (c2, r) = mint_random_step(c, collection_bump, mint_bump, token_account_at_address, labubu_id);
            let before = c.collection.data.unwrap().remaining_supply@;
            let after = c2.collection.data.unwrap().remaining_supply@;
            &&& forall|i: int| 0 <= i < TOTAL_LABUBU_TYPES ==> after[i] <= before[i]
            &&& (valid_labubu_id(labubu_id) && before[labubu_id - 1] == 0) ==> r is Err && c2 == c
        }),
{
    let (c2, r) = mint_random_step(c, collection_bump, mint_bump, token_account_at_address, labubu_id);
    if r is Ok {
        let col = c.collection.data.unwrap();
        let idx = labubu_id - 1;
        assert(c2.collection.data.unwrap().remaining_supply@ == col.remaining_supply@.update(
            idx,
            (col.remaining_supply@[idx] - 1) as u16,
        ));
    }
}

} // verus!
