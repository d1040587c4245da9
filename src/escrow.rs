//! An escrowed swap: the maker locks an amount of one token in a vault owned
//! by the escrow account and names the amount of another token it wants; a
//! taker who pays that amount receives the whole vault, or the maker takes the
//! vault back. Either way the escrow and its vault close together.
use crate::address::{
    address_of, check_associated, check_created, check_found, created_at, escrow_seeds,
    escrow_seeds_of, found_bump, is_associated_token_address, token_program_id,
    token_program_key, Address,
};
use crate::custody::{transfer, transfer_of, Slot, TokenAccount};
use crate::errors::{escrow_custody_error, EscrowError};
use vstd::prelude::*;

verus! {

/// The terms of an open escrow.
#[derive(Clone, Copy, Debug, PartialEq, Eq)]
pub struct Escrow {
    pub seed: u64,
    pub maker: Address,
    /// What the vault holds.
    pub mint_a: Address,
    /// What the maker wants.
    pub mint_b: Address,
    /// How much of `mint_b` the maker wants.
    pub receive: u64,
    pub bump: u8,
}

pub struct Make {
    pub maker: Address,
    pub escrow: Slot<Escrow>,
    pub mint_a: Address,
    pub mint_b: Address,
    pub maker_ata_a: Slot<TokenAccount>,
    pub vault: Slot<TokenAccount>,
}

pub struct Take {
    pub taker: Address,
    pub maker: Address,
    pub maker_lamports: u64,
    pub escrow: Slot<Escrow>,
    pub mint_a: Address,
    pub mint_b: Address,
    pub vault: Slot<TokenAccount>,
    pub taker_ata_a: Slot<TokenAccount>,
    pub taker_ata_b: Slot<TokenAccount>,
    pub maker_ata_b: Slot<TokenAccount>,
}

pub struct Refund {
    pub maker: Address,
    pub maker_lamports: u64,
    pub escrow: Slot<Escrow>,
    pub mint_a: Address,
    pub maker_ata_a: Slot<TokenAccount>,
    pub vault: Slot<TokenAccount>,
}

/// The account held in `slot`, or the empty account of `owner` for `mint`
/// that is created there on first use.
pub open spec fn held_or_new(slot: Slot<TokenAccount>, mint: Address, owner: Address) -> TokenAccount {
    match slot.data {
        Some(t) => t,
        None => TokenAccount { mint, owner, amount: 0 },
    }
}

fn held_or_new_exec(slot: &Slot<TokenAccount>, mint: &Address, owner: &Address) -> (r: TokenAccount)
    ensures
        r == held_or_new(*slot, *mint, *owner),
{
    match slot.data {
        Some(t) => t,
        None => TokenAccount { mint: *mint, owner: *owner, amount: 0 },
    }
}

/// Whether `t` is an account of `owner` for `mint`; the error otherwise.
pub open spec fn holder_error(t: TokenAccount, mint: Address, owner: Address) -> Option<EscrowError> {
    if t.owner != owner {
        Some(EscrowError::Unauthorized)
    } else if t.mint != mint {
        Some(EscrowError::MintMismatch)
    } else {
        None
    }
}

fn check_holder(t: &TokenAccount, mint: &Address, owner: &Address) -> (r: Option<EscrowError>)
    ensures
        r == holder_error(*t, *mint, *owner),
{
    if !t.owner.same(owner) {
        Some(EscrowError::Unauthorized)
    } else if !t.mint.same(mint) {
        Some(EscrowError::MintMismatch)
    } else {
        None
    }
}

/// Opening an escrow, given the bump derived for the escrow account and
/// whether the vault is the escrow's associated account for `mint_a`.
pub open spec fn make_step(c: Make, escrow_bump: Option<u8>, vault_ok: bool, seed: u64, receive: u64, amount: u64) -> (
    Make,
    Result<(), EscrowError>,
) {
    if escrow_bump is None || !vault_ok {
        (c, Err(EscrowError::AddressMismatch))
    } else if c.escrow.data is Some || c.vault.data is Some {
        (c, Err(EscrowError::AccountInUse))
    } else {
        match c.maker_ata_a.data {
            None => (c, Err(EscrowError::NotInitialized)),
            Some(t) => match holder_error(t, c.mint_a, c.maker) {
                Some(e) => (c, Err(e)),
                None => match transfer_of(t, TokenAccount { mint: c.mint_a, owner: c.escrow.key, amount: 0 }, amount) {
                    Err(e) => (c, Err(escrow_custody_error(e))),
                    Ok((t2, v2)) => (
                        Make {
                            escrow: Slot {
                                data: Some(
                                    Escrow {
                                        seed,
                                        maker: c.maker,
                                        mint_a: c.mint_a,
                                        mint_b: c.mint_b,
                                        receive,
                                        bump: escrow_bump.unwrap(),
                                    },
                                ),
                                ..c.escrow
                            },
                            maker_ata_a: Slot { data: Some(t2), ..c.maker_ata_a },
                            vault: Slot { data: Some(v2), ..c.vault },
                            ..c
                        },
                        Ok(()),
                    ),
                },
            },
        }
    }
}

/// Opens an escrow, given the address checks.
pub fn make_with(ctx: &mut Make, escrow_bump: Option<u8>, vault_ok: bool, seed: u64, receive: u64, amount: u64) -> (r:
    Result<(), EscrowError>)
    ensures
        (*final(ctx), r) == make_step(*old(ctx), escrow_bump, vault_ok, seed, receive, amount),
{
    let bump = match escrow_bump {
        Some(b) => b,
        None => return Err(EscrowError::AddressMismatch),
    };
    if !vault_ok {
        return Err(EscrowError::AddressMismatch);
    }
    if ctx.escrow.data.is_some() || ctx.vault.data.is_some() {
        return Err(EscrowError::AccountInUse);
    }
    let t = match ctx.maker_ata_a.data {
        None => return Err(EscrowError::NotInitialized),
        Some(t) => t,
    };
    match check_holder(&t, &ctx.mint_a, &ctx.maker) {
        Some(e) => return Err(e),
        None => {},
    }
    let empty = TokenAccount { mint: ctx.mint_a, owner: ctx.escrow.key, amount: 0 };
    let (t2, v2) = match transfer(&t, &empty, amount) {
        Ok(pair) => pair,
        Err(e) => return Err(EscrowError::from_custody(e)),
    };
    ctx.escrow.data = Some(
        Escrow { seed, maker: ctx.maker, mint_a: ctx.mint_a, mint_b: ctx.mint_b, receive, bump },
    );
    ctx.maker_ata_a.data = Some(t2);
    ctx.vault.data = Some(v2);
    Ok(())
}

/// The maker opens an escrow at `["escrow", maker, seed]`, locking `amount` of
/// `mint_a` in the escrow's associated vault and asking `receive` of `mint_b`.
pub fn make(ctx: &mut Make, program_id: &Address, seed: u64, receive: u64, amount: u64) -> (r: Result<
    (),
    EscrowError,
>)
    ensures
        (*final(ctx), r) == make_step(
            *old(ctx),
            found_bump(old(ctx).escrow.key, escrow_seeds_of(old(ctx).maker, seed), *program_id),
            is_associated_token_address(
                old(ctx).vault.key,
                old(ctx).escrow.key,
                old(ctx).mint_a,
                address_of(token_program_key()),
            ),
            seed,
            receive,
            amount,
        ),
{
    let escrow_bump = check_found(&ctx.escrow.key, &escrow_seeds(&ctx.maker, seed), program_id);
    let vault_ok = check_associated(&ctx.vault.key, &ctx.escrow.key, &ctx.mint_a, &token_program_id());
    make_with(ctx, escrow_bump, vault_ok, seed, receive, amount)
}

/// The address checks of a take.
#[derive(Clone, Copy, Debug, PartialEq, Eq, Structural)]
pub struct TakeChecks {
    /// The escrow is at the address re-created from its terms and bump.
    pub escrow: bool,
    pub vault: bool,
    pub taker_ata_a: bool,
    pub maker_ata_b: bool,
}

/// Settling an escrow: the taker pays `receive` of `mint_b` to the maker and
/// receives the whole vault; vault and escrow close, their lamports going to
/// the maker.
pub open spec fn take_step(c: Take, checks: TakeChecks) -> (Take, Result<(), EscrowError>) {
    match (c.escrow.data, c.vault.data, c.taker_ata_b.data) {
        (Some(e), Some(v), Some(tb)) => {
            let ta = held_or_new(c.taker_ata_a, c.mint_a, c.taker);
            let mb = held_or_new(c.maker_ata_b, c.mint_b, c.maker);
            if e.maker != c.maker {
                (c, Err(EscrowError::Unauthorized))
            } else if e.mint_a != c.mint_a || e.mint_b != c.mint_b {
                (c, Err(EscrowError::MintMismatch))
            } else if !checks.escrow || !checks.vault || !checks.taker_ata_a || !checks.maker_ata_b {
                (c, Err(EscrowError::AddressMismatch))
            } else if holder_error(v, c.mint_a, c.escrow.key) is Some {
                (c, Err(holder_error(v, c.mint_a, c.escrow.key).unwrap()))
            } else if holder_error(tb, c.mint_b, c.taker) is Some {
                (c, Err(holder_error(tb, c.mint_b, c.taker).unwrap()))
            } else if holder_error(ta, c.mint_a, c.taker) is Some {
                (c, Err(holder_error(ta, c.mint_a, c.taker).unwrap()))
            } else if holder_error(mb, c.mint_b, c.maker) is Some {
                (c, Err(holder_error(mb, c.mint_b, c.maker).unwrap()))
            } else {
                match (transfer_of(tb, mb, e.receive), transfer_of(v, ta, v.amount)) {
                    (Err(err), _) => (c, Err(escrow_custody_error(err))),
                    (_, Err(err)) => (c, Err(escrow_custody_error(err))),
                    (Ok((tb2, mb2)), Ok((_, ta2))) => if c.maker_lamports + c.escrow.lamports
                        + c.vault.lamports > u64::MAX {
                        (c, Err(EscrowError::Overflow))
                    } else {
                        (
                            Take {
                                maker_lamports: (c.maker_lamports + c.escrow.lamports
                                    + c.vault.lamports) as u64,
                                escrow: Slot { key: c.escrow.key, lamports: 0, data: None },
                                vault: Slot { key: c.vault.key, lamports: 0, data: None },
                                taker_ata_a: Slot { data: Some(ta2), ..c.taker_ata_a },
                                taker_ata_b: Slot { data: Some(tb2), ..c.taker_ata_b },
                                maker_ata_b: Slot { data: Some(mb2), ..c.maker_ata_b },
                                ..c
                            },
                            Ok(()),
                        )
                    },
                }
            }
        },
        _ => (c, Err(EscrowError::NotInitialized)),
    }
}

/// Settles an escrow, given the address checks.
pub fn take_with(ctx: &mut Take, checks: &TakeChecks) -> (r: Result<(), EscrowError>)
    ensures
        (*final(ctx), r) == take_step(*old(ctx), *checks),
{
    let (e, v, tb) = match (ctx.escrow.data, ctx.vault.data, ctx.taker_ata_b.data) {
        (Some(e), Some(v), Some(tb)) => (e, v, tb),
        _ => return Err(EscrowError::NotInitialized),
    };
    let ta = held_or_new_exec(&ctx.taker_ata_a, &ctx.mint_a, &ctx.taker);
    let mb = held_or_new_exec(&ctx.maker_ata_b, &ctx.mint_b, &ctx.maker);
    if !e.maker.same(&ctx.maker) {
        return Err(EscrowError::Unauthorized);
    }
    if !e.mint_a.same(&ctx.mint_a) || !e.mint_b.same(&ctx.mint_b) {
        return Err(EscrowError::MintMismatch);
    }
    if !checks.escrow || !checks.vault || !checks.taker_ata_a || !checks.maker_ata_b {
        return Err(EscrowError::AddressMismatch);
    }
    match check_holder(&v, &ctx.mint_a, &ctx.escrow.key) {
        Some(err) => return Err(err),
        None => {},
    }
    match check_holder(&tb, &ctx.mint_b, &ctx.taker) {
        Some(err) => return Err(err),
        None => {},
    }
    match check_holder(&ta, &ctx.mint_a, &ctx.taker) {
        Some(err) => return Err(err),
        None => {},
    }
    match check_holder(&mb, &ctx.mint_b, &ctx.maker) {
        Some(err) => return Err(err),
        None => {},
    }
    let (tb2, mb2) = match transfer(&tb, &mb, e.receive) {
        Ok(pair) => pair,
        Err(err) => return Err(EscrowError::from_custody(err)),
    };
    let (_, ta2) = match transfer(&v, &ta, v.amount) {
        Ok(pair) => pair,
        Err(err) => return Err(EscrowError::from_custody(err)),
    };
    let lamports = match ctx.maker_lamports.checked_add(ctx.escrow.lamports) {
        Some(l) => l.checked_add(ctx.vault.lamports),
        None => None,
    };
    let lamports = match lamports {
        Some(l) => l,
        None => return Err(EscrowError::Overflow),
    };
    ctx.maker_lamports = lamports;
    ctx.escrow.lamports = 0;
    ctx.escrow.data = None;
    ctx.vault.lamports = 0;
    ctx.vault.data = None;
    ctx.taker_ata_a.data = Some(ta2);
    ctx.taker_ata_b.data = Some(tb2);
    ctx.maker_ata_b.data = Some(mb2);
    Ok(())
}

/// Whether the escrow account is at the address re-created from its maker,
/// seed and stored bump.
pub open spec fn escrow_at_address(escrow: Slot<Escrow>, program_id: Address) -> bool {
    match escrow.data {
        Some(e) => created_at(escrow.key, escrow_seeds_of(e.maker, e.seed), e.bump, program_id),
        None => false,
    }
}

fn check_escrow(escrow: &Slot<Escrow>, program_id: &Address) -> (r: bool)
    ensures
        r == escrow_at_address(*escrow, *program_id),
{
    match &escrow.data {
        Some(e) => check_created(&escrow.key, escrow_seeds(&e.maker, e.seed), e.bump, program_id),
        None => false,
    }
}

/// The address checks of a take as derived for `program_id`.
pub open spec fn take_checks_of(c: Take, program_id: Address) -> TakeChecks {
    let token_program = address_of(token_program_key());
    TakeChecks {
        escrow: escrow_at_address(c.escrow, program_id),
        vault: is_associated_token_address(c.vault.key, c.escrow.key, c.mint_a, token_program),
        taker_ata_a: is_associated_token_address(c.taker_ata_a.key, c.taker, c.mint_a, token_program),
        maker_ata_b: is_associated_token_address(c.maker_ata_b.key, c.maker, c.mint_b, token_program),
    }
}

/// The taker settles an open escrow.
pub fn take(ctx: &mut Take, program_id: &Address) -> (r: Result<(), EscrowError>)
    ensures
        (*final(ctx), r) == take_step(*old(ctx), take_checks_of(*old(ctx), *program_id)),
{
    let token_program = token_program_id();
    let checks = TakeChecks {
        escrow: check_escrow(&ctx.escrow, program_id),
        vault: check_associated(&ctx.vault.key, &ctx.escrow.key, &ctx.mint_a, &token_program),
        taker_ata_a: check_associated(&ctx.taker_ata_a.key, &ctx.taker, &ctx.mint_a, &token_program),
        maker_ata_b: check_associated(&ctx.maker_ata_b.key, &ctx.maker, &ctx.mint_b, &token_program),
    };
    take_with(ctx, &checks)
}

/// Cancelling an escrow: the vault goes back to the maker; vault and escrow
/// close, their lamports going to the maker.
pub open spec fn refund_step(c: Refund, escrow_ok: bool, vault_ok: bool, maker_ata_ok: bool) -> (Refund, Result<(), EscrowError>) {
    match (c.escrow.data, c.vault.data) {
        (Some(e), Some(v)) => {
            let ma = held_or_new(c.maker_ata_a, c.mint_a, c.maker);
            if e.maker != c.maker {
                (c, Err(EscrowError::Unauthorized))
            } else if e.mint_a != c.mint_a {
                (c, Err(EscrowError::MintMismatch))
            } else if !escrow_ok || !vault_ok || !maker_ata_ok {
                (c, Err(EscrowError::AddressMismatch))
            } else if holder_error(v, c.mint_a, c.escrow.key) is Some {
                (c, Err(holder_error(v, c.mint_a, c.escrow.key).unwrap()))
            } else if holder_error(ma, c.mint_a, c.maker) is Some {
                (c, Err(holder_error(ma, c.mint_a, c.maker).unwrap()))
            } else {
                match transfer_of(v, ma, v.amount) {
                    Err(err) => (c, Err(escrow_custody_error(err))),
                    Ok((_, ma2)) => if c.maker_lamports + c.escrow.lamports + c.vault.lamports > u64::MAX {
                        (c, Err(EscrowError::Overflow))
                    } else {
                        (
                            Refund {
                                maker_lamports: (c.maker_lamports + c.escrow.lamports
                                    + c.vault.lamports) as u64,
                                escrow: Slot { key: c.escrow.key, lamports: 0, data: None },
                                vault: Slot { key: c.vault.key, lamports: 0, data: None },
                                maker_ata_a: Slot { data: Some(ma2), ..c.maker_ata_a },
                                ..c
                            },
                            Ok(()),
                        )
                    },
                }
            }
        },
        _ => (c, Err(EscrowError::NotInitialized)),
    }
}

/// Cancels an escrow, given the address checks.
pub fn refund_with(ctx: &mut Refund, escrow_ok: bool, vault_ok: bool, maker_ata_ok: bool) -> (r: Result<(), EscrowError>)
    ensures
        (*final(ctx), r) == refund_step(*old(ctx), escrow_ok, vault_ok, maker_ata_ok),
{
    let (e, v) = match (ctx.escrow.data, ctx.vault.data) {
        (Some(e), Some(v)) => (e, v),
        _ => return Err(EscrowError::NotInitialized),
    };
    let ma = held_or_new_exec(&ctx.maker_ata_a, &ctx.mint_a, &ctx.maker);
    if !e.maker.same(&ctx.maker) {
        return Err(EscrowError::Unauthorized);
    }
    if !e.mint_a.same(&ctx.mint_a) {
        return Err(EscrowError::MintMismatch);
    }
    if !escrow_ok || !vault_ok || !maker_ata_ok {
        return Err(EscrowError::AddressMismatch);
    }
    match check_holder(&v, &ctx.mint_a, &ctx.escrow.key) {
        Some(err) => return Err(err),
        None => {},
    }
    match check_holder(&ma, &ctx.mint_a, &ctx.maker) {
        Some(err) => return Err(err),
        None => {},
    }
    let (_, ma2) = match transfer(&v, &ma, v.amount) {
        Ok(pair) => pair,
        Err(err) => return Err(EscrowError::from_custody(err)),
    };
    let lamports = match ctx.maker_lamports.checked_add(ctx.escrow.lamports) {
        Some(l) => l.checked_add(ctx.vault.lamports),
        None => None,
    };
    let lamports = match lamports {
        Some(l) => l,
        None => return Err(EscrowError::Overflow),
    };
    ctx.maker_lamports = lamports;
    ctx.escrow.lamports = 0;
    ctx.escrow.data = None;
    ctx.vault.lamports = 0;
    ctx.vault.data = None;
    ctx.maker_ata_a.data = Some(ma2);
    Ok(())
}

/// The maker cancels an open escrow and takes the vault back.
pub fn refund(ctx: &mut Refund, program_id: &Address) -> (r: Result<(), EscrowError>)
    ensures
        (*final(ctx), r) == refund_step(
            *old(ctx),
            escrow_at_address(old(ctx).escrow, *program_id),
            is_associated_token_address(
                old(ctx).vault.key,
                old(ctx).escrow.key,
                old(ctx).mint_a,
                address_of(token_program_key()),
            ),
            is_associated_token_address(
                old(ctx).maker_ata_a.key,
                old(ctx).maker,
                old(ctx).mint_a,
                address_of(token_program_key()),
            ),
        ),
{
    let token_program = token_program_id();
    let escrow_ok = check_escrow(&ctx.escrow, program_id);
    let vault_ok = check_associated(&ctx.vault.key, &ctx.escrow.key, &ctx.mint_a, &token_program);
    let maker_ata_ok = check_associated(&ctx.maker_ata_a.key, &ctx.maker, &ctx.mint_a, &token_program);
    refund_with(ctx, escrow_ok, vault_ok, maker_ata_ok)
}


/// The tokens of an account slot (none while it does not exist).
pub open spec fn balance(slot: Slot<TokenAccount>) -> int {
    match slot.data {
        Some(t) => t.amount as int,
        None => 0,
    }
}

/// Opening an escrow creates the escrow and its vault together and moves the
/// maker's tokens into the vault, creating none.
pub proof fn lemma_make_conserves(c: Make, escrow_bump: Option<u8>, vault_ok: bool, seed: u64, receive: u64, amount: u64)
    requires
        make_step(c, escrow_bump, vault_ok, seed, receive, amount).1 is Ok,
    ensures
        ({
            let c2 = make_step(c, escrow_bump, vault_ok, seed, receive, amount).0;
            &&& balance(c2.maker_ata_a) + balance(c2.vault) == balance(c.maker_ata_a)
            &&& balance(c2.vault) == amount
            &&& c2.escrow.data is Some
            &&& c2.vault.data is Some
        }),
{
}

/// A take conserves each kind of token across maker, taker and vault, and the
/// lamports of the closed accounts go to the maker; afterwards neither the
/// escrow nor its vault exists.
pub proof fn lemma_take_conserves(c: Take, checks: TakeChecks)
    requires
        take_step(c, checks).1 is Ok,
    ensures
        ({
            let c2 = take_step(c, checks).0;
            &&& balance(c2.vault) + balance(c2.taker_ata_a) == balance(c.vault) + balance(c.taker_ata_a)
            &&& balance(c2.taker_ata_b) + balance(c2.maker_ata_b) == balance(c.taker_ata_b) + balance(
                c.maker_ata_b,
            )
            &&& balance(c2.maker_ata_b) == balance(c.maker_ata_b) + c.escrow.data.unwrap().receive
            &&& c2.maker_lamports + c2.escrow.lamports + c2.vault.lamports == c.maker_lamports
                + c.escrow.lamports + c.vault.lamports
            &&& c2.escrow.data is None
            &&& c2.vault.data is None
        }),
{
}

/// A refund returns the whole vault to the maker; afterwards neither the
/// escrow nor its vault exists.
pub proof fn lemma_refund_conserves(c: Refund, escrow_ok: bool, vault_ok: bool, maker_ata_ok: bool)
    requires
        refund_step(c, escrow_ok, vault_ok, maker_ata_ok).1 is Ok,
    ensures
        ({
            let c2 = refund_step(c, escrow_ok, vault_ok, maker_ata_ok).0;
            &&& balance(c2.vault) + balance(c2.maker_ata_a) == balance(c.vault) + balance(c.maker_ata_a)
            &&& c2.maker_lamports + c2.escrow.lamports + c2.vault.lamports == c.maker_lamports
                + c.escrow.lamports + c.vault.lamports
            &&& c2.escrow.data is None
            &&& c2.vault.data is None
        }),
{
}


/// A whole swap, an escrow opened and then taken, ends with as much of each
/// token across maker, taker and vault as it began with: the maker's locked
/// tokens are the taker's, and the taker's payment is the maker's.
pub proof fn lemma_swap_conserves(
    m: Make,
    escrow_bump: Option<u8>,
    vault_ok: bool,
    seed: u64,
    receive: u64,
    amount: u64,
    t: Take,
    checks: TakeChecks,
)
    requires
        make_step(m, escrow_bump, vault_ok, seed, receive, amount).1 is Ok,
        t.escrow == make_step(m, escrow_bump, vault_ok, seed, receive, amount).0.escrow,
        t.vault == make_step(m, escrow_bump, vault_ok, seed, receive, amount).0.vault,
        take_step(t, checks).1 is Ok,
    ensures
        ({
            let m2 = make_step(m, escrow_bump, vault_ok, seed, receive, amount).0;
            let t2 = take_step(t, checks).0;
            &&& balance(m2.maker_ata_a) + balance(t2.vault) + balance(t2.taker_ata_a) == balance(
                m.maker_ata_a,
            ) + balance(m.vault) + balance(t.taker_ata_a)
            &&& balance(t2.taker_ata_a) == balance(t.taker_ata_a) + amount
            &&& balance(t2.maker_ata_b) == balance(t.maker_ata_b) + receive
            &&& balance(t2.taker_ata_b) + balance(t2.maker_ata_b) == balance(t.taker_ata_b) + balance(
                t.maker_ata_b,
            )
        }),
{
    lemma_make_conserves(m, escrow_bump, vault_ok, seed, receive, amount);
    lemma_take_conserves(t, checks);
}

/// A vault is released at most once: after a take, a second take of the same
/// accounts is refused and changes nothing.
pub proof fn lemma_take_once(c: Take, checks: TakeChecks, again: TakeChecks)
    requires
        take_step(c, checks).1 is Ok,
    ensures
        take_step(take_step(c, checks).0, again) == (take_step(c, checks).0, Err::<(), EscrowError>(
            EscrowError::NotInitialized,
        )),
{
}

/// After a refund the escrow cannot be refunded again.
pub proof fn lemma_refund_once(c: Refund, escrow_ok: bool, vault_ok: bool, maker_ata_ok: bool, again: (bool, bool, bool))
    requires
        refund_step(c, escrow_ok, vault_ok, maker_ata_ok).1 is Ok,
    ensures
        refund_step(refund_step(c, escrow_ok, vault_ok, maker_ata_ok).0, again.0, again.1, again.2) == (
            refund_step(c, escrow_ok, vault_ok, maker_ata_ok).0,
            Err::<(), EscrowError>(EscrowError::NotInitialized),
        ),
{
}

} // verus!
