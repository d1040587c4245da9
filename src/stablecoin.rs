//! A stablecoin whose mint authority is the program's config account. Minting
//! is gated by a pause flag and by per-minter allowances; burning is not
//! gated by the pause flag, so that redemption stays open during an incident.
use crate::address::{
    address_of, check_associated, check_created, check_found, config_seeds, config_seeds_of,
    created_at, found_bump, is_associated_token_address, mint_seeds, mint_seeds_of, minter_seeds,
    minter_seeds_of, token_program_id, token_program_key, Address,
};
use crate::custody::{burn, burn_of, mint_to, mint_to_of, MintAccount, Slot, TokenAccount};
use crate::errors::{stablecoin_custody_error, StablecoinError};
use crate::settlement::{allowance_use_of, consume_allowance};
use vstd::prelude::*;

verus! {

/// Decimals of the stablecoin.
pub const STABLECOIN_DECIMALS: u8 = 6;

#[derive(Clone, Copy, Debug, PartialEq, Eq)]
pub struct Config {
    /// The one identity that configures minters and pauses minting.
    pub admin: Address,
    pub mint: Address,
    pub paused: bool,
    pub bump: u8,
    pub mint_bump: u8,
}

/// A minter's grant: it may mint `allowance` in all, of which it has minted
/// `amount_minted`.
#[derive(Clone, Copy, Debug, PartialEq, Eq)]
pub struct MinterConfig {
    pub minter: Address,
    pub allowance: u64,
    pub amount_minted: u64,
    pub is_initialized: bool,
    pub bump: u8,
}

pub struct Initialize {
    pub admin: Address,
    pub config: Slot<Config>,
    pub mint: Slot<MintAccount>,
}

pub struct ConfigureMinter {
    pub admin: Address,
    pub config: Slot<Config>,
    pub minter: Address,
    pub minter_config: Slot<MinterConfig>,
}

pub struct RemoveMinter {
    pub admin: Address,
    pub admin_lamports: u64,
    pub config: Slot<Config>,
    pub minter: Address,
    pub minter_config: Slot<MinterConfig>,
}

pub struct MintTokens {
    pub minter: Address,
    pub config: Slot<Config>,
    pub minter_config: Slot<MinterConfig>,
    pub mint: Slot<MintAccount>,
    pub destination: Slot<TokenAccount>,
    pub destination_owner: Address,
}

pub struct BurnTokens {
    pub owner: Address,
    pub config: Slot<Config>,
    pub mint: Slot<MintAccount>,
    pub token_account: Slot<TokenAccount>,
}

pub struct Pause {
    pub admin: Address,
    pub config: Slot<Config>,
}

pub struct Unpause {
    pub admin: Address,
    pub config: Slot<Config>,
}

/// Whether the config account is at the address re-created from `["config"]`
/// and its stored bump.
pub open spec fn config_at_address(config: Slot<Config>, program_id: Address) -> bool {
    match config.data {
        Some(cfg) => created_at(config.key, config_seeds_of(), cfg.bump, program_id),
        None => false,
    }
}

fn check_config(config: &Slot<Config>, program_id: &Address) -> (r: bool)
    ensures
        r == config_at_address(*config, *program_id),
{
    match &config.data {
        Some(cfg) => check_created(&config.key, config_seeds(), cfg.bump, program_id),
        None => false,
    }
}

/// Creating the config and the mint, given their derived bumps.
pub open spec fn initialize_step(c: Initialize, config_bump: Option<u8>, mint_bump: Option<u8>) -> (
    Initialize,
    Result<(), StablecoinError>,
) {
    if config_bump is None || mint_bump is None {
        (c, Err(StablecoinError::AddressMismatch))
    } else if c.config.data is Some || c.mint.data is Some {
        (c, Err(StablecoinError::AlreadyInitialized))
    } else {
        (
            Initialize {
                config: Slot {
                    data: Some(
                        Config {
                            admin: c.admin,
                            mint: c.mint.key,
                            paused: false,
                            bump: config_bump.unwrap(),
                            mint_bump: mint_bump.unwrap(),
                        },
                    ),
                    ..c.config
                },
                mint: Slot {
                    data: Some(
                        MintAccount { authority: c.config.key, supply: 0, decimals: STABLECOIN_DECIMALS },
                    ),
                    ..c.mint
                },
                ..c
            },
            Ok(()),
        )
    }
}

/// Creates the config and the mint, given their derived bumps.
pub fn initialize_with(ctx: &mut Initialize, config_bump: Option<u8>, mint_bump: Option<u8>) -> (r: Result<
    (),
    StablecoinError,
>)
    ensures
        (*final(ctx), r) == initialize_step(*old(ctx), config_bump, mint_bump),
{
    let (bump, mint_bump) = match (config_bump, mint_bump) {
        (Some(b), Some(m)) => (b, m),
        _ => return Err(StablecoinError::AddressMismatch),
    };
    if ctx.config.data.is_some() || ctx.mint.data.is_some() {
        return Err(StablecoinError::AlreadyInitialized);
    }
    ctx.config.data = Some(Config { admin: ctx.admin, mint: ctx.mint.key, paused: false, bump, mint_bump });
    ctx.mint.data = Some(
        MintAccount { authority: ctx.config.key, supply: 0, decimals: STABLECOIN_DECIMALS },
    );
    Ok(())
}

/// Creates the config at `["config"]` with the caller as admin, minting not
/// paused, and the stablecoin mint at `["mint"]` with the config as authority;
/// a second initialization fails.
pub fn initialize(ctx: &mut Initialize, program_id: &Address) -> (r: Result<(), StablecoinError>)
    ensures
        (*final(ctx), r) == initialize_step(
            *old(ctx),
            found_bump(old(ctx).config.key, config_seeds_of(), *program_id),
            found_bump(old(ctx).mint.key, mint_seeds_of(), *program_id),
        ),
{
    let config_bump = check_found(&ctx.config.key, &config_seeds(), program_id);
    let mint_bump = check_found(&ctx.mint.key, &mint_seeds(), program_id);
    initialize_with(ctx, config_bump, mint_bump)
}

/// Granting (or re-granting) `allowance` to a minter, given the config check and
/// the bump derived for `["minter", minter]`.
pub open spec fn configure_minter_step(
    c: ConfigureMinter,
    config_ok: bool,
    minter_bump: Option<u8>,
    allowance: u64,
) -> (ConfigureMinter, Result<(), StablecoinError>) {
    match c.config.data {
        None => (c, Err(StablecoinError::NotInitialized)),
        Some(cfg) => if c.admin != cfg.admin {
            (c, Err(StablecoinError::Unauthorized))
        } else if !config_ok || minter_bump is None {
            (c, Err(StablecoinError::AddressMismatch))
        } else {
            let mc = match c.minter_config.data {
                Some(m) => if m.is_initialized {
                    MinterConfig { allowance, ..m }
                } else {
                    MinterConfig {
                        minter: c.minter,
                        allowance,
                        amount_minted: 0,
                        is_initialized: true,
                        bump: minter_bump.unwrap(),
                    }
                },
                None => MinterConfig {
                    minter: c.minter,
                    allowance,
                    amount_minted: 0,
                    is_initialized: true,
                    bump: minter_bump.unwrap(),
                },
            };
            (ConfigureMinter { minter_config: Slot { data: Some(mc), ..c.minter_config }, ..c }, Ok(()))
        },
    }
}

/// Grants an allowance, given the address checks.
pub fn configure_minter_with(
    ctx: &mut ConfigureMinter,
    config_ok: bool,
    minter_bump: Option<u8>,
    allowance: u64,
) -> (r: Result<(), StablecoinError>)
    ensures
        (*final(ctx), r) == configure_minter_step(*old(ctx), config_ok, minter_bump, allowance),
{
    let admin = match &ctx.config.data {
        None => return Err(StablecoinError::NotInitialized),
        Some(cfg) => cfg.admin,
    };
    if !ctx.admin.same(&admin) {
        return Err(StablecoinError::Unauthorized);
    }
    let bump = match minter_bump {
        Some(b) => b,
        None => return Err(StablecoinError::AddressMismatch),
    };
    if !config_ok {
        return Err(StablecoinError::AddressMismatch);
    }
    let fresh = MinterConfig {
        minter: ctx.minter,
        allowance,
        amount_minted: 0,
        is_initialized: true,
        bump,
    };
    let mc = match ctx.minter_config.data {
        Some(m) => if m.is_initialized {
            MinterConfig { allowance, ..m }
        } else {
            fresh
        },
        None => fresh,
    };
    ctx.minter_config.data = Some(mc);
    Ok(())
}

/// The admin sets a minter's allowance, creating its grant at
/// `["minter", minter]` on first use; what it has minted is kept.
pub fn configure_minter(ctx: &mut ConfigureMinter, program_id: &Address, allowance: u64) -> (r: Result<
    (),
    StablecoinError,
>)
    ensures
        (*final(ctx), r) == configure_minter_step(
            *old(ctx),
            config_at_address(old(ctx).config, *program_id),
            found_bump(old(ctx).minter_config.key, minter_seeds_of(old(ctx).minter), *program_id),
            allowance,
        ),
{
    let config_ok = check_config(&ctx.config, program_id);
    let minter_bump = check_found(&ctx.minter_config.key, &minter_seeds(&ctx.minter), program_id);
    configure_minter_with(ctx, config_ok, minter_bump, allowance)
}


/// Whether the grant account is at the address re-created from
/// `["minter", minter]` and its stored bump.
pub open spec fn minter_config_at_address(minter_config: Slot<MinterConfig>, minter: Address, program_id: Address) -> bool {
    match minter_config.data {
        Some(mc) => created_at(minter_config.key, minter_seeds_of(minter), mc.bump, program_id),
        None => false,
    }
}

fn check_minter_config(minter_config: &Slot<MinterConfig>, minter: &Address, program_id: &Address) -> (r: bool)
    ensures
        r == minter_config_at_address(*minter_config, *minter, *program_id),
{
    match &minter_config.data {
        Some(mc) => check_created(&minter_config.key, minter_seeds(minter), mc.bump, program_id),
        None => false,
    }
}

/// Closing a minter's grant, its lamports going to the admin.
pub open spec fn remove_minter_step(c: RemoveMinter, config_ok: bool, minter_config_ok: bool) -> (
    RemoveMinter,
    Result<(), StablecoinError>,
) {
    match c.config.data {
        None => (c, Err(StablecoinError::NotInitialized)),
        Some(cfg) => if c.admin != cfg.admin {
            (c, Err(StablecoinError::Unauthorized))
        } else if c.minter_config.data is None {
            (c, Err(StablecoinError::NotInitialized))
        } else if !config_ok || !minter_config_ok {
            (c, Err(StablecoinError::AddressMismatch))
        } else if c.admin_lamports + c.minter_config.lamports > u64::MAX {
            (c, Err(StablecoinError::Overflow))
        } else {
            (
                RemoveMinter {
                    admin_lamports: (c.admin_lamports + c.minter_config.lamports) as u64,
                    minter_config: Slot { key: c.minter_config.key, lamports: 0, data: None },
                    ..c
                },
                Ok(()),
            )
        },
    }
}

/// Closes a grant, given the address checks.
pub fn remove_minter_with(ctx: &mut RemoveMinter, config_ok: bool, minter_config_ok: bool) -> (r: Result<
    (),
    StablecoinError,
>)
    ensures
        (*final(ctx), r) == remove_minter_step(*old(ctx), config_ok, minter_config_ok),
{
    let admin = match &ctx.config.data {
        None => return Err(StablecoinError::NotInitialized),
        Some(cfg) => cfg.admin,
    };
    if !ctx.admin.same(&admin) {
        return Err(StablecoinError::Unauthorized);
    }
    if ctx.minter_config.data.is_none() {
        return Err(StablecoinError::NotInitialized);
    }
    if !config_ok || !minter_config_ok {
        return Err(StablecoinError::AddressMismatch);
    }
    let refunded = match ctx.admin_lamports.checked_add(ctx.minter_config.lamports) {
        Some(v) => v,
        None => return Err(StablecoinError::Overflow),
    };
    ctx.admin_lamports = refunded;
    ctx.minter_config.lamports = 0;
    ctx.minter_config.data = None;
    Ok(())
}

/// The admin revokes a minter: its grant account is closed and its lamports
/// are returned to the admin.
pub fn remove_minter(ctx: &mut RemoveMinter, program_id: &Address) -> (r: Result<(), StablecoinError>)
    ensures
        (*final(ctx), r) == remove_minter_step(
            *old(ctx),
            config_at_address(old(ctx).config, *program_id),
            minter_config_at_address(old(ctx).minter_config, old(ctx).minter, *program_id),
        ),
{
    let config_ok = check_config(&ctx.config, program_id);
    let minter_config_ok = check_minter_config(&ctx.minter_config, &ctx.minter, program_id);
    remove_minter_with(ctx, config_ok, minter_config_ok)
}

/// The address checks of a mint: the config, the grant, the mint (from the
/// config's stored mint bump) and the destination token account.
#[derive(Clone, Copy, Debug, PartialEq, Eq, Structural)]
pub struct MintChecks {
    pub config: bool,
    pub minter_config: bool,
    pub mint: bool,
    pub destination: bool,
}

/// Minting `amount` to the destination, given the address checks.
pub open spec fn mint_tokens_step(c: MintTokens, checks: MintChecks, amount: u64) -> (
    MintTokens,
    Result<(), StablecoinError>,
) {
    match (c.config.data, c.minter_config.data, c.mint.data) {
        (Some(cfg), Some(mc), Some(mint)) => {
            let dest = match c.destination.data {
                Some(t) => t,
                None => TokenAccount { mint: c.mint.key, owner: c.destination_owner, amount: 0 },
            };
            if !checks.config || !checks.minter_config || !checks.mint || !checks.destination {
                (c, Err(StablecoinError::AddressMismatch))
            } else if !mc.is_initialized {
                (c, Err(StablecoinError::NotMinter))
            } else if dest.mint != c.mint.key {
                (c, Err(StablecoinError::MintMismatch))
            } else if dest.owner != c.destination_owner {
                (c, Err(StablecoinError::Unauthorized))
            } else if cfg.paused {
                (c, Err(StablecoinError::Paused))
            } else {
                match allowance_use_of(mc.allowance, mc.amount_minted, amount) {
                    Err(e) => (c, Err(e)),
                    Ok(used) => if mint.authority != c.config.key {
                        (c, Err(StablecoinError::Unauthorized))
                    } else {
                        match mint_to_of(c.mint.key, mint, dest, amount) {
                            Err(e) => (c, Err(stablecoin_custody_error(e))),
                            Ok((mint2, dest2)) => (
                                MintTokens {
                                    minter_config: Slot {
                                        data: Some(MinterConfig { amount_minted: used, ..mc }),
                                        ..c.minter_config
                                    },
                                    mint: Slot { data: Some(mint2), ..c.mint },
                                    destination: Slot { data: Some(dest2), ..c.destination },
                                    ..c
                                },
                                Ok(()),
                            ),
                        }
                    },
                }
            }
        },
        _ => (c, Err(StablecoinError::NotInitialized)),
    }
}

/// Mints, given the address checks.
pub fn mint_tokens_with(ctx: &mut MintTokens, checks: &MintChecks, amount: u64) -> (r: Result<(), StablecoinError>)
    ensures
        (*final(ctx), r) == mint_tokens_step(*old(ctx), *checks, amount),
{
    let (cfg, mc, mint) = match (ctx.config.data, ctx.minter_config.data, ctx.mint.data) {
        (Some(cfg), Some(mc), Some(mint)) => (cfg, mc, mint),
        _ => return Err(StablecoinError::NotInitialized),
    };
    if !checks.config || !checks.minter_config || !checks.mint || !checks.destination {
        return Err(StablecoinError::AddressMismatch);
    }
    if !mc.is_initialized {
        return Err(StablecoinError::NotMinter);
    }
    let dest = match ctx.destination.data {
        Some(t) => t,
        None => TokenAccount { mint: ctx.mint.key, owner: ctx.destination_owner, amount: 0 },
    };
    if !dest.mint.same(&ctx.mint.key) {
        return Err(StablecoinError::MintMismatch);
    }
    if !dest.owner.same(&ctx.destination_owner) {
        return Err(StablecoinError::Unauthorized);
    }
    if cfg.paused {
        return Err(StablecoinError::Paused);
    }
    let used = match consume_allowance(mc.allowance, mc.amount_minted, amount) {
        Ok(u) => u,
        Err(e) => return Err(e),
    };
    if !mint.authority.same(&ctx.config.key) {
        return Err(StablecoinError::Unauthorized);
    }
    let (mint2, dest2) = match mint_to(&ctx.mint.key, &mint, &dest, amount) {
        Ok(pair) => pair,
        Err(e) => return Err(StablecoinError::from_custody(e)),
    };
    ctx.minter_config.data = Some(MinterConfig { amount_minted: used, ..mc });
    ctx.mint.data = Some(mint2);
    ctx.destination.data = Some(dest2);
    Ok(())
}

/// The address checks of a mint as derived for `program_id`.
pub open spec fn mint_checks_of(c: MintTokens, program_id: Address) -> MintChecks {
    MintChecks {
        config: config_at_address(c.config, program_id),
        minter_config: minter_config_at_address(c.minter_config, c.minter, program_id),
        mint: match c.config.data {
            Some(cfg) => created_at(c.mint.key, mint_seeds_of(), cfg.mint_bump, program_id),
            None => false,
        },
        destination: is_associated_token_address(
            c.destination.key,
            c.destination_owner,
            c.mint.key,
            address_of(token_program_key()),
        ),
    }
}

/// A minter mints `amount` to the destination owner's token account (created
/// on first use), within its remaining allowance and only while not paused.
pub fn mint_tokens(ctx: &mut MintTokens, program_id: &Address, amount: u64) -> (r: Result<(), StablecoinError>)
    ensures
        (*final(ctx), r) == mint_tokens_step(*old(ctx), mint_checks_of(*old(ctx), *program_id), amount),
{
    let mint_ok = match &ctx.config.data {
        Some(cfg) => check_created(&ctx.mint.key, mint_seeds(), cfg.mint_bump, program_id),
        None => false,
    };
    let checks = MintChecks {
        config: check_config(&ctx.config, program_id),
        minter_config: check_minter_config(&ctx.minter_config, &ctx.minter, program_id),
        mint: mint_ok,
        destination: check_associated(
            &ctx.destination.key,
            &ctx.destination_owner,
            &ctx.mint.key,
            &token_program_id(),
        ),
    };
    mint_tokens_with(ctx, &checks, amount)
}

/// Burning `amount` from the owner's token account, given the address checks
/// of the config, the mint and the token account.
pub open spec fn burn_tokens_step(c: BurnTokens, config_ok: bool, mint_ok: bool, account_ok: bool, amount: u64) -> (
    BurnTokens,
    Result<(), StablecoinError>,
) {
    match (c.config.data, c.mint.data, c.token_account.data) {
        (Some(cfg), Some(mint), Some(t)) => if !config_ok || !mint_ok || !account_ok {
            (c, Err(StablecoinError::AddressMismatch))
        } else if t.owner != c.owner {
            (c, Err(StablecoinError::Unauthorized))
        } else {
            match burn_of(c.mint.key, mint, t, amount) {
                Err(e) => (c, Err(stablecoin_custody_error(e))),
                Ok((mint2, t2)) => (
                    BurnTokens {
                        mint: Slot { data: Some(mint2), ..c.mint },
                        token_account: Slot { data: Some(t2), ..c.token_account },
                        ..c
                    },
                    Ok(()),
                ),
            }
        },
        _ => (c, Err(StablecoinError::NotInitialized)),
    }
}

/// Burns, given the address checks.
pub fn burn_tokens_with(ctx: &mut BurnTokens, config_ok: bool, mint_ok: bool, account_ok: bool, amount: u64) -> (r:
    Result<(), StablecoinError>)
    ensures
        (*final(ctx), r) == burn_tokens_step(*old(ctx), config_ok, mint_ok, account_ok, amount),
{
    let (mint, t) = match (&ctx.config.data, ctx.mint.data, ctx.token_account.data) {
        (Some(_), Some(mint), Some(t)) => (mint, t),
        _ => return Err(StablecoinError::NotInitialized),
    };
    if !config_ok || !mint_ok || !account_ok {
        return Err(StablecoinError::AddressMismatch);
    }
    if !t.owner.same(&ctx.owner) {
        return Err(StablecoinError::Unauthorized);
    }
    let (mint2, t2) = match burn(&ctx.mint.key, &mint, &t, amount) {
        Ok(pair) => pair,
        Err(e) => return Err(StablecoinError::from_custody(e)),
    };
    ctx.mint.data = Some(mint2);
    ctx.token_account.data = Some(t2);
    Ok(())
}

/// The mint check of a burn: the mint re-created from the config's mint bump.
pub open spec fn burn_mint_at_address(c: BurnTokens, program_id: Address) -> bool {
    match c.config.data {
        Some(cfg) => created_at(c.mint.key, mint_seeds_of(), cfg.mint_bump, program_id),
        None => false,
    }
}

/// Any holder burns `amount` of its own stablecoins, paused or not.
pub fn burn_tokens(ctx: &mut BurnTokens, program_id: &Address, amount: u64) -> (r: Result<(), StablecoinError>)
    ensures
        (*final(ctx), r) == burn_tokens_step(
            *old(ctx),
            config_at_address(old(ctx).config, *program_id),
            burn_mint_at_address(*old(ctx), *program_id),
            is_associated_token_address(
                old(ctx).token_account.key,
                old(ctx).owner,
                old(ctx).mint.key,
                address_of(token_program_key()),
            ),
            amount,
        ),
{
    let config_ok = check_config(&ctx.config, program_id);
    let mint_ok = match &ctx.config.data {
        Some(cfg) => check_created(&ctx.mint.key, mint_seeds(), cfg.mint_bump, program_id),
        None => false,
    };
    let account_ok = check_associated(&ctx.token_account.key, &ctx.owner, &ctx.mint.key, &token_program_id());
    burn_tokens_with(ctx, config_ok, mint_ok, account_ok, amount)
}

/// Setting the paused flag: the admin only.
pub open spec fn set_paused_of(admin: Address, config: Slot<Config>, config_ok: bool, paused: bool) -> (
    Slot<Config>,
    Result<(), StablecoinError>,
) {
    match config.data {
        None => (config, Err(StablecoinError::NotInitialized)),
        Some(cfg) => if admin != cfg.admin {
            (config, Err(StablecoinError::Unauthorized))
        } else if !config_ok {
            (config, Err(StablecoinError::AddressMismatch))
        } else {
            (Slot { data: Some(Config { paused, ..cfg }), ..config }, Ok(()))
        },
    }
}

fn set_paused(admin: &Address, config: &mut Slot<Config>, config_ok: bool, paused: bool) -> (r: Result<
    (),
    StablecoinError,
>)
    ensures
        (*final(config), r) == set_paused_of(*admin, *old(config), config_ok, paused),
{
    let cfg = match config.data {
        None => return Err(StablecoinError::NotInitialized),
        Some(cfg) => cfg,
    };
    if !admin.same(&cfg.admin) {
        return Err(StablecoinError::Unauthorized);
    }
    if !config_ok {
        return Err(StablecoinError::AddressMismatch);
    }
    config.data = Some(Config { paused, ..cfg });
    Ok(())
}

/// The admin pauses all minting.
pub fn pause(ctx: &mut Pause, program_id: &Address) -> (r: Result<(), StablecoinError>)
    ensures
        final(ctx).admin == old(ctx).admin,
        (final(ctx).config, r) == set_paused_of(
            old(ctx).admin,
            old(ctx).config,
            config_at_address(old(ctx).config, *program_id),
            true,
        ),
{
    let config_ok = check_config(&ctx.config, program_id);
    set_paused(&ctx.admin, &mut ctx.config, config_ok, true)
}

/// The admin lets minting resume.
pub fn unpause(ctx: &mut Unpause, program_id: &Address) -> (r: Result<(), StablecoinError>)
    ensures
        final(ctx).admin == old(ctx).admin,
        (final(ctx).config, r) == set_paused_of(
            old(ctx).admin,
            old(ctx).config,
            config_at_address(old(ctx).config, *program_id),
            false,
        ),
{
    let config_ok = check_config(&ctx.config, program_id);
    set_paused(&ctx.admin, &mut ctx.config, config_ok, false)
}


/// A grant whose minted amount is within its allowance (or no grant at all).
pub open spec fn within_allowance(minter_config: Slot<MinterConfig>) -> bool {
    match minter_config.data {
        Some(mc) => mc.amount_minted <= mc.allowance,
        None => true,
    }
}

/// A mint call as submitted: everything but the grant, the address checks,
/// and the amount.
pub type MintCall = (MintTokens, MintChecks, u64);

/// The grant after `calls` are made in order, each against the grant as the
/// earlier ones left it.
pub open spec fn run_mints(minter_config: Slot<MinterConfig>, calls: Seq<MintCall>) -> Slot<MinterConfig>
    decreases calls.len(),
{
    if calls.len() == 0 {
        minter_config
    } else {
        let mc = run_mints(minter_config, calls.drop_last());
        let (c, checks, amount) = calls.last();
        mint_tokens_step(MintTokens { minter_config: mc, ..c }, checks, amount).0.minter_config
    }
}

/// A successful mint leaves the minted amount within the allowance, and
/// grows it by exactly the amount minted.
pub proof fn lemma_mint_respects_allowance(c: MintTokens, checks: MintChecks, amount: u64)
    requires
        mint_tokens_step(c, checks, amount).1 is Ok,
    ensures
        ({
            let before = c.minter_config.data.unwrap();
            let after = mint_tokens_step(c, checks, amount).0.minter_config.data.unwrap();
            &&& after.amount_minted <= after.allowance
            &&& after.amount_minted == before.amount_minted + amount
            &&& after.allowance == before.allowance
        }),
{
}

/// Over any sequence of mint calls against one grant, the minted amount never
/// exceeds the allowance.
pub proof fn lemma_mints_stay_within_allowance(minter_config: Slot<MinterConfig>, calls: Seq<MintCall>)
    requires
        within_allowance(minter_config),
    ensures
        within_allowance(run_mints(minter_config, calls)),
    decreases calls.len(),
{
    if calls.len() > 0 {
        lemma_mints_stay_within_allowance(minter_config, calls.drop_last());
    }
}

/// While the config is paused every mint is refused and changes nothing; with
/// the accounts in order the refusal is `Paused`. A mint never changes the
/// config, so only an explicit unpause lifts the pause.
pub proof fn lemma_paused_blocks_mint(c: MintTokens, checks: MintChecks, amount: u64)
    requires
        c.config.data matches Some(cfg) && cfg.paused,
    ensures
        mint_tokens_step(c, checks, amount).1 is Err,
        mint_tokens_step(c, checks, amount).0 == c,
        ({
            let dest_ok = match c.destination.data {
                Some(t) => t.mint == c.mint.key && t.owner == c.destination_owner,
                None => true,
            };
            (c.minter_config.data matches Some(mc) && mc.is_initialized && c.mint.data is Some
                && checks.config && checks.minter_config && checks.mint && checks.destination
                && dest_ok) ==> mint_tokens_step(c, checks, amount).1 == Err::<(), StablecoinError>(
                StablecoinError::Paused,
            )
        }),
{
}

/// A burn neither reads nor changes the paused flag: with the flag set either
/// way it has the same outcome.
pub proof fn lemma_burn_ignores_pause(
    c: BurnTokens,
    config_ok: bool,
    mint_ok: bool,
    account_ok: bool,
    amount: u64,
    paused: bool,
)
    requires
        c.config.data is Some,
    ensures
        ({
            let flipped = BurnTokens {
                config: Slot { data: Some(Config { paused, ..c.config.data.unwrap() }), ..c.config },
                ..c
            };
            let (c1, r1) = burn_tokens_step(c, config_ok, mint_ok, account_ok, amount);
            let (c2, r2) = burn_tokens_step(flipped, config_ok, mint_ok, account_ok, amount);
            &&& r1 == r2
            &&& c1.mint == c2.mint
            &&& c1.token_account == c2.token_account
            &&& c1.config == c.config
            &&& c2.config == flipped.config
        }),
{
}

} // verus!
