//! A binary prediction market: stakes flow into a yes pool and a no pool
//! until the deadline; the creator then fixes the outcome once, and each
//! winner claims once. Where nobody staked on the winning side there is
//! nothing to claim: every claim is refused with `NoWinnings` and the pools
//! stay in the market account.
use crate::address::{
    check_created, check_found, created_at, found_bump, market_seeds, market_seeds_of,
    position_seeds, position_seeds_of, Address,
};
use crate::custody::Slot;
use crate::errors::MarketError;
use crate::settlement::{payout_of, pool_payout};
use vstd::arithmetic::div_mod::{lemma_div_is_ordered, lemma_div_multiples_vanish, lemma_fundamental_div_mod};
use vstd::prelude::*;
use vstd::utf8::encode_utf8;

verus! {

/// Longest question, in bytes.
pub const MAX_QUESTION_LEN: usize = 200;

pub struct Market {
    /// The only identity that may resolve the market.
    pub creator: Address,
    pub market_id: u64,
    pub question: String,
    /// Betting closes, and resolution opens, at this time.
    pub resolution_time: i64,
    pub yes_pool: u64,
    pub no_pool: u64,
    pub resolved: bool,
    /// `Some(true)` once YES has won, `Some(false)` once NO has.
    pub outcome: Option<bool>,
    pub bump: u8,
}

/// One participant's stakes in one market.
#[derive(Clone, Copy, Debug, PartialEq, Eq)]
pub struct UserPosition {
    pub market: Address,
    pub user: Address,
    pub yes_amount: u64,
    pub no_amount: u64,
    pub claimed: bool,
    pub bump: u8,
}

impl Market {
    /// The market is resolved exactly when it has an outcome.
    pub open spec fn wf(&self) -> bool {
        self.resolved <==> self.outcome is Some
    }
}

pub struct CreateMarket {
    pub creator: Address,
    pub market: Slot<Market>,
}

pub struct PlaceBet {
    pub user: Address,
    pub user_lamports: u64,
    pub market: Slot<Market>,
    pub user_position: Slot<UserPosition>,
}

pub struct ResolveMarket {
    pub creator: Address,
    pub market: Slot<Market>,
}

pub struct ClaimWinnings {
    pub user: Address,
    pub user_lamports: u64,
    pub market: Slot<Market>,
    pub user_position: Slot<UserPosition>,
}

/// The question's length in bytes.
pub open spec fn question_len(question: String) -> usize {
    encode_utf8(question@).len() as usize
}

/// Opening a market at the account of `c.market`, whose derived bump is
/// `market_bump` (`None` where the account is not at the derived address).
pub open spec fn create_market_step(
    c: CreateMarket,
    market_bump: Option<u8>,
    now: i64,
    market_id: u64,
    question: String,
    resolution_time: i64,
) -> (CreateMarket, Result<(), MarketError>) {
    if market_bump is None {
        (c, Err(MarketError::AddressMismatch))
    } else if c.market.data is Some {
        (c, Err(MarketError::AlreadyInitialized))
    } else if question_len(question) > MAX_QUESTION_LEN {
        (c, Err(MarketError::Overflow))
    } else if resolution_time <= now {
        (c, Err(MarketError::ResolutionTimeInPast))
    } else {
        (
            CreateMarket {
                market: Slot {
                    data: Some(
                        Market {
                            creator: c.creator,
                            market_id,
                            question,
                            resolution_time,
                            yes_pool: 0,
                            no_pool: 0,
                            resolved: false,
                            outcome: None,
                            bump: market_bump.unwrap(),
                        },
                    ),
                    ..c.market
                },
                ..c
            },
            Ok(()),
        )
    }
}

/// Opens a market, given the bump derived for its account.
pub fn create_market_with(
    ctx: &mut CreateMarket,
    market_bump: Option<u8>,
    now: i64,
    market_id: u64,
    question: String,
    resolution_time: i64,
) -> (r: Result<(), MarketError>)
    ensures
        (*final(ctx), r) == create_market_step(
            *old(ctx),
            market_bump,
            now,
            market_id,
            question,
            resolution_time,
        ),
{
    let bump = match market_bump {
        Some(b) => b,
        None => return Err(MarketError::AddressMismatch),
    };
    if ctx.market.data.is_some() {
        return Err(MarketError::AlreadyInitialized);
    }
    if question.as_str().len() > MAX_QUESTION_LEN {
        return Err(MarketError::Overflow);
    }
    if resolution_time <= now {
        return Err(MarketError::ResolutionTimeInPast);
    }
    ctx.market.data = Some(
        Market {
            creator: ctx.creator,
            market_id,
            question,
            resolution_time,
            yes_pool: 0,
            no_pool: 0,
            resolved: false,
            outcome: None,
            bump,
        },
    );
    Ok(())
}

/// Opens a market at the address derived from `["market", creator, market_id]`;
/// `now` is the current time.
pub fn create_market(
    ctx: &mut CreateMarket,
    program_id: &Address,
    now: i64,
    market_id: u64,
    question: String,
    resolution_time: i64,
) -> (r: Result<(), MarketError>)
    ensures
        (*final(ctx), r) == create_market_step(
            *old(ctx),
            found_bump(old(ctx).market.key, market_seeds_of(old(ctx).creator, market_id), *program_id),
            now,
            market_id,
            question,
            resolution_time,
        ),
{
    let bump = check_found(&ctx.market.key, &market_seeds(&ctx.creator, market_id), program_id);
    create_market_with(ctx, bump, now, market_id, question, resolution_time)
}


/// A stake of `amount` on YES (`bet_yes`) or NO, given the bump derived for the
/// participant's position account (`None` where it is not at that address).
pub open spec fn place_bet_step(c: PlaceBet, position_bump: Option<u8>, now: i64, amount: u64, bet_yes: bool) -> (
    PlaceBet,
    Result<(), MarketError>,
) {
    match c.market.data {
        None => (c, Err(MarketError::NotInitialized)),
        Some(m) => {
            let pos = match c.user_position.data {
                Some(p) => p,
                None => UserPosition {
                    market: c.market.key,
                    user: c.user,
                    yes_amount: 0,
                    no_amount: 0,
                    claimed: false,
                    bump: position_bump.unwrap(),
                },
            };
            let pool = if bet_yes { m.yes_pool } else { m.no_pool };
            let staked = if bet_yes { pos.yes_amount } else { pos.no_amount };
            if position_bump is None {
                (c, Err(MarketError::AddressMismatch))
            } else if amount == 0 {
                (c, Err(MarketError::InvalidBetAmount))
            } else if now >= m.resolution_time {
                (c, Err(MarketError::BettingClosed))
            } else if c.user_lamports < amount {
                (c, Err(MarketError::InsufficientFunds))
            } else if c.market.lamports + amount > u64::MAX || pool + amount > u64::MAX || staked
                + amount > u64::MAX {
                (c, Err(MarketError::Overflow))
            } else {
                let m2 = if bet_yes {
                    Market { yes_pool: (pool + amount) as u64, ..m }
                } else {
                    Market { no_pool: (pool + amount) as u64, ..m }
                };
                let p2 = if bet_yes {
                    UserPosition { yes_amount: (staked + amount) as u64, ..pos }
                } else {
                    UserPosition { no_amount: (staked + amount) as u64, ..pos }
                };
                (
                    PlaceBet {
                        user_lamports: (c.user_lamports - amount) as u64,
                        market: Slot {
                            lamports: (c.market.lamports + amount) as u64,
                            data: Some(m2),
                            ..c.market
                        },
                        user_position: Slot { data: Some(p2), ..c.user_position },
                        ..c
                    },
                    Ok(()),
                )
            }
        },
    }
}

/// Places a stake, given the bump derived for the position account.
pub fn place_bet_with(ctx: &mut PlaceBet, position_bump: Option<u8>, now: i64, amount: u64, bet_yes: bool) -> (r:
    Result<(), MarketError>)
    ensures
        (*final(ctx), r) == place_bet_step(*old(ctx), position_bump, now, amount, bet_yes),
{
    let (resolution_time, pool) = match &ctx.market.data {
        None => return Err(MarketError::NotInitialized),
        Some(m) => (m.resolution_time, if bet_yes {
            m.yes_pool
        } else {
            m.no_pool
        }),
    };
    let bump = match position_bump {
        Some(b) => b,
        None => return Err(MarketError::AddressMismatch),
    };
    let pos = match ctx.user_position.data {
        Some(p) => p,
        None => UserPosition {
            market: ctx.market.key,
            user: ctx.user,
            yes_amount: 0,
            no_amount: 0,
            claimed: false,
            bump,
        },
    };
    let staked = if bet_yes {
        pos.yes_amount
    } else {
        pos.no_amount
    };
    if amount == 0 {
        return Err(MarketError::InvalidBetAmount);
    }
    if now >= resolution_time {
        return Err(MarketError::BettingClosed);
    }
    if ctx.user_lamports < amount {
        return Err(MarketError::InsufficientFunds);
    }
    let (market_lamports, new_pool, new_staked) = match (
        ctx.market.lamports.checked_add(amount),
        pool.checked_add(amount),
        staked.checked_add(amount),
    ) {
        (Some(l), Some(p), Some(s)) => (l, p, s),
        _ => return Err(MarketError::Overflow),
    };
    ctx.user_lamports = ctx.user_lamports - amount;
    ctx.market.lamports = market_lamports;
    match &mut ctx.market.data {
        Some(m) => {
            if bet_yes {
                m.yes_pool = new_pool;
            } else {
                m.no_pool = new_pool;
            }
        },
        None => {},
    }
    ctx.user_position.data = Some(
        if bet_yes {
            UserPosition { yes_amount: new_staked, ..pos }
        } else {
            UserPosition { no_amount: new_staked, ..pos }
        },
    );
    Ok(())
}

/// The bump under which the position account of `c` is at
/// `["position", market, user]`.
pub open spec fn place_bet_position_bump(c: PlaceBet, program_id: Address) -> Option<u8> {
    found_bump(c.user_position.key, position_seeds_of(c.market.key, c.user), program_id)
}

/// Stakes `amount` lamports on YES (`bet_yes`) or NO while the market is open;
/// the position account is created on the first stake.
pub fn place_bet(ctx: &mut PlaceBet, program_id: &Address, now: i64, amount: u64, bet_yes: bool) -> (r: Result<
    (),
    MarketError,
>)
    ensures
        (*final(ctx), r) == place_bet_step(
            *old(ctx),
            place_bet_position_bump(*old(ctx), *program_id),
            now,
            amount,
            bet_yes,
        ),
{
    if ctx.market.data.is_none() {
        return Err(MarketError::NotInitialized);
    }
    let bump = check_found(&ctx.user_position.key, &position_seeds(&ctx.market.key, &ctx.user), program_id);
    place_bet_with(ctx, bump, now, amount, bet_yes)
}

/// Fixing the outcome once the deadline has passed.
pub open spec fn resolve_market_step(c: ResolveMarket, now: i64, outcome: bool) -> (ResolveMarket, Result<(), MarketError>) {
    match c.market.data {
        None => (c, Err(MarketError::NotInitialized)),
        Some(m) => if c.creator != m.creator {
            (c, Err(MarketError::Unauthorized))
        } else if now < m.resolution_time {
            (c, Err(MarketError::ResolutionTooEarly))
        } else if m.resolved {
            (c, Err(MarketError::AlreadyResolved))
        } else {
            (
                ResolveMarket {
                    market: Slot {
                        data: Some(Market { resolved: true, outcome: Some(outcome), ..m }),
                        ..c.market
                    },
                    ..c
                },
                Ok(()),
            )
        },
    }
}

/// The creator fixes the winning side, once, at or after the deadline.
pub fn resolve_market(ctx: &mut ResolveMarket, now: i64, outcome: bool) -> (r: Result<(), MarketError>)
    ensures
        (*final(ctx), r) == resolve_market_step(*old(ctx), now, outcome),
{
    let (creator, resolution_time, resolved) = match &ctx.market.data {
        None => return Err(MarketError::NotInitialized),
        Some(m) => (m.creator, m.resolution_time, m.resolved),
    };
    if !ctx.creator.same(&creator) {
        return Err(MarketError::Unauthorized);
    }
    if now < resolution_time {
        return Err(MarketError::ResolutionTooEarly);
    }
    if resolved {
        return Err(MarketError::AlreadyResolved);
    }
    match &mut ctx.market.data {
        Some(m) => {
            m.resolved = true;
            m.outcome = Some(outcome);
        },
        None => {},
    }
    Ok(())
}

/// A claim, given whether the market and position accounts are at the
/// addresses re-created from their stored bumps.
pub open spec fn claim_winnings_step(c: ClaimWinnings, market_at_address: bool, position_at_address: bool) -> (
    ClaimWinnings,
    Result<(), MarketError>,
) {
    match (c.market.data, c.user_position.data) {
        (None, _) => (c, Err(MarketError::NotInitialized)),
        (_, None) => (c, Err(MarketError::NotInitialized)),
        (Some(m), Some(p)) => if !market_at_address || !position_at_address {
            (c, Err(MarketError::AddressMismatch))
        } else if p.user != c.user {
            (c, Err(MarketError::Unauthorized))
        } else if !m.resolved || m.outcome is None {
            (c, Err(MarketError::NotResolved))
        } else if p.claimed {
            (c, Err(MarketError::AlreadyClaimed))
        } else {
            let yes = m.outcome.unwrap();
            let payout = if yes {
                payout_of(p.yes_amount, m.yes_pool, m.no_pool)
            } else {
                payout_of(p.no_amount, m.no_pool, m.yes_pool)
            };
            match payout {
                Err(e) => (c, Err(e)),
                Ok(amount) => if c.market.lamports < amount {
                    (c, Err(MarketError::InsufficientFunds))
                } else if c.user_lamports + amount > u64::MAX {
                    (c, Err(MarketError::Overflow))
                } else {
                    (
                        ClaimWinnings {
                            user_lamports: (c.user_lamports + amount) as u64,
                            market: Slot {
                                lamports: (c.market.lamports - amount) as u64,
                                ..c.market
                            },
                            user_position: Slot {
                                data: Some(UserPosition { claimed: true, ..p }),
                                ..c.user_position
                            },
                            ..c
                        },
                        Ok(()),
                    )
                },
            }
        },
    }
}

/// Pays a winner, given the outcome of the two address checks.
pub fn claim_winnings_with(ctx: &mut ClaimWinnings, market_at_address: bool, position_at_address: bool) -> (r:
    Result<(), MarketError>)
    ensures
        (*final(ctx), r) == claim_winnings_step(*old(ctx), market_at_address, position_at_address),
{
    let (resolved, outcome, yes_pool, no_pool) = match &ctx.market.data {
        None => return Err(MarketError::NotInitialized),
        Some(m) => (m.resolved, m.outcome, m.yes_pool, m.no_pool),
    };
    let p = match ctx.user_position.data {
        None => return Err(MarketError::NotInitialized),
        Some(p) => p,
    };
    if !market_at_address || !position_at_address {
        return Err(MarketError::AddressMismatch);
    }
    if !p.user.same(&ctx.user) {
        return Err(MarketError::Unauthorized);
    }
    if !resolved {
        return Err(MarketError::NotResolved);
    }
    let yes = match outcome {
        Some(o) => o,
        None => return Err(MarketError::NotResolved),
    };
    if p.claimed {
        return Err(MarketError::AlreadyClaimed);
    }
    let payout = if yes {
        pool_payout(p.yes_amount, yes_pool, no_pool)
    } else {
        pool_payout(p.no_amount, no_pool, yes_pool)
    };
    let amount = match payout {
        Ok(a) => a,
        Err(e) => return Err(e),
    };
    if ctx.market.lamports < amount {
        return Err(MarketError::InsufficientFunds);
    }
    let credited = match ctx.user_lamports.checked_add(amount) {
        Some(v) => v,
        None => return Err(MarketError::Overflow),
    };
    ctx.market.lamports = ctx.market.lamports - amount;
    ctx.user_lamports = credited;
    ctx.user_position.data = Some(UserPosition { claimed: true, ..p });
    Ok(())
}

/// Whether the market account of `c` is at the address re-created from its
/// creator, id and stored bump.
pub open spec fn claim_market_at_address(c: ClaimWinnings, program_id: Address) -> bool {
    match c.market.data {
        Some(m) => created_at(c.market.key, market_seeds_of(m.creator, m.market_id), m.bump, program_id),
        None => false,
    }
}

/// Whether the position account of `c` is at the address re-created from the
/// market, the user and its stored bump.
pub open spec fn claim_position_at_address(c: ClaimWinnings, program_id: Address) -> bool {
    match c.user_position.data {
        Some(p) => created_at(c.user_position.key, position_seeds_of(c.market.key, c.user), p.bump, program_id),
        None => false,
    }
}

/// Pays a winner of a resolved market its stake plus its share of the losing
/// pool, once.
pub fn claim_winnings(ctx: &mut ClaimWinnings, program_id: &Address) -> (r: Result<(), MarketError>)
    ensures
        (*final(ctx), r) == claim_winnings_step(
            *old(ctx),
            claim_market_at_address(*old(ctx), *program_id),
            claim_position_at_address(*old(ctx), *program_id),
        ),
{
    let market_ok = match &ctx.market.data {
        Some(m) => check_created(&ctx.market.key, market_seeds(&m.creator, m.market_id), m.bump, program_id),
        None => false,
    };
    let position_ok = match &ctx.user_position.data {
        Some(p) => check_created(&ctx.user_position.key, position_seeds(&ctx.market.key, &ctx.user), p.bump, program_id),
        None => false,
    };
    claim_winnings_with(ctx, market_ok, position_ok)
}


/// Both pools of a market together (zero for a missing market).
pub open spec fn pools(market: Slot<Market>) -> int {
    match market.data {
        Some(m) => m.yes_pool + m.no_pool,
        None => 0,
    }
}

/// A stake as submitted: the participant's side of the context, the derived
/// position bump, the time, the amount and the side.
pub type Stake = (PlaceBet, Option<u8>, i64, u64, bool);

/// The market after `stakes` are placed in order, each against the market as
/// the earlier ones left it, with the total of the accepted amounts.
pub open spec fn run_stakes(market: Slot<Market>, stakes: Seq<Stake>) -> (Slot<Market>, int)
    decreases stakes.len(),
{
    if stakes.len() == 0 {
        (market, 0)
    } else {
        let (m, total) = run_stakes(market, stakes.drop_last());
        let (c, bump, now, amount, yes) = stakes.last();
        let (c2, r) = place_bet_step(PlaceBet { market: m, ..c }, bump, now, amount, yes);
        (c2.market, if r is Ok {
            total + amount
        } else {
            total
        })
    }
}

/// After any sequence of stakes the two pools, and the lamports the market
/// holds, have grown by exactly the sum of the accepted stakes.
pub proof fn lemma_pools_sum_stakes(market: Slot<Market>, stakes: Seq<Stake>)
    ensures
        pools(run_stakes(market, stakes).0) == pools(market) + run_stakes(market, stakes).1,
        run_stakes(market, stakes).0.lamports == market.lamports + run_stakes(market, stakes).1,
    decreases stakes.len(),
{
    if stakes.len() > 0 {
        lemma_pools_sum_stakes(market, stakes.drop_last());
    }
}

/// The sum of a list of stakes.
pub open spec fn stake_sum(stakes: Seq<u64>) -> int
    decreases stakes.len(),
{
    if stakes.len() == 0 {
        0
    } else {
        stake_sum(stakes.drop_last()) + stakes.last()
    }
}

/// What winners with these stakes are paid in all; a refused claim pays nothing.
pub open spec fn payout_sum(stakes: Seq<u64>, winning_pool: u64, losing_pool: u64) -> int
    decreases stakes.len(),
{
    if stakes.len() == 0 {
        0
    } else {
        payout_sum(stakes.drop_last(), winning_pool, losing_pool) + match payout_of(
            stakes.last(),
            winning_pool,
            losing_pool,
        ) {
            Ok(p) => p as int,
            Err(_) => 0,
        }
    }
}

proof fn lemma_floor_split(x: int, y: int, w: int)
    requires
        0 <= x,
        0 <= y,
        0 < w,
    ensures
        x / w + y / w <= (x + y) / w,
{
    lemma_fundamental_div_mod(x, w);
    lemma_fundamental_div_mod(y, w);
    let q = x / w + y / w;
    assert(w * q <= x + y) by (nonlinear_arith)
        requires
            x == w * (x / w) + x % w,
            y == w * (y / w) + y % w,
            x % w >= 0,
            y % w >= 0,
            q == x / w + y / w,
    ;
    lemma_div_is_ordered(w * q, x + y, w);
    lemma_div_multiples_vanish(q, w);
}

proof fn lemma_stake_sum_nonneg(stakes: Seq<u64>)
    ensures
        stake_sum(stakes) >= 0,
    decreases stakes.len(),
{
    if stakes.len() > 0 {
        lemma_stake_sum_nonneg(stakes.drop_last());
    }
}

proof fn lemma_payout_sum_bound(stakes: Seq<u64>, winning_pool: u64, losing_pool: u64)
    requires
        winning_pool > 0,
    ensures
        payout_sum(stakes, winning_pool, losing_pool) <= stake_sum(stakes) + (stake_sum(stakes)
            * losing_pool) / (winning_pool as int),
    decreases stakes.len(),
{
    if stakes.len() > 0 {
        let rest = stakes.drop_last();
        let x = stakes.last();
        let w = winning_pool as int;
        let l = losing_pool as int;
        let s = stake_sum(rest);
        lemma_payout_sum_bound(rest, winning_pool, losing_pool);
        lemma_stake_sum_nonneg(rest);
        assert(s * l >= 0 && x * l >= 0) by (nonlinear_arith)
            requires
                s >= 0,
                x >= 0,
                l >= 0,
        ;
        lemma_floor_split(s * l, x * l, w);
        assert(s * l + x * l == (s + x) * l) by (nonlinear_arith);
        lemma_div_is_ordered(0, x * l, w);
    }
}

/// Winners whose stakes together are at most the winning pool are paid, in
/// all, at most the two pools together.
pub proof fn lemma_payouts_within_pools(stakes: Seq<u64>, winning_pool: u64, losing_pool: u64)
    requires
        stake_sum(stakes) <= winning_pool,
    ensures
        payout_sum(stakes, winning_pool, losing_pool) <= winning_pool + losing_pool,
{
    lemma_stake_sum_nonneg(stakes);
    if winning_pool == 0 {
        lemma_no_pool_no_payout(stakes, losing_pool);
    } else {
        let w = winning_pool as int;
        let l = losing_pool as int;
        let s = stake_sum(stakes);
        lemma_payout_sum_bound(stakes, winning_pool, losing_pool);
        assert(s * l <= w * l) by (nonlinear_arith)
            requires
                0 <= s <= w,
                l >= 0,
        ;
        lemma_div_is_ordered(s * l, w * l, w);
        assert(w * l == l * w) by (nonlinear_arith);
        lemma_div_multiples_vanish(l, w);
    }
}

proof fn lemma_no_pool_no_payout(stakes: Seq<u64>, losing_pool: u64)
    ensures
        payout_sum(stakes, 0, losing_pool) == 0,
    decreases stakes.len(),
{
    if stakes.len() > 0 {
        lemma_no_pool_no_payout(stakes.drop_last(), losing_pool);
    }
}

/// A second claim on the same position is refused with `AlreadyClaimed` and
/// changes nothing, whatever the first one paid.
pub proof fn lemma_claim_once(c: ClaimWinnings, program_id: Address)
    requires
        claim_winnings_step(
            c,
            claim_market_at_address(c, program_id),
            claim_position_at_address(c, program_id),
        ).1 is Ok,
    ensures
        ({
            let c1 = claim_winnings_step(
                c,
                claim_market_at_address(c, program_id),
                claim_position_at_address(c, program_id),
            ).0;
            claim_winnings_step(
                c1,
                claim_market_at_address(c1, program_id),
                claim_position_at_address(c1, program_id),
            ) == (c1, Err::<(), MarketError>(MarketError::AlreadyClaimed))
        }),
{
}


/// A market slot whose market, if any, is well-formed.
pub open spec fn market_wf(market: Slot<Market>) -> bool {
    match market.data {
        Some(m) => m.wf(),
        None => true,
    }
}

/// A new market starts unresolved and without an outcome.
pub proof fn lemma_create_market_wf(
    c: CreateMarket,
    market_bump: Option<u8>,
    now: i64,
    market_id: u64,
    question: String,
    resolution_time: i64,
)
    requires
        market_wf(c.market),
    ensures
        market_wf(create_market_step(c, market_bump, now, market_id, question, resolution_time).0.market),
{
}

/// Staking leaves the resolution state as it was.
pub proof fn lemma_place_bet_keeps_wf(c: PlaceBet, position_bump: Option<u8>, now: i64, amount: u64, bet_yes: bool)
    requires
        market_wf(c.market),
    ensures
        market_wf(place_bet_step(c, position_bump, now, amount, bet_yes).0.market),
{
}

/// Resolution sets the outcome together with the resolved flag, and a
/// resolved market is never resolved again.
pub proof fn lemma_resolve_keeps_wf(c: ResolveMarket, now: i64, outcome: bool)
    requires
        market_wf(c.market),
    ensures
        market_wf(resolve_market_step(c, now, outcome).0.market),
        c.market.data matches Some(m) && m.resolved ==> resolve_market_step(c, now, outcome).0 == c,
{
}

/// Claiming leaves the resolution state as it was.
pub proof fn lemma_claim_keeps_wf(c: ClaimWinnings, market_ok: bool, position_ok: bool)
    requires
        market_wf(c.market),
    ensures
        market_wf(claim_winnings_step(c, market_ok, position_ok).0.market),
{
}

} // verus!
