use anchor_lang::prelude::Pubkey;
use custody_engine::address::{
    associated_token_address, config_seeds, derive_address, mint_seeds, minter_seeds, token_program_id, Address,
};
use custody_engine::custody::{MintAccount, Slot, TokenAccount};
use custody_engine::errors::StablecoinError;
use custody_engine::stablecoin::{
    burn_tokens, configure_minter, initialize, mint_tokens, pause, remove_minter, unpause, BurnTokens, Config,
    ConfigureMinter, Initialize, MintTokens, MinterConfig, Pause, RemoveMinter, Unpause,
};
use std::str::FromStr;

fn program() -> Address {
    Address::new(Pubkey::from_str("5inXknRB7Vz9yXYme7mycL2z3GYQ5frRgozMciUmn7Bd").unwrap().to_bytes())
}

fn key(n: u8) -> Address {
    Address::new([n; 32])
}

fn get_config_pda() -> Address {
    derive_address(&config_seeds(), &program()).unwrap().0
}

fn get_mint_pda() -> Address {
    derive_address(&mint_seeds(), &program()).unwrap().0
}

fn get_minter_config_pda(minter: &Address) -> Address {
    derive_address(&minter_seeds(minter), &program()).unwrap().0
}

fn get_ata(wallet: &Address, mint: &Address) -> Address {
    associated_token_address(wallet, mint, &token_program_id()).unwrap()
}

fn empty<T>(key: Address) -> Slot<T> {
    Slot { key, lamports: 0, data: None }
}

fn take_slot<T>(s: &mut Slot<T>) -> Slot<T> {
    std::mem::replace(s, Slot { key: s.key, lamports: 0, data: None })
}

/// The program's accounts as the tests see them.
struct Coin {
    config: Slot<Config>,
    mint: Slot<MintAccount>,
    grants: Vec<(Address, Slot<MinterConfig>)>,
    holdings: Vec<(Address, Slot<TokenAccount>)>,
    admin_lamports: u64,
}

impl Coin {
    fn fresh() -> Coin {
        Coin {
            config: Slot { key: get_config_pda(), lamports: 1_000_000, data: None },
            mint: Slot { key: get_mint_pda(), lamports: 1_500_000, data: None },
            grants: Vec::new(),
            holdings: Vec::new(),
            admin_lamports: 10_000_000_000,
        }
    }

    fn initialize(&mut self, admin: Address) -> Result<(), StablecoinError> {
        let mut ctx = Initialize { admin, config: take_slot(&mut self.config), mint: take_slot(&mut self.mint) };
        let r = initialize(&mut ctx, &program());
        self.config = ctx.config;
        self.mint = ctx.mint;
        r
    }

    fn grant(&mut self, minter: &Address) -> &mut Slot<MinterConfig> {
        if !self.grants.iter().any(|(m, _)| m == minter) {
            let slot = Slot { key: get_minter_config_pda(minter), lamports: 1_200_000, data: None };
            self.grants.push((*minter, slot));
        }
        &mut self.grants.iter_mut().find(|(m, _)| m == minter).unwrap().1
    }

    fn holding(&mut self, owner: &Address) -> &mut Slot<TokenAccount> {
        if !self.holdings.iter().any(|(o, _)| o == owner) {
            let slot = empty(get_ata(owner, &get_mint_pda()));
            self.holdings.push((*owner, slot));
        }
        &mut self.holdings.iter_mut().find(|(o, _)| o == owner).unwrap().1
    }

    fn balance(&mut self, owner: &Address) -> Option<u64> {
        self.holding(owner).data.map(|t| t.amount)
    }

    fn configure_minter(&mut self, admin: Address, minter: Address, allowance: u64) -> Result<(), StablecoinError> {
        let config = take_slot(&mut self.config);
        let minter_config = take_slot(self.grant(&minter));
        let mut ctx = ConfigureMinter { admin, config, minter, minter_config };
        let r = configure_minter(&mut ctx, &program(), allowance);
        self.config = ctx.config;
        *self.grant(&minter) = ctx.minter_config;
        r
    }

    fn remove_minter(&mut self, admin: Address, minter: Address) -> Result<(), StablecoinError> {
        let config = take_slot(&mut self.config);
        let minter_config = take_slot(self.grant(&minter));
        let mut ctx = RemoveMinter { admin, admin_lamports: self.admin_lamports, config, minter, minter_config };
        let r = remove_minter(&mut ctx, &program());
        self.config = ctx.config;
        self.admin_lamports = ctx.admin_lamports;
        *self.grant(&minter) = ctx.minter_config;
        r
    }

    fn mint_tokens(&mut self, minter: Address, destination_owner: Address, amount: u64) -> Result<(), StablecoinError> {
        let config = take_slot(&mut self.config);
        let mint = take_slot(&mut self.mint);
        let minter_config = take_slot(self.grant(&minter));
        let destination = take_slot(self.holding(&destination_owner));
        let mut ctx = MintTokens { minter, config, minter_config, mint, destination, destination_owner };
        let r = mint_tokens(&mut ctx, &program(), amount);
        self.config = ctx.config;
        self.mint = ctx.mint;
        *self.grant(&minter) = ctx.minter_config;
        *self.holding(&destination_owner) = ctx.destination;
        r
    }

    fn burn_tokens(&mut self, owner: Address, amount: u64) -> Result<(), StablecoinError> {
        let config = take_slot(&mut self.config);
        let mint = take_slot(&mut self.mint);
        let token_account = take_slot(self.holding(&owner));
        let mut ctx = BurnTokens { owner, config, mint, token_account };
        let r = burn_tokens(&mut ctx, &program(), amount);
        self.config = ctx.config;
        self.mint = ctx.mint;
        *self.holding(&owner) = ctx.token_account;
        r
    }

    fn pause(&mut self, admin: Address) -> Result<(), StablecoinError> {
        let mut ctx = Pause { admin, config: take_slot(&mut self.config) };
        let r = pause(&mut ctx, &program());
        self.config = ctx.config;
        r
    }

    fn unpause(&mut self, admin: Address) -> Result<(), StablecoinError> {
        let mut ctx = Unpause { admin, config: take_slot(&mut self.config) };
        let r = unpause(&mut ctx, &program());
        self.config = ctx.config;
        r
    }

    fn supply(&self) -> u64 {
        self.mint.data.unwrap().supply
    }
}

fn initialized(admin: Address) -> Coin {
    let mut coin = Coin::fresh();
    coin.initialize(admin).expect("Initialize should succeed");
    coin
}

#[test]
fn test_initialize() {
    let admin = key(1);
    let coin = initialized(admin);
    assert!(coin.config.data.is_some(), "Config account should exist");
    assert!(coin.mint.data.is_some(), "Mint account should exist");
    let config = coin.config.data.unwrap();
    assert_eq!(config.admin, admin);
    assert_eq!(config.mint, get_mint_pda());
    assert!(!config.paused);
    let mint = coin.mint.data.unwrap();
    assert_eq!(mint.authority, get_config_pda());
    assert_eq!(mint.decimals, 6);
    assert_eq!(mint.supply, 0);
}

#[test]
fn test_initialize_twice_fails() {
    let admin = key(1);
    let mut coin = initialized(admin);
    let r = coin.initialize(admin);
    assert!(r.is_err(), "Second initialize should fail");
    assert_eq!(r, Err(StablecoinError::AlreadyInitialized));
}

#[test]
fn initialize_at_wrong_address_fails() {
    let mut coin = Coin::fresh();
    coin.config.key = key(9);
    assert_eq!(coin.initialize(key(1)), Err(StablecoinError::AddressMismatch));
    assert!(coin.config.data.is_none());
}

#[test]
fn test_configure_minter() {
    let admin = key(1);
    let minter = key(2);
    let mut coin = initialized(admin);
    assert_eq!(coin.configure_minter(admin, minter, 1_000_000_000), Ok(()));
    let grant = coin.grant(&minter).data.expect("Minter config account should exist");
    assert_eq!(grant.minter, minter);
    assert_eq!(grant.allowance, 1_000_000_000);
    assert_eq!(grant.amount_minted, 0);
    assert!(grant.is_initialized);
}

#[test]
fn test_configure_minter_unauthorized() {
    let admin = key(1);
    let unauthorized = key(3);
    let mut coin = initialized(admin);
    let r = coin.configure_minter(unauthorized, key(2), 1_000_000_000);
    assert!(r.is_err(), "Unauthorized configure_minter should fail");
    assert_eq!(r, Err(StablecoinError::Unauthorized));
    assert!(coin.grant(&key(2)).data.is_none());
}

#[test]
fn test_update_minter_allowance() {
    let admin = key(1);
    let minter = key(2);
    let mut coin = initialized(admin);
    coin.configure_minter(admin, minter, 1_000_000_000).expect("First configure should succeed");
    coin.mint_tokens(minter, key(5), 100_000_000).unwrap();
    assert_eq!(coin.configure_minter(admin, minter, 2_000_000_000), Ok(()));
    let grant = coin.grant(&minter).data.unwrap();
    assert_eq!(grant.allowance, 2_000_000_000);
    assert_eq!(grant.amount_minted, 100_000_000);
}

#[test]
fn test_remove_minter() {
    let admin = key(1);
    let minter = key(2);
    let mut coin = initialized(admin);
    coin.configure_minter(admin, minter, 1_000_000_000).unwrap();
    assert!(coin.grant(&minter).data.is_some(), "Minter config should exist");
    assert_eq!(coin.remove_minter(admin, minter), Ok(()));
    assert!(coin.grant(&minter).data.is_none());
    assert_eq!(coin.grant(&minter).lamports, 0);
    assert_eq!(coin.admin_lamports, 10_000_000_000 + 1_200_000);
    assert_eq!(coin.mint_tokens(minter, key(5), 1), Err(StablecoinError::NotInitialized));
}

#[test]
fn remove_minter_by_another_fails() {
    let admin = key(1);
    let mut coin = initialized(admin);
    coin.configure_minter(admin, key(2), 10).unwrap();
    assert_eq!(coin.remove_minter(key(3), key(2)), Err(StablecoinError::Unauthorized));
    assert!(coin.grant(&key(2)).data.is_some());
}

#[test]
fn test_mint_tokens() {
    let admin = key(1);
    let minter = key(2);
    let recipient = key(4);
    let mut coin = initialized(admin);
    coin.configure_minter(admin, minter, 1_000_000_000).unwrap();
    assert_eq!(coin.mint_tokens(minter, recipient, 100_000_000), Ok(()));
    assert!(coin.holding(&recipient).data.is_some(), "Destination token account should exist");
    assert_eq!(coin.balance(&recipient), Some(100_000_000));
    assert_eq!(coin.supply(), 100_000_000);
    assert_eq!(coin.grant(&minter).data.unwrap().amount_minted, 100_000_000);
}

#[test]
fn test_mint_exceeds_allowance() {
    let admin = key(1);
    let minter = key(2);
    let mut coin = initialized(admin);
    coin.configure_minter(admin, minter, 100_000_000).unwrap();
    let r = coin.mint_tokens(minter, key(4), 200_000_000);
    assert!(r.is_err(), "Mint exceeding allowance should fail");
    assert_eq!(r, Err(StablecoinError::ExceedsAllowance));
    assert_eq!(coin.supply(), 0);
    assert!(coin.holding(&key(4)).data.is_none());
}

#[test]
fn mint_up_to_allowance_then_stop() {
    let admin = key(1);
    let minter = key(2);
    let mut coin = initialized(admin);
    coin.configure_minter(admin, minter, 100).unwrap();
    assert_eq!(coin.mint_tokens(minter, key(4), 60), Ok(()));
    assert_eq!(coin.mint_tokens(minter, key(4), 41), Err(StablecoinError::ExceedsAllowance));
    assert_eq!(coin.mint_tokens(minter, key(4), 40), Ok(()));
    assert_eq!(coin.mint_tokens(minter, key(4), 1), Err(StablecoinError::ExceedsAllowance));
    let grant = coin.grant(&minter).data.unwrap();
    assert_eq!(grant.amount_minted, grant.allowance);
}

#[test]
fn test_mint_unauthorized() {
    let admin = key(1);
    let unauthorized = key(3);
    let mut coin = initialized(admin);
    let r = coin.mint_tokens(unauthorized, key(4), 100_000_000);
    assert!(r.is_err(), "Unauthorized mint should fail");
    assert_eq!(r, Err(StablecoinError::NotInitialized));
}

#[test]
fn test_burn_tokens() {
    let admin = key(1);
    let minter = key(2);
    let user = key(4);
    let mut coin = initialized(admin);
    coin.configure_minter(admin, minter, 1_000_000_000).unwrap();
    coin.mint_tokens(minter, user, 100_000_000).expect("Mint should succeed");
    assert_eq!(coin.burn_tokens(user, 50_000_000), Ok(()));
    assert_eq!(coin.balance(&user), Some(50_000_000));
    assert_eq!(coin.supply(), 50_000_000);
}

#[test]
fn test_burn_more_than_balance() {
    let admin = key(1);
    let minter = key(2);
    let user = key(4);
    let mut coin = initialized(admin);
    coin.configure_minter(admin, minter, 1_000_000_000).unwrap();
    coin.mint_tokens(minter, user, 100_000_000).unwrap();
    let r = coin.burn_tokens(user, 200_000_000);
    assert!(r.is_err(), "Burn more than balance should fail");
    assert_eq!(r, Err(StablecoinError::InsufficientFunds));
    assert_eq!(coin.balance(&user), Some(100_000_000));
}

#[test]
fn test_pause() {
    let admin = key(1);
    let mut coin = initialized(admin);
    assert_eq!(coin.pause(admin), Ok(()));
    assert!(coin.config.data.unwrap().paused);
}

#[test]
fn test_pause_unauthorized() {
    let admin = key(1);
    let mut coin = initialized(admin);
    let r = coin.pause(key(3));
    assert!(r.is_err(), "Unauthorized pause should fail");
    assert_eq!(r, Err(StablecoinError::Unauthorized));
    assert!(!coin.config.data.unwrap().paused);
}

#[test]
fn test_mint_when_paused() {
    let admin = key(1);
    let minter = key(2);
    let mut coin = initialized(admin);
    coin.configure_minter(admin, minter, 1_000_000_000).unwrap();
    coin.pause(admin).expect("Pause should succeed");
    let r = coin.mint_tokens(minter, key(4), 100_000_000);
    assert!(r.is_err(), "Mint when paused should fail");
    assert_eq!(r, Err(StablecoinError::Paused));
    assert_eq!(coin.supply(), 0);
}

#[test]
fn burn_while_paused_succeeds() {
    let admin = key(1);
    let minter = key(2);
    let user = key(4);
    let mut coin = initialized(admin);
    coin.configure_minter(admin, minter, 1_000).unwrap();
    coin.mint_tokens(minter, user, 100).unwrap();
    coin.pause(admin).unwrap();
    assert_eq!(coin.burn_tokens(user, 30), Ok(()));
    assert_eq!(coin.balance(&user), Some(70));
    assert!(coin.config.data.unwrap().paused);
}

#[test]
fn test_unpause() {
    let admin = key(1);
    let mut coin = initialized(admin);
    coin.pause(admin).unwrap();
    assert_eq!(coin.unpause(admin), Ok(()));
    assert!(!coin.config.data.unwrap().paused);
}

#[test]
fn test_mint_after_unpause() {
    let admin = key(1);
    let minter = key(2);
    let recipient = key(4);
    let mut coin = initialized(admin);
    coin.configure_minter(admin, minter, 1_000_000_000).unwrap();
    coin.pause(admin).unwrap();
    coin.unpause(admin).expect("Unpause should succeed");
    assert_eq!(coin.mint_tokens(minter, recipient, 100_000_000), Ok(()));
    assert_eq!(coin.balance(&recipient), Some(100_000_000));
}

#[test]
fn test_full_stablecoin_flow() {
    let admin = key(1);
    let minter = key(2);
    let user1 = key(4);
    let user2 = key(5);
    let mut coin = initialized(admin);
    coin.configure_minter(admin, minter, 1_000_000_000).unwrap();
    coin.mint_tokens(minter, user1, 100_000_000).unwrap();
    coin.mint_tokens(minter, user2, 200_000_000).unwrap();
    assert_eq!(coin.burn_tokens(user1, 50_000_000), Ok(()));
    assert_eq!(coin.balance(&user1), Some(50_000_000));
    assert_eq!(coin.balance(&user2), Some(200_000_000));
    coin.pause(admin).unwrap();
    assert_eq!(coin.unpause(admin), Ok(()));
    assert_eq!(coin.remove_minter(admin, minter), Ok(()));
    assert!(coin.grant(&minter).data.is_none());
    assert_eq!(coin.supply(), 250_000_000);
}

#[test]
fn test_multiple_minters() {
    let admin = key(1);
    let minter1 = key(2);
    let minter2 = key(3);
    let user = key(4);
    let mut coin = initialized(admin);
    coin.configure_minter(admin, minter1, 500_000_000).unwrap();
    coin.configure_minter(admin, minter2, 1_000_000_000).unwrap();
    coin.mint_tokens(minter1, user, 100_000_000).unwrap();
    coin.mint_tokens(minter2, user, 200_000_000).unwrap();
    assert!(coin.holding(&user).data.is_some(), "User should have token account");
    assert_eq!(coin.balance(&user), Some(300_000_000));
    assert_eq!(coin.grant(&minter1).data.unwrap().amount_minted, 100_000_000);
    assert_eq!(coin.grant(&minter2).data.unwrap().amount_minted, 200_000_000);
}

#[test]
fn uninitialized_grant_is_not_a_minter() {
    let admin = key(1);
    let minter = key(2);
    let mut coin = initialized(admin);
    let pda = get_minter_config_pda(&minter);
    let (_, bump) = derive_address(&minter_seeds(&minter), &program()).unwrap();
    *coin.grant(&minter) = Slot {
        key: pda,
        lamports: 0,
        data: Some(MinterConfig { minter, allowance: 100, amount_minted: 0, is_initialized: false, bump }),
    };
    assert_eq!(coin.mint_tokens(minter, key(4), 1), Err(StablecoinError::NotMinter));
    assert_eq!(coin.configure_minter(admin, minter, 50), Ok(()));
    let grant = coin.grant(&minter).data.unwrap();
    assert!(grant.is_initialized);
    assert_eq!(grant.allowance, 50);
    assert_eq!(coin.mint_tokens(minter, key(4), 1), Ok(()));
}

#[test]
fn mint_overflowing_supply_fails() {
    let admin = key(1);
    let minter = key(2);
    let mut coin = initialized(admin);
    coin.configure_minter(admin, minter, u64::MAX).unwrap();
    coin.mint_tokens(minter, key(4), u64::MAX).unwrap();
    assert_eq!(coin.mint_tokens(minter, key(5), 0), Ok(()));
    coin.configure_minter(admin, minter, u64::MAX).unwrap();
    let r = coin.mint_tokens(minter, key(5), 1);
    assert_eq!(r, Err(StablecoinError::ExceedsAllowance));
    let other = key(3);
    coin.configure_minter(admin, other, 10).unwrap();
    assert_eq!(coin.mint_tokens(other, key(5), 1), Err(StablecoinError::Overflow));
    assert_eq!(coin.supply(), u64::MAX);
}

#[test]
fn mint_to_account_of_another_kind_fails() {
    let admin = key(1);
    let minter = key(2);
    let owner = key(4);
    let mut coin = initialized(admin);
    coin.configure_minter(admin, minter, 10).unwrap();
    let ata = get_ata(&owner, &get_mint_pda());
    *coin.holding(&owner) = Slot { key: ata, lamports: 0, data: Some(TokenAccount { mint: key(9), owner, amount: 0 }) };
    assert_eq!(coin.mint_tokens(minter, owner, 1), Err(StablecoinError::MintMismatch));
}
