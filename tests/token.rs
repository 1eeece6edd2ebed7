use colibri_token::token::{DECIMALS, INITIAL_SUPPLY};
use colibri_token::{ColibriToken, Ledger, TokenError};

const RECIPIENT: u64 = 10;
const OWNER: u64 = 20;
const OTHER: u64 = 30;

fn deploy() -> ColibriToken {
    ColibriToken::new(vec![1, 2, 3], RECIPIENT, OWNER)
}

#[test]
fn initial_state() {
    let t = deploy();
    assert_eq!(t.name(), String::from("ColibriToken"));
}

#[test]
fn constructor_sets_metadata_owner_and_supply() {
    let t = deploy();
    assert_eq!(t.balance(RECIPIENT), 100000 * 10i128.pow(18));
    assert_eq!(t.owner(), OWNER);
    assert!(!t.paused());
    assert_eq!(t.symbol(), String::from("CLBT"));
    assert_eq!(t.decimals(), 18);
    assert_eq!(DECIMALS, 18);
    assert_eq!(t.code(), &vec![1u8, 2, 3]);
}

#[test]
fn constructor_credits_only_the_recipient() {
    let t = deploy();
    assert_eq!(t.balance(RECIPIENT), INITIAL_SUPPLY);
    assert_eq!(t.balance(OWNER), 0);
    assert_eq!(t.balance(OTHER), 0);
    assert_eq!(t.total_supply(), INITIAL_SUPPLY);
    assert_eq!(t.allowance(RECIPIENT, OTHER), 0);
}

#[test]
fn mint_by_non_owner_is_unauthorized() {
    let mut t = deploy();
    assert_eq!(t.mint(OTHER, OTHER, 5), Err(TokenError::Unauthorized));
    assert_eq!(t.balance(OTHER), 0);
    assert_eq!(t.total_supply(), INITIAL_SUPPLY);
}

#[test]
fn pause_then_mint_is_refused() {
    let mut t = deploy();
    assert_eq!(t.pause(OWNER), Ok(()));
    assert!(t.paused());
    assert_eq!(t.mint(OWNER, RECIPIENT, 5), Err(TokenError::ContractPaused));
    assert_eq!(t.balance(RECIPIENT), INITIAL_SUPPLY);
}

#[test]
fn unpause_then_mint_credits() {
    let mut t = deploy();
    assert_eq!(t.pause(OWNER), Ok(()));
    assert_eq!(t.unpause(OWNER), Ok(()));
    assert!(!t.paused());
    assert_eq!(t.mint(OWNER, RECIPIENT, 5), Ok(()));
    assert_eq!(t.balance(RECIPIENT), INITIAL_SUPPLY + 5);
    assert_eq!(t.total_supply(), INITIAL_SUPPLY + 5);
}

#[test]
fn paused_blocks_transfer_and_burn() {
    let mut t = deploy();
    assert_eq!(t.pause(OWNER), Ok(()));
    assert_eq!(t.transfer(RECIPIENT, RECIPIENT, OTHER, 7), Err(TokenError::ContractPaused));
    assert_eq!(t.burn(RECIPIENT, RECIPIENT, 7), Err(TokenError::ContractPaused));
    assert_eq!(t.transfer_from(OTHER, OTHER, RECIPIENT, OTHER, 7), Err(TokenError::ContractPaused));
    assert_eq!(t.burn_from(OTHER, OTHER, RECIPIENT, 7), Err(TokenError::ContractPaused));
    assert_eq!(t.balance(RECIPIENT), INITIAL_SUPPLY);
    assert_eq!(t.unpause(OWNER), Ok(()));
    assert_eq!(t.pause(OWNER), Ok(()));
    assert!(t.paused());
}

#[test]
fn pause_twice_is_no_error() {
    let mut t = deploy();
    assert_eq!(t.pause(OWNER), Ok(()));
    assert!(t.paused());
    assert_eq!(t.pause(OWNER), Ok(()));
    assert!(t.paused());
}

#[test]
fn pause_by_non_owner_is_unauthorized() {
    let mut t = deploy();
    assert_eq!(t.pause(OTHER), Err(TokenError::Unauthorized));
    assert!(!t.paused());
    assert_eq!(t.pause(OWNER), Ok(()));
    assert_eq!(t.unpause(OTHER), Err(TokenError::Unauthorized));
    assert!(t.paused());
}

#[test]
fn transfer_over_balance_is_refused() {
    let mut t = deploy();
    assert_eq!(t.transfer(RECIPIENT, RECIPIENT, OTHER, 1000), Ok(()));
    assert_eq!(t.transfer(OTHER, OTHER, RECIPIENT, 1001), Err(TokenError::InsufficientBalance));
    assert_eq!(t.balance(OTHER), 1000);
    assert_eq!(t.balance(RECIPIENT), INITIAL_SUPPLY - 1000);
}

#[test]
fn transfer_round_trip_restores_balances() {
    let mut t = deploy();
    assert_eq!(t.transfer(RECIPIENT, RECIPIENT, OTHER, 12345), Ok(()));
    assert_eq!(t.balance(OTHER), 12345);
    assert_eq!(t.transfer(OTHER, OTHER, RECIPIENT, 12345), Ok(()));
    assert_eq!(t.balance(RECIPIENT), INITIAL_SUPPLY);
    assert_eq!(t.balance(OTHER), 0);
    assert_eq!(t.total_supply(), INITIAL_SUPPLY);
}

#[test]
fn transfer_needs_source_authorization() {
    let mut t = deploy();
    assert_eq!(t.transfer(OTHER, RECIPIENT, OTHER, 1), Err(TokenError::Unauthorized));
    assert_eq!(t.balance(RECIPIENT), INITIAL_SUPPLY);
}

#[test]
fn transfer_of_zero_and_to_self_change_nothing() {
    let mut t = deploy();
    assert_eq!(t.transfer(RECIPIENT, RECIPIENT, OTHER, 0), Ok(()));
    assert_eq!(t.transfer(RECIPIENT, RECIPIENT, RECIPIENT, 50), Ok(()));
    assert_eq!(t.balance(RECIPIENT), INITIAL_SUPPLY);
    assert_eq!(t.balance(OTHER), 0);
}

#[test]
fn negative_amounts_are_invalid() {
    let mut t = deploy();
    assert_eq!(t.transfer(RECIPIENT, RECIPIENT, OTHER, -1), Err(TokenError::InvalidAmount));
    assert_eq!(t.burn(RECIPIENT, RECIPIENT, -1), Err(TokenError::InvalidAmount));
    assert_eq!(t.approve(RECIPIENT, RECIPIENT, OTHER, -1), Err(TokenError::InvalidAmount));
    assert_eq!(t.mint(OWNER, RECIPIENT, 0), Err(TokenError::InvalidAmount));
    assert_eq!(t.mint(OWNER, RECIPIENT, -3), Err(TokenError::InvalidAmount));
}

#[test]
fn mint_past_the_largest_supply_overflows() {
    let mut t = deploy();
    assert_eq!(t.mint(OWNER, OTHER, i128::MAX), Err(TokenError::Overflow));
    assert_eq!(t.mint(OWNER, OTHER, i128::MAX - INITIAL_SUPPLY), Ok(()));
    assert_eq!(t.total_supply(), i128::MAX);
    assert_eq!(t.mint(OWNER, OTHER, 1), Err(TokenError::Overflow));
}

#[test]
fn burn_reduces_balance_and_supply() {
    let mut t = deploy();
    assert_eq!(t.burn(RECIPIENT, RECIPIENT, 400), Ok(()));
    assert_eq!(t.balance(RECIPIENT), INITIAL_SUPPLY - 400);
    assert_eq!(t.total_supply(), INITIAL_SUPPLY - 400);
    assert_eq!(t.burn(OTHER, OTHER, 1), Err(TokenError::InsufficientBalance));
    assert_eq!(t.burn(OTHER, RECIPIENT, 1), Err(TokenError::Unauthorized));
}

#[test]
fn transfer_from_spends_the_allowance() {
    let mut t = deploy();
    assert_eq!(t.approve(RECIPIENT, RECIPIENT, OTHER, 100), Ok(()));
    assert_eq!(t.allowance(RECIPIENT, OTHER), 100);
    assert_eq!(t.transfer_from(OTHER, OTHER, RECIPIENT, OWNER, 60), Ok(()));
    assert_eq!(t.allowance(RECIPIENT, OTHER), 40);
    assert_eq!(t.balance(OWNER), 60);
    assert_eq!(t.balance(RECIPIENT), INITIAL_SUPPLY - 60);
    assert_eq!(
        t.transfer_from(OTHER, OTHER, RECIPIENT, OWNER, 41),
        Err(TokenError::InsufficientAllowance)
    );
    assert_eq!(t.transfer_from(RECIPIENT, OTHER, RECIPIENT, OWNER, 1), Err(TokenError::Unauthorized));
    assert_eq!(t.allowance(RECIPIENT, OTHER), 40);
}

#[test]
fn transfer_from_over_balance_keeps_the_allowance() {
    let mut t = deploy();
    assert_eq!(t.approve(OWNER, OWNER, OTHER, 100), Ok(()));
    assert_eq!(t.transfer_from(OTHER, OTHER, OWNER, RECIPIENT, 10), Err(TokenError::InsufficientBalance));
    assert_eq!(t.allowance(OWNER, OTHER), 100);
}

#[test]
fn burn_from_spends_the_allowance() {
    let mut t = deploy();
    assert_eq!(t.approve(RECIPIENT, RECIPIENT, OTHER, 30), Ok(()));
    assert_eq!(t.burn_from(OTHER, OTHER, RECIPIENT, 30), Ok(()));
    assert_eq!(t.allowance(RECIPIENT, OTHER), 0);
    assert_eq!(t.total_supply(), INITIAL_SUPPLY - 30);
    assert_eq!(t.burn_from(OTHER, OTHER, RECIPIENT, 1), Err(TokenError::InsufficientAllowance));
}

#[test]
fn approve_needs_owner_authorization() {
    let mut t = deploy();
    assert_eq!(t.approve(OTHER, RECIPIENT, OTHER, 5), Err(TokenError::Unauthorized));
    assert_eq!(t.allowance(RECIPIENT, OTHER), 0);
    assert_eq!(t.allowance(OTHER, RECIPIENT), 0);
}

#[test]
fn upgrade_by_non_owner_is_unauthorized() {
    let mut t = deploy();
    assert_eq!(t.authorize_upgrade(OTHER), Err(TokenError::Unauthorized));
    assert_eq!(t.upgrade(OTHER, vec![9, 9]), Err(TokenError::Unauthorized));
    assert_eq!(t.code(), &vec![1u8, 2, 3]);
    assert_eq!(t.balance(RECIPIENT), INITIAL_SUPPLY);
    assert_eq!(t.owner(), OWNER);
}

#[test]
fn upgrade_by_owner_keeps_state() {
    let mut t = deploy();
    assert_eq!(t.pause(OWNER), Ok(()));
    assert_eq!(t.upgrade(OWNER, vec![9, 9]), Ok(()));
    assert_eq!(t.code(), &vec![9u8, 9]);
    assert_eq!(t.balance(RECIPIENT), INITIAL_SUPPLY);
    assert_eq!(t.owner(), OWNER);
    assert!(t.paused());
}

#[test]
fn ownership_transfer_moves_the_owner_role() {
    let mut t = deploy();
    assert_eq!(t.transfer_ownership(OTHER, OTHER), Err(TokenError::Unauthorized));
    assert_eq!(t.transfer_ownership(OWNER, OTHER), Ok(()));
    assert_eq!(t.owner(), OTHER);
    assert_eq!(t.mint(OWNER, OWNER, 1), Err(TokenError::Unauthorized));
    assert_eq!(t.mint(OTHER, OWNER, 1), Ok(()));
    assert_eq!(t.enforce_owner_auth(OTHER), Ok(()));
    assert_eq!(t.when_not_paused(), Ok(()));
}

#[test]
fn ledger_keeps_allowances_per_pair() {
    let mut l = Ledger::new();
    assert_eq!(l.mint(1, 50), Ok(()));
    assert_eq!(l.approve(1, 2, 7), Ok(()));
    assert_eq!(l.allowance(1, 2), 7);
    assert_eq!(l.allowance(2, 1), 0);
    assert_eq!(l.spend_allowance(1, 2, 0), Ok(()));
    assert_eq!(l.spend_allowance(1, 2, 3), Ok(()));
    assert_eq!(l.allowance(1, 2), 4);
    assert_eq!(l.spend_allowance(1, 2, 5), Err(TokenError::InsufficientAllowance));
    assert_eq!(l.total_supply(), 50);
    assert_eq!(l.balance(1), 50);
}
