use std::collections::HashMap;

use escrow_swap::bytes::Pubkey;
use escrow_swap::error::EscrowError;
use escrow_swap::instructions::make::{decide_make, parse_make_data, process_make_instruction, MakeArgs, MakePlan};
use escrow_swap::instructions::refund::process_refund_instruction;
use escrow_swap::instructions::take::{decide_take, process_take_instruction};
use escrow_swap::instructions::{split_instruction, AccountView, Effect, EscrowInstructions, TokenAccountView};
use escrow_swap::state::{Escrow, ESCROW_LEN};

const PROGRAM: Pubkey = [7u8; 32];
const TOKEN_PROGRAM: Pubkey = [6u8; 32];
const SYSTEM_PROGRAM: Pubkey = [0u8; 32];
const MAKER: Pubkey = [1u8; 32];
const TAKER: Pubkey = [2u8; 32];
const MINT_X: Pubkey = [3u8; 32];
const MINT_Y: Pubkey = [4u8; 32];
const ESCROW: Pubkey = [5u8; 32];
const VAULT: Pubkey = [8u8; 32];
const MAKER_X: Pubkey = [9u8; 32];
const MAKER_Y: Pubkey = [10u8; 32];
const TAKER_X: Pubkey = [11u8; 32];
const TAKER_Y: Pubkey = [12u8; 32];
const STRANGER: Pubkey = [13u8; 32];

fn acct(key: Pubkey, owner: Pubkey, is_signer: bool, data: Vec<u8>) -> AccountView {
    AccountView { key, owner, is_signer, data }
}

/// Token balances and the accounts that are still open.
struct Ledger {
    balances: HashMap<Pubkey, u64>,
    reserves: HashMap<Pubkey, u64>,
    escrow_data: Vec<u8>,
    escrow_owner: Pubkey,
    vault_open: bool,
}

impl Ledger {
    fn new() -> Ledger {
        let mut balances = HashMap::new();
        balances.insert(MAKER_X, 1000);
        balances.insert(MAKER_Y, 0);
        balances.insert(TAKER_X, 0);
        balances.insert(TAKER_Y, 500);
        balances.insert(VAULT, 0);
        let mut reserves = HashMap::new();
        reserves.insert(MAKER, 10_000);
        reserves.insert(VAULT, 2_039);
        Ledger { balances, reserves, escrow_data: Vec::new(), escrow_owner: SYSTEM_PROGRAM, vault_open: true }
    }

    fn bal(&self, k: Pubkey) -> u64 {
        *self.balances.get(&k).unwrap_or(&0)
    }

    fn reserve(&self, k: Pubkey) -> u64 {
        *self.reserves.get(&k).unwrap_or(&0)
    }

    fn sweep(&mut self, from: Pubkey, to: Pubkey) {
        let moved = self.reserve(from);
        self.reserves.insert(from, 0);
        let t = self.reserve(to);
        self.reserves.insert(to, t + moved);
    }

    fn vault(&self) -> Result<TokenAccountView, EscrowError> {
        if self.vault_open {
            Ok(TokenAccountView { authority: ESCROW, amount: self.bal(VAULT) })
        } else {
            Err(EscrowError::InvalidAccountData)
        }
    }

    fn apply(&mut self, effects: &[Effect]) {
        for e in effects {
            match *e {
                Effect::Transfer { from, to, amount, .. } => {
                    let f = self.bal(from);
                    assert!(f >= amount);
                    self.balances.insert(from, f - amount);
                    let t = self.bal(to);
                    self.balances.insert(to, t + amount);
                }
                Effect::CloseTokenAccount { account, destination, .. } => {
                    assert_eq!(account, VAULT);
                    assert_eq!(self.bal(VAULT), 0);
                    self.sweep(account, destination);
                    self.vault_open = false;
                }
                Effect::CloseAccount { account, destination } => {
                    assert_eq!(account, ESCROW);
                    self.sweep(account, destination);
                    self.escrow_data = Vec::new();
                    self.escrow_owner = SYSTEM_PROGRAM;
                }
            }
        }
    }

    fn make_accounts(&self) -> Vec<AccountView> {
        vec![
            acct(MAKER, SYSTEM_PROGRAM, true, vec![]),
            acct(MINT_X, TOKEN_PROGRAM, false, vec![]),
            acct(MINT_Y, TOKEN_PROGRAM, false, vec![]),
            acct(MAKER_X, TOKEN_PROGRAM, false, vec![]),
            acct(VAULT, TOKEN_PROGRAM, false, vec![]),
            acct(ESCROW, self.escrow_owner, false, self.escrow_data.clone()),
            acct(SYSTEM_PROGRAM, SYSTEM_PROGRAM, false, vec![]),
            acct(TOKEN_PROGRAM, SYSTEM_PROGRAM, false, vec![]),
        ]
    }

    fn take_accounts(&self, taker_signs: bool) -> Vec<AccountView> {
        vec![
            acct(TAKER, SYSTEM_PROGRAM, taker_signs, vec![]),
            acct(MAKER, SYSTEM_PROGRAM, false, vec![]),
            acct(MINT_X, TOKEN_PROGRAM, false, vec![]),
            acct(MINT_Y, TOKEN_PROGRAM, false, vec![]),
            acct(TAKER_X, TOKEN_PROGRAM, false, vec![]),
            acct(TAKER_Y, TOKEN_PROGRAM, false, vec![]),
            acct(MAKER_Y, TOKEN_PROGRAM, false, vec![]),
            acct(VAULT, TOKEN_PROGRAM, false, vec![]),
            acct(ESCROW, self.escrow_owner, false, self.escrow_data.clone()),
            acct(TOKEN_PROGRAM, SYSTEM_PROGRAM, false, vec![]),
            acct(SYSTEM_PROGRAM, SYSTEM_PROGRAM, false, vec![]),
        ]
    }

    fn refund_accounts(&self, signer: Pubkey, signs: bool) -> Vec<AccountView> {
        vec![
            acct(signer, SYSTEM_PROGRAM, signs, vec![]),
            acct(MINT_X, TOKEN_PROGRAM, false, vec![]),
            acct(MAKER_X, TOKEN_PROGRAM, false, vec![]),
            acct(ESCROW, self.escrow_owner, false, self.escrow_data.clone()),
            acct(VAULT, TOKEN_PROGRAM, false, vec![]),
            acct(TOKEN_PROGRAM, SYSTEM_PROGRAM, false, vec![]),
            acct(SYSTEM_PROGRAM, SYSTEM_PROGRAM, false, vec![]),
        ]
    }

    fn make(&mut self, bump: u8, receive: u64, deposit: u64) -> Result<MakePlan, EscrowError> {
        let data = make_data(bump, receive, deposit);
        let plan = decide_make(&PROGRAM, &TOKEN_PROGRAM, &self.make_accounts(), &data, self.vault(), Some(ESCROW))?;
        if let Some(record) = plan.create {
            self.escrow_data = record.to_bytes();
            self.escrow_owner = PROGRAM;
            self.reserves.insert(MAKER, self.reserve(MAKER) - 1_500);
            self.reserves.insert(ESCROW, 1_500);
        }
        self.apply(&plan.effects);
        Ok(plan)
    }
}

fn make_data(bump: u8, receive: u64, deposit: u64) -> Vec<u8> {
    let mut d = vec![bump];
    d.extend_from_slice(&receive.to_le_bytes());
    d.extend_from_slice(&deposit.to_le_bytes());
    d
}

#[test]
fn deposit_then_take_swaps_both_sides() {
    let mut l = Ledger::new();
    l.make(254, 50, 100).unwrap();
    assert_eq!(l.bal(VAULT), 100);
    assert_eq!(l.bal(MAKER_X), 900);
    let plan = decide_take(&l.take_accounts(true), l.vault(), Some(ESCROW)).unwrap();
    assert_eq!(plan.bump, 254);
    l.apply(&plan.effects);
    assert_eq!(l.bal(TAKER_X), 100);
    assert_eq!(l.bal(MAKER_Y), 50);
    assert_eq!(l.bal(TAKER_Y), 450);
    assert_eq!(l.reserve(MAKER), 10_000 + 2_039);
    assert_eq!(l.reserve(VAULT), 0);
    assert_eq!(l.reserve(ESCROW), 0);
    assert!(!l.vault_open);
    assert!(l.escrow_data.is_empty());
}

#[test]
fn deposit_then_refund_returns_everything() {
    let mut l = Ledger::new();
    l.make(9, 50, 100).unwrap();
    let plan = process_refund_instruction(&l.refund_accounts(MAKER, true), l.vault()).unwrap();
    assert_eq!(plan.bump, 9);
    l.apply(&plan.effects);
    assert_eq!(l.bal(MAKER_X), 1000);
    assert_eq!(l.reserve(MAKER), 10_000 + 2_039);
    assert_eq!(l.reserve(VAULT), 0);
    assert_eq!(l.reserve(ESCROW), 0);
    assert!(!l.vault_open);
    assert!(l.escrow_data.is_empty());
}

#[test]
fn refund_by_wrong_signer_is_rejected() {
    let mut l = Ledger::new();
    l.make(9, 50, 100).unwrap();
    let r = process_refund_instruction(&l.refund_accounts(STRANGER, true), l.vault());
    assert_eq!(r.unwrap_err(), EscrowError::MakerMismatch);
    let r = process_refund_instruction(&l.refund_accounts(MAKER, false), l.vault());
    assert_eq!(r.unwrap_err(), EscrowError::MissingRequiredSignature);
    assert_eq!(l.bal(VAULT), 100);
    assert_eq!(l.bal(MAKER_X), 900);
}

#[test]
fn second_make_on_open_escrow_moves_nothing() {
    let mut l = Ledger::new();
    l.make(9, 50, 100).unwrap();
    let plan = l.make(9, 50, 100).unwrap();
    assert!(plan.create.is_none());
    assert!(plan.effects.is_empty());
    assert_eq!(l.bal(MAKER_X), 900);
    assert_eq!(l.bal(VAULT), 100);
}

#[test]
fn make_records_amounts() {
    let mut l = Ledger::new();
    let plan = l.make(200, 77, 33).unwrap();
    let record = plan.create.unwrap();
    assert_eq!(record, Escrow { maker: MAKER, mint_x: MINT_X, mint_y: MINT_Y, amount: 77, bump: 200 });
    assert_eq!(
        plan.effects,
        vec![Effect::Transfer { from: MAKER_X, to: VAULT, authority: MAKER, amount: 33 }]
    );
    assert_eq!(l.bal(VAULT), 33);
}

#[test]
fn settling_twice_fails_without_change() {
    let mut l = Ledger::new();
    l.make(9, 50, 100).unwrap();
    let plan = decide_take(&l.take_accounts(true), l.vault(), Some(ESCROW)).unwrap();
    l.apply(&plan.effects);
    let again = decide_take(&l.take_accounts(true), l.vault(), Some(ESCROW));
    assert_eq!(again.unwrap_err(), EscrowError::InvalidAccountData);
    let refund = process_refund_instruction(&l.refund_accounts(MAKER, true), l.vault());
    assert_eq!(refund.unwrap_err(), EscrowError::InvalidAccountData);
    assert_eq!(l.bal(TAKER_X), 100);
    assert_eq!(l.bal(MAKER_Y), 50);
}

#[test]
fn take_checks_mints_signer_and_address() {
    let mut l = Ledger::new();
    l.make(9, 50, 100).unwrap();
    let mut accounts = l.take_accounts(true);
    accounts[3].key = STRANGER;
    assert_eq!(decide_take(&accounts, l.vault(), Some(ESCROW)).unwrap_err(), EscrowError::MintMismatch);
    assert_eq!(
        decide_take(&l.take_accounts(true), l.vault(), Some(STRANGER)).unwrap_err(),
        EscrowError::EscrowAddressMismatch
    );
    assert_eq!(decide_take(&l.take_accounts(true), l.vault(), None).unwrap_err(), EscrowError::InvalidSeeds);
    assert_eq!(
        decide_take(&l.take_accounts(false), l.vault(), Some(ESCROW)).unwrap_err(),
        EscrowError::MissingRequiredSignature
    );
    assert_eq!(
        decide_take(&l.take_accounts(true)[..10], l.vault(), Some(ESCROW)).unwrap_err(),
        EscrowError::NotEnoughAccountKeys
    );
    assert_eq!(
        decide_take(&l.take_accounts(true), Err(EscrowError::InvalidAccountOwner), Some(ESCROW)).unwrap_err(),
        EscrowError::InvalidAccountOwner
    );
}

#[test]
fn refund_checks_mint_and_vault_authority() {
    let mut l = Ledger::new();
    l.make(9, 50, 100).unwrap();
    let mut accounts = l.refund_accounts(MAKER, true);
    accounts[1].key = MINT_Y;
    assert_eq!(process_refund_instruction(&accounts, l.vault()).unwrap_err(), EscrowError::MintMismatch);
    let wrong_vault = Ok(TokenAccountView { authority: STRANGER, amount: 100 });
    assert_eq!(
        process_refund_instruction(&l.refund_accounts(MAKER, true), wrong_vault).unwrap_err(),
        EscrowError::VaultAuthorityMismatch
    );
    assert_eq!(
        process_refund_instruction(&l.refund_accounts(MAKER, true)[..6], l.vault()).unwrap_err(),
        EscrowError::NotEnoughAccountKeys
    );
}

#[test]
fn make_rejections() {
    let l = Ledger::new();
    let accounts = l.make_accounts();
    let data = make_data(9, 50, 100);
    let call = |accounts: &[AccountView], data: &[u8], vault, derived| {
        decide_make(&PROGRAM, &TOKEN_PROGRAM, accounts, data, vault, derived).map(|_| ())
    };
    assert_eq!(call(&accounts[..7], &data, l.vault(), Some(ESCROW)), Err(EscrowError::NotEnoughAccountKeys));
    assert_eq!(call(&accounts, &data[..16], l.vault(), Some(ESCROW)), Err(EscrowError::InvalidInstructionData));
    assert_eq!(call(&accounts, &data, l.vault(), None), Err(EscrowError::InvalidSeeds));
    assert_eq!(call(&accounts, &data, l.vault(), Some(STRANGER)), Err(EscrowError::EscrowAddressMismatch));
    let mut bad_mint = accounts.clone();
    bad_mint[2].owner = STRANGER;
    assert_eq!(call(&bad_mint, &data, l.vault(), Some(ESCROW)), Err(EscrowError::MintOwnerMismatch));
    let stray = Ok(TokenAccountView { authority: STRANGER, amount: 0 });
    assert_eq!(call(&accounts, &data, stray, Some(ESCROW)), Err(EscrowError::VaultAuthorityMismatch));
    let mut unsigned = accounts.clone();
    unsigned[0].is_signer = false;
    assert_eq!(call(&unsigned, &data, l.vault(), Some(ESCROW)), Err(EscrowError::MissingRequiredSignature));
    let mut unsigned_short = accounts.clone();
    unsigned_short[0].is_signer = false;
    assert_eq!(call(&unsigned_short, &data[..16], l.vault(), Some(ESCROW)), Err(EscrowError::InvalidInstructionData));
    assert_eq!(call(&unsigned_short, &data, l.vault(), Some(STRANGER)), Err(EscrowError::EscrowAddressMismatch));
    assert_eq!(call(&unsigned_short, &data, l.vault(), None), Err(EscrowError::InvalidSeeds));
    let mut unsigned_bad_mint = unsigned_short.clone();
    unsigned_bad_mint[1].owner = STRANGER;
    assert_eq!(call(&unsigned_bad_mint, &data, l.vault(), Some(ESCROW)), Err(EscrowError::MintOwnerMismatch));
    let stray = Ok(TokenAccountView { authority: STRANGER, amount: 0 });
    assert_eq!(call(&unsigned_short, &data, stray, Some(ESCROW)), Err(EscrowError::VaultAuthorityMismatch));
    let mut unsigned_half_made = unsigned_short.clone();
    unsigned_half_made[5].data = vec![1, 2, 3];
    assert_eq!(call(&unsigned_half_made, &data, l.vault(), Some(ESCROW)), Err(EscrowError::AccountAlreadyInitialized));
    let mut unsigned_open = unsigned_short.clone();
    unsigned_open[5].data = vec![1, 2, 3];
    unsigned_open[5].owner = PROGRAM;
    assert_eq!(call(&unsigned_open, &data, l.vault(), Some(ESCROW)), Ok(()));
    let mut half_made = accounts.clone();
    half_made[5].data = vec![1, 2, 3];
    assert_eq!(call(&half_made, &data, l.vault(), Some(ESCROW)), Err(EscrowError::AccountAlreadyInitialized));
    let mut owned_empty = accounts.clone();
    owned_empty[5].owner = PROGRAM;
    assert_eq!(call(&owned_empty, &data, l.vault(), Some(ESCROW)), Err(EscrowError::AccountAlreadyInitialized));
}

#[test]
fn payload_is_read_little_endian() {
    let mut data = make_data(3, 0x0102030405060708, 0x1122334455667788);
    data.push(0xff);
    assert_eq!(
        parse_make_data(&data),
        Ok(MakeArgs { bump: 3, receive: 0x0102030405060708, deposit: 0x1122334455667788 })
    );
    assert_eq!(parse_make_data(&data[..16]), Err(EscrowError::InvalidInstructionData));
    assert_eq!(parse_make_data(&[]), Err(EscrowError::InvalidInstructionData));
}

#[test]
fn record_layout_and_round_trip() {
    let e = Escrow { maker: MAKER, mint_x: MINT_X, mint_y: MINT_Y, amount: 0x0a0b0c0d, bump: 42 };
    let b = e.to_bytes();
    assert_eq!(b.len(), ESCROW_LEN);
    assert_eq!(&b[0..32], &MAKER[..]);
    assert_eq!(&b[32..64], &MINT_X[..]);
    assert_eq!(&b[64..96], &MINT_Y[..]);
    assert_eq!(&b[96..104], &[0x0d, 0x0c, 0x0b, 0x0a, 0, 0, 0, 0]);
    assert_eq!(b[104], 42);
    assert_eq!(&b[105..], &[0u8; 7]);
    assert_eq!(Escrow::from_bytes(&b), Ok(e));
    assert_eq!(Escrow::from_bytes(&b[..111]), Err(EscrowError::InvalidAccountData));
}

#[test]
fn instruction_tags() {
    assert_eq!(EscrowInstructions::try_from(0), Ok(EscrowInstructions::Make));
    assert_eq!(EscrowInstructions::try_from(1), Ok(EscrowInstructions::Take));
    assert_eq!(EscrowInstructions::try_from(2), Ok(EscrowInstructions::Refund));
    assert_eq!(EscrowInstructions::try_from(3), Err(EscrowError::InvalidInstructionData));
    assert_eq!(split_instruction(&[1, 9, 8]), Ok((EscrowInstructions::Take, vec![9, 8])));
    assert_eq!(split_instruction(&[]), Err(EscrowError::InvalidInstructionData));
    assert_eq!(split_instruction(&[7]), Err(EscrowError::InvalidInstructionData));
}

#[test]
fn entry_points_reject_before_deriving() {
    let l = Ledger::new();
    let accounts = l.make_accounts();
    let short = make_data(9, 50, 100);
    let r = process_make_instruction(&PROGRAM, &TOKEN_PROGRAM, &accounts, &short[..10], l.vault());
    assert_eq!(r.unwrap_err(), EscrowError::InvalidInstructionData);
    let r = process_make_instruction(&PROGRAM, &TOKEN_PROGRAM, &accounts[..5], &short, l.vault());
    assert_eq!(r.unwrap_err(), EscrowError::NotEnoughAccountKeys);
    let r = process_take_instruction(&PROGRAM, &l.take_accounts(true), l.vault());
    assert_eq!(r.unwrap_err(), EscrowError::InvalidAccountData);
    let r = process_take_instruction(&PROGRAM, &l.take_accounts(true)[..3], l.vault());
    assert_eq!(r.unwrap_err(), EscrowError::NotEnoughAccountKeys);
}
