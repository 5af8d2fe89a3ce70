//! Take: a taker pays the asked amount and receives the deposit; the escrow closes.
use vstd::prelude::*;
use crate::address::{derive_escrow_address, escrow_address, opt_key};
use crate::bytes::{keys_equal, le_value, Pubkey};
use crate::error::EscrowError;
use crate::instructions::{AccountView, Effect, SettlePlan, TokenAccountView, settle_view};
use crate::state::{Escrow, ESCROW_LEN};

verus! {

/// Accounts a take names: taker, maker, mint_x, mint_y, taker's accounts for
/// mint_x and mint_y, maker's account for mint_y, vault, escrow, token
/// program, system program.
pub const TAKE_ACCOUNTS: usize = 11;

/// What a take does with `accounts`, the vault as read, and `derived`, the
/// escrow address of the maker with the record's nonce.
///
/// The taker must sign, the mints must be the record's, the vault must be a
/// token account, and the escrow must sit at the derived address. Then the
/// taker pays the record's amount of mint_y to the maker, the whole vault
/// goes to the taker, and vault and escrow close, their reserves going to the
/// maker.
pub open spec fn take_result(
    accounts: Seq<AccountView>,
    vault: Result<TokenAccountView, EscrowError>,
    derived: Option<Seq<u8>>,
) -> Result<(u8, Seq<Effect>), EscrowError> {
    if accounts.len() < TAKE_ACCOUNTS {
        Err(EscrowError::NotEnoughAccountKeys)
    } else {
        let taker = accounts[0];
        let maker = accounts[1];
        let mint_x = accounts[2];
        let mint_y = accounts[3];
        let taker_x = accounts[4];
        let taker_y = accounts[5];
        let maker_y = accounts[6];
        let vault_account = accounts[7];
        let escrow = accounts[8];
        let s = escrow.data@;
        if !taker.is_signer {
            Err(EscrowError::MissingRequiredSignature)
        } else if s.len() < ESCROW_LEN {
            Err(EscrowError::InvalidAccountData)
        } else if s.subrange(32, 64) != mint_x.key@ || s.subrange(64, 96) != mint_y.key@ {
            Err(EscrowError::MintMismatch)
        } else {
            match vault {
                Err(e) => Err(e),
                Ok(v) => match derived {
                    None => Err(EscrowError::InvalidSeeds),
                    Some(d) => if d != escrow.key@ {
                        Err(EscrowError::EscrowAddressMismatch)
                    } else {
                        Ok(
                            (
                                s[104],
                                seq![
                                    Effect::Transfer {
                                        from: taker_y.key,
                                        to: maker_y.key,
                                        authority: taker.key,
                                        amount: le_value(s.subrange(96, 104)) as u64,
                                    },
                                    Effect::Transfer {
                                        from: vault_account.key,
                                        to: taker_x.key,
                                        authority: escrow.key,
                                        amount: v.amount,
                                    },
                                    Effect::CloseTokenAccount {
                                        account: vault_account.key,
                                        destination: maker.key,
                                        authority: escrow.key,
                                    },
                                    Effect::CloseAccount {
                                        account: escrow.key,
                                        destination: maker.key,
                                    },
                                ],
                            ),
                        )
                    },
                },
            }
        }
    }
}

/// The escrow address that a take checks: that of the maker it names, with
/// the nonce its escrow record holds.
pub open spec fn take_address(accounts: Seq<AccountView>, program_id: Seq<u8>) -> Option<Seq<u8>> {
    if accounts.len() >= TAKE_ACCOUNTS && accounts[8].data@.len() >= ESCROW_LEN {
        escrow_address(accounts[1].key@, accounts[8].data@[104], program_id)
    } else {
        None
    }
}

/// Decides a take, given the escrow address derived for the maker and the
/// record's nonce.
pub fn decide_take(
    accounts: &[AccountView],
    vault: Result<TokenAccountView, EscrowError>,
    derived: Option<Pubkey>,
) -> (r: Result<SettlePlan, EscrowError>)
    ensures
        settle_view(r) == take_result(accounts@, vault, opt_key(derived)),
{
    if accounts.len() < TAKE_ACCOUNTS {
        return Err(EscrowError::NotEnoughAccountKeys);
    }
    let taker = &accounts[0];
    let maker = &accounts[1];
    let mint_x = &accounts[2];
    let mint_y = &accounts[3];
    let taker_x = &accounts[4];
    let taker_y = &accounts[5];
    let maker_y = &accounts[6];
    let vault_account = &accounts[7];
    let escrow = &accounts[8];
    if !taker.is_signer {
        return Err(EscrowError::MissingRequiredSignature);
    }
    let record = Escrow::from_bytes(escrow.data.as_slice())?;
    if !keys_equal(&record.mint_x, &mint_x.key) || !keys_equal(&record.mint_y, &mint_y.key) {
        return Err(EscrowError::MintMismatch);
    }
    let v = vault?;
    let d = match derived {
        None => {
            return Err(EscrowError::InvalidSeeds);
        },
        Some(d) => d,
    };
    if !keys_equal(&d, &escrow.key) {
        return Err(EscrowError::EscrowAddressMismatch);
    }
    let mut effects: Vec<Effect> = Vec::new();
    effects.push(
        Effect::Transfer {
            from: taker_y.key,
            to: maker_y.key,
            authority: taker.key,
            amount: record.amount,
        },
    );
    effects.push(
        Effect::Transfer {
            from: vault_account.key,
            to: taker_x.key,
            authority: escrow.key,
            amount: v.amount,
        },
    );
    effects.push(
        Effect::CloseTokenAccount {
            account: vault_account.key,
            destination: maker.key,
            authority: escrow.key,
        },
    );
    effects.push(Effect::CloseAccount { account: escrow.key, destination: maker.key });
    let plan = SettlePlan { bump: record.bump, effects };
    proof {
        assert(plan.effects@ =~= take_result(accounts@, vault, opt_key(derived))->Ok_0.1);
    }
    Ok(plan)
}

/// Decides a take for the program `program_id`, deriving the escrow address
/// from the maker and the nonce that the escrow record holds.
pub fn process_take_instruction(
    program_id: &Pubkey,
    accounts: &[AccountView],
    vault: Result<TokenAccountView, EscrowError>,
) -> (r: Result<SettlePlan, EscrowError>)
    ensures
        settle_view(r) == take_result(accounts@, vault, take_address(accounts@, program_id@)),
{
    let mut derived: Option<Pubkey> = None;
    if accounts.len() >= TAKE_ACCOUNTS && accounts[8].data.len() >= ESCROW_LEN {
        let bump = accounts[8].data[104];
        derived = derive_escrow_address(&accounts[1].key, bump, program_id);
    }
    decide_take(accounts, vault, derived)
}

} // verus!
