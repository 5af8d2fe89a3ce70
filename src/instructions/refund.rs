//! Refund: the maker takes its deposit back and the escrow closes.
use vstd::prelude::*;
use crate::bytes::keys_equal;
use crate::error::EscrowError;
use crate::instructions::{AccountView, Effect, SettlePlan, TokenAccountView, settle_view};
use crate::state::{Escrow, ESCROW_LEN};

verus! {

/// Accounts a refund names: maker, mint_x, maker's account for mint_x,
/// escrow, vault, token program, system program.
pub const REFUND_ACCOUNTS: usize = 7;

/// What a refund does with `accounts` and the vault as read.
///
/// The maker must sign and be the maker the record holds, the mint must be
/// the record's `mint_x`, and the vault must answer to the escrow. Then the
/// whole vault goes back to the maker, and vault and escrow close, their
/// reserves going to the maker.
pub open spec fn refund_result(
    accounts: Seq<AccountView>,
    vault: Result<TokenAccountView, EscrowError>,
) -> Result<(u8, Seq<Effect>), EscrowError> {
    if accounts.len() < REFUND_ACCOUNTS {
        Err(EscrowError::NotEnoughAccountKeys)
    } else {
        let maker = accounts[0];
        let mint = accounts[1];
        let dest = accounts[2];
        let escrow = accounts[3];
        let vault_account = accounts[4];
        let s = escrow.data@;
        if !maker.is_signer {
            Err(EscrowError::MissingRequiredSignature)
        } else if s.len() < ESCROW_LEN {
            Err(EscrowError::InvalidAccountData)
        } else if s.subrange(0, 32) != maker.key@ {
            Err(EscrowError::MakerMismatch)
        } else if s.subrange(32, 64) != mint.key@ {
            Err(EscrowError::MintMismatch)
        } else {
            match vault {
                Err(e) => Err(e),
                Ok(v) => if v.authority@ != escrow.key@ {
                    Err(EscrowError::VaultAuthorityMismatch)
                } else {
                    Ok(
                        (
                            s[104],
                            seq![
                                Effect::Transfer {
                                    from: vault_account.key,
                                    to: dest.key,
                                    authority: escrow.key,
                                    amount: v.amount,
                                },
                                Effect::CloseTokenAccount {
                                    account: vault_account.key,
                                    destination: maker.key,
                                    authority: escrow.key,
                                },
                                Effect::CloseAccount { account: escrow.key, destination: maker.key },
                            ],
                        ),
                    )
                },
            }
        }
    }
}

/// Decides a refund; `vault` is the vault read as a token account.
pub fn process_refund_instruction(
    accounts: &[AccountView],
    vault: Result<TokenAccountView, EscrowError>,
) -> (r: Result<SettlePlan, EscrowError>)
    ensures
        settle_view(r) == refund_result(accounts@, vault),
{
    if accounts.len() < REFUND_ACCOUNTS {
        return Err(EscrowError::NotEnoughAccountKeys);
    }
    let maker = &accounts[0];
    let mint = &accounts[1];
    let dest = &accounts[2];
    let escrow = &accounts[3];
    let vault_account = &accounts[4];
    if !maker.is_signer {
        return Err(EscrowError::MissingRequiredSignature);
    }
    let record = Escrow::from_bytes(escrow.data.as_slice())?;
    if !keys_equal(&record.maker, &maker.key) {
        return Err(EscrowError::MakerMismatch);
    }
    if !keys_equal(&record.mint_x, &mint.key) {
        return Err(EscrowError::MintMismatch);
    }
    let v = vault?;
    if !keys_equal(&v.authority, &escrow.key) {
        return Err(EscrowError::VaultAuthorityMismatch);
    }
    let mut effects: Vec<Effect> = Vec::new();
    effects.push(
        Effect::Transfer {
            from: vault_account.key,
            to: dest.key,
            authority: escrow.key,
            amount: v.amount,
        },
    );
    effects.push(
        Effect::CloseTokenAccount {
            account: vault_account.key,
            destination: maker.key,
            authority: escrow.key,
        },
    );
    effects.push(Effect::CloseAccount { account: escrow.key, destination: maker.key });
    let plan = SettlePlan { bump: record.bump, effects };
    proof {
        assert(plan.effects@ =~= refund_result(accounts@, vault)->Ok_0.1);
    }
    Ok(plan)
}

} // verus!
