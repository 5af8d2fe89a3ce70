//! Make: the maker opens an offer and deposits what it gives into the vault.
use vstd::prelude::*;
use crate::address::{derive_escrow_address, escrow_address, opt_key};
use crate::bytes::{keys_equal, le_value, read_u64_le, Pubkey};
use crate::error::EscrowError;
use crate::instructions::{AccountView, Effect, TokenAccountView};
use crate::state::Escrow;

verus! {

/// Accounts a make names: maker, mint_x, mint_y, maker's account for mint_x,
/// vault, escrow, system program, token program.
pub const MAKE_ACCOUNTS: usize = 8;

/// Bytes a make's payload needs: the nonce and two little-endian amounts.
pub const MAKE_DATA_LEN: usize = 17;

/// A make's payload.
#[derive(Clone, Copy, Debug, PartialEq, Eq, Structural)]
pub struct MakeArgs {
    /// The nonce of the escrow address.
    pub bump: u8,
    /// How much of mint_y the maker asks.
    pub receive: u64,
    /// How much of mint_x the maker deposits.
    pub deposit: u64,
}

/// Reads a make's payload: a nonce byte, then the amount asked and the amount
/// deposited, eight little-endian bytes each. Bytes after these are ignored.
pub fn parse_make_data(data: &[u8]) -> (r: Result<MakeArgs, EscrowError>)
    ensures
        r is Ok <==> data@.len() >= MAKE_DATA_LEN,
        r is Err ==> r == Err::<MakeArgs, EscrowError>(EscrowError::InvalidInstructionData),
        r matches Ok(a) ==> {
            &&& a.bump == data@[0]
            &&& a.receive as nat == le_value(data@.subrange(1, 9))
            &&& a.deposit as nat == le_value(data@.subrange(9, 17))
        },
{
    if data.len() < MAKE_DATA_LEN {
        return Err(EscrowError::InvalidInstructionData);
    }
    Ok(MakeArgs { bump: data[0], receive: read_u64_le(data, 1), deposit: read_u64_le(data, 9) })
}

/// What a make does: the record to create in the escrow slot, if any, and
/// the effects that follow its creation.
#[derive(Clone, Debug)]
pub struct MakePlan {
    pub create: Option<Escrow>,
    pub effects: Vec<Effect>,
}

/// The view of a make result.
pub open spec fn make_view(r: Result<MakePlan, EscrowError>) -> Result<(Option<Escrow>, Seq<Effect>), EscrowError> {
    match r {
        Ok(p) => Ok((p.create, p.effects@)),
        Err(e) => Err(e),
    }
}

/// What a make does with `accounts`, its payload `data`, the vault as read,
/// and `derived`, the escrow address of the maker with the payload's nonce.
///
/// The payload must be whole, the escrow must sit at the derived address,
/// both mints must belong to the token program, and the vault must answer to
/// the escrow. Then an empty slot that the program does not own yet is
/// created with the record and the deposit moves to the vault, which the
/// maker must sign for; a slot that already holds the program's record is
/// left as it is, whoever signs; any other slot is already initialized.
pub open spec fn make_result(
    accounts: Seq<AccountView>,
    data: Seq<u8>,
    vault: Result<TokenAccountView, EscrowError>,
    derived: Option<Seq<u8>>,
    program_id: Seq<u8>,
    token_program_id: Seq<u8>,
) -> Result<(Option<Escrow>, Seq<Effect>), EscrowError> {
    if accounts.len() < MAKE_ACCOUNTS {
        Err(EscrowError::NotEnoughAccountKeys)
    } else {
        let maker = accounts[0];
        let mint_x = accounts[1];
        let mint_y = accounts[2];
        let source = accounts[3];
        let vault_account = accounts[4];
        let escrow = accounts[5];
        if data.len() < MAKE_DATA_LEN {
            Err(EscrowError::InvalidInstructionData)
        } else {
            match derived {
                None => Err(EscrowError::InvalidSeeds),
                Some(d) => if d != escrow.key@ {
                    Err(EscrowError::EscrowAddressMismatch)
                } else if mint_x.owner@ != token_program_id || mint_y.owner@ != token_program_id {
                    Err(EscrowError::MintOwnerMismatch)
                } else {
                    match vault {
                        Err(e) => Err(e),
                        Ok(v) => if v.authority@ != escrow.key@ {
                            Err(EscrowError::VaultAuthorityMismatch)
                        } else if escrow.data@.len() == 0 && escrow.owner@ != program_id {
                            if !maker.is_signer {
                                Err(EscrowError::MissingRequiredSignature)
                            } else {
                                Ok(
                                    (
                                        Some(
                                            Escrow {
                                                maker: maker.key,
                                                mint_x: mint_x.key,
                                                mint_y: mint_y.key,
                                                amount: le_value(data.subrange(1, 9)) as u64,
                                                bump: data[0],
                                            },
                                        ),
                                        seq![
                                            Effect::Transfer {
                                                from: source.key,
                                                to: vault_account.key,
                                                authority: maker.key,
                                                amount: le_value(data.subrange(9, 17)) as u64,
                                            },
                                        ],
                                    ),
                                )
                            }
                        } else if escrow.data@.len() != 0 && escrow.owner@ == program_id {
                            Ok((None, Seq::empty()))
                        } else {
                            Err(EscrowError::AccountAlreadyInitialized)
                        },
                    }
                },
            }
        }
    }
}

/// Decides a make, given the escrow address derived for the maker and the
/// payload's nonce.
pub fn decide_make(
    program_id: &Pubkey,
    token_program_id: &Pubkey,
    accounts: &[AccountView],
    data: &[u8],
    vault: Result<TokenAccountView, EscrowError>,
    derived: Option<Pubkey>,
) -> (r: Result<MakePlan, EscrowError>)
    ensures
        make_view(r) == make_result(
            accounts@,
            data@,
            vault,
            opt_key(derived),
            program_id@,
            token_program_id@,
        ),
{
    if accounts.len() < MAKE_ACCOUNTS {
        return Err(EscrowError::NotEnoughAccountKeys);
    }
    let maker = &accounts[0];
    let mint_x = &accounts[1];
    let mint_y = &accounts[2];
    let source = &accounts[3];
    let vault_account = &accounts[4];
    let escrow = &accounts[5];
    let args = parse_make_data(data)?;
    let d = match derived {
        None => {
            return Err(EscrowError::InvalidSeeds);
        },
        Some(d) => d,
    };
    if !keys_equal(&d, &escrow.key) {
        return Err(EscrowError::EscrowAddressMismatch);
    }
    if !keys_equal(&mint_x.owner, token_program_id) || !keys_equal(&mint_y.owner, token_program_id) {
        return Err(EscrowError::MintOwnerMismatch);
    }
    let v = vault?;
    if !keys_equal(&v.authority, &escrow.key) {
        return Err(EscrowError::VaultAuthorityMismatch);
    }
    let owned = keys_equal(&escrow.owner, program_id);
    if escrow.data.len() == 0 && !owned {
        if !maker.is_signer {
            return Err(EscrowError::MissingRequiredSignature);
        }
        let record = Escrow {
            maker: maker.key,
            mint_x: mint_x.key,
            mint_y: mint_y.key,
            amount: args.receive,
            bump: args.bump,
        };
        let mut effects: Vec<Effect> = Vec::new();
        effects.push(
            Effect::Transfer {
                from: source.key,
                to: vault_account.key,
                authority: maker.key,
                amount: args.deposit,
            },
        );
        let plan = MakePlan { create: Some(record), effects };
        proof {
            assert(plan.effects@ =~= make_result(
                accounts@,
                data@,
                vault,
                opt_key(derived),
                program_id@,
                token_program_id@,
            )->Ok_0.1);
        }
        Ok(plan)
    } else if escrow.data.len() != 0 && owned {
        let plan = MakePlan { create: None, effects: Vec::new() };
        proof {
            assert(plan.effects@ =~= Seq::<Effect>::empty());
        }
        Ok(plan)
    } else {
        Err(EscrowError::AccountAlreadyInitialized)
    }
}

/// The escrow address that a make checks: that of the maker it names, with
/// the payload's nonce.
pub open spec fn make_address(accounts: Seq<AccountView>, data: Seq<u8>, program_id: Seq<u8>) -> Option<Seq<u8>> {
    if accounts.len() >= MAKE_ACCOUNTS && data.len() >= MAKE_DATA_LEN {
        escrow_address(accounts[0].key@, data[0], program_id)
    } else {
        None
    }
}

/// Decides a make for the program `program_id`, deriving the escrow address
/// from the maker and the payload's nonce. Mints must belong to
/// `token_program_id`.
pub fn process_make_instruction(
    program_id: &Pubkey,
    token_program_id: &Pubkey,
    accounts: &[AccountView],
    data: &[u8],
    vault: Result<TokenAccountView, EscrowError>,
) -> (r: Result<MakePlan, EscrowError>)
    ensures
        make_view(r) == make_result(
            accounts@,
            data@,
            vault,
            make_address(accounts@, data@, program_id@),
            program_id@,
            token_program_id@,
        ),
{
    let mut derived: Option<Pubkey> = None;
    if accounts.len() >= MAKE_ACCOUNTS && data.len() >= MAKE_DATA_LEN {
        derived = derive_escrow_address(&accounts[0].key, data[0], program_id);
    }
    decide_make(program_id, token_program_id, accounts, data, vault, derived)
}

} // verus!
