//! The three instructions, as decisions from what they read to what they do.
use vstd::prelude::*;
use crate::bytes::Pubkey;
use crate::error::EscrowError;
use crate::state::Escrow;

pub mod lifecycle;
pub mod make;
pub mod refund;
pub mod take;

verus! {

/// The operation that an instruction's first byte names.
#[derive(Clone, Copy, Debug, PartialEq, Eq, Structural)]
pub enum EscrowInstructions {
    Make,
    Take,
    Refund,
}

/// The operation named by tag `t`: 0 opens, 1 takes, 2 refunds.
pub open spec fn instruction_of(t: u8) -> Option<EscrowInstructions> {
    if t == 0 {
        Some(EscrowInstructions::Make)
    } else if t == 1 {
        Some(EscrowInstructions::Take)
    } else if t == 2 {
        Some(EscrowInstructions::Refund)
    } else {
        None
    }
}

impl EscrowInstructions {
    /// The operation for a tag byte; any other byte is invalid data.
    pub fn try_from(value: u8) -> (r: Result<EscrowInstructions, EscrowError>)
        ensures
            instruction_of(value) matches Some(i) ==> r == Ok::<EscrowInstructions, EscrowError>(i),
            instruction_of(value) is None ==> r == Err::<EscrowInstructions, EscrowError>(
                EscrowError::InvalidInstructionData,
            ),
    {
        match value {
            0 => Ok(EscrowInstructions::Make),
            1 => Ok(EscrowInstructions::Take),
            2 => Ok(EscrowInstructions::Refund),
            _ => Err(EscrowError::InvalidInstructionData),
        }
    }
}

/// Splits instruction data into its operation and the payload after the tag.
pub fn split_instruction(data: &[u8]) -> (r: Result<(EscrowInstructions, Vec<u8>), EscrowError>)
    ensures
        data@.len() == 0 ==> r == Err::<(EscrowInstructions, Vec<u8>), EscrowError>(
            EscrowError::InvalidInstructionData,
        ),
        data@.len() > 0 ==> match instruction_of(data@[0]) {
            Some(i) => r matches Ok((op, rest)) && op == i && rest@ == data@.drop_first(),
            None => r == Err::<(EscrowInstructions, Vec<u8>), EscrowError>(
                EscrowError::InvalidInstructionData,
            ),
        },
{
    if data.len() == 0 {
        return Err(EscrowError::InvalidInstructionData);
    }
    let op = EscrowInstructions::try_from(data[0])?;
    let mut rest: Vec<u8> = Vec::new();
    let mut i: usize = 1;
    while i < data.len()
        invariant
            1 <= i <= data@.len(),
            rest@ == data@.subrange(1, i as int),
        decreases data@.len() - i,
    {
        rest.push(data[i]);
        assert(data@.subrange(1, i + 1) =~= data@.subrange(1, i as int).push(data@[i as int]));
        i = i + 1;
    }
    assert(rest@ =~= data@.drop_first());
    Ok((op, rest))
}

/// What an instruction reads of one account it is handed.
#[derive(Clone, Debug)]
pub struct AccountView {
    pub key: Pubkey,
    /// The program that owns the account.
    pub owner: Pubkey,
    pub is_signer: bool,
    pub data: Vec<u8>,
}

/// What an instruction reads of a token account: the authority that may move
/// its tokens, and how many it holds.
#[derive(Clone, Copy, Debug, PartialEq, Eq)]
pub struct TokenAccountView {
    pub authority: Pubkey,
    pub amount: u64,
}

/// One step that an accepted instruction asks of the ledger, in order.
#[derive(Clone, Copy, Debug, PartialEq, Eq)]
pub enum Effect {
    /// Moves `amount` tokens from `from` to `to`, authorised by `authority`.
    Transfer { from: Pubkey, to: Pubkey, authority: Pubkey, amount: u64 },
    /// Closes the emptied token account `account`: its whole reserve goes to
    /// `destination` and it keeps no data.
    CloseTokenAccount { account: Pubkey, destination: Pubkey, authority: Pubkey },
    /// Closes `account`: its whole reserve goes to `destination` and its data
    /// is zeroed and released.
    CloseAccount { account: Pubkey, destination: Pubkey },
}

/// What a take or a refund does: its effects, in order, where the escrow
/// signs with nonce `bump`.
#[derive(Clone, Debug)]
pub struct SettlePlan {
    pub bump: u8,
    pub effects: Vec<Effect>,
}

/// The view of a settle result: the nonce and the effects, or the error.
pub open spec fn settle_view(r: Result<SettlePlan, EscrowError>) -> Result<(u8, Seq<Effect>), EscrowError> {
    match r {
        Ok(p) => Ok((p.bump, p.effects@)),
        Err(e) => Err(e),
    }
}

/// The token balance that `k` holds after `effects`, starting from `bal`.
pub open spec fn balance_after(effects: Seq<Effect>, bal: Map<Seq<u8>, int>) -> Map<Seq<u8>, int>
    decreases effects.len(),
{
    if effects.len() == 0 {
        bal
    } else {
        let next = match effects[0] {
            Effect::Transfer { from, to, amount, .. } => {
                let debited = bal.insert(from@, bal[from@] - amount);
                debited.insert(to@, debited[to@] + amount)
            },
            _ => bal,
        };
        balance_after(effects.drop_first(), next)
    }
}

/// The reserves after `to` receives the whole reserve of `from`, which is
/// left with none.
pub open spec fn sweep(lam: Map<Seq<u8>, int>, from: Seq<u8>, to: Seq<u8>) -> Map<Seq<u8>, int> {
    let emptied = lam.insert(from, 0);
    emptied.insert(to, emptied[to] + lam[from])
}

/// The reserves (the ledger's own balance that backs each account) after
/// `effects`, starting from `lam`. Token transfers leave reserves alone; a
/// close sweeps the closed account's whole reserve to its destination.
pub open spec fn reserves_after(effects: Seq<Effect>, lam: Map<Seq<u8>, int>) -> Map<Seq<u8>, int>
    decreases effects.len(),
{
    if effects.len() == 0 {
        lam
    } else {
        let next = match effects[0] {
            Effect::CloseTokenAccount { account, destination, .. } => sweep(
                lam,
                account@,
                destination@,
            ),
            Effect::CloseAccount { account, destination } => sweep(lam, account@, destination@),
            _ => lam,
        };
        reserves_after(effects.drop_first(), next)
    }
}

/// The accounts' data after `effects`, starting from `data`: a closed account
/// holds no data.
pub open spec fn data_after(effects: Seq<Effect>, data: Map<Seq<u8>, Seq<u8>>) -> Map<Seq<u8>, Seq<u8>>
    decreases effects.len(),
{
    if effects.len() == 0 {
        data
    } else {
        let next = match effects[0] {
            Effect::CloseTokenAccount { account, .. } => data.insert(account@, Seq::empty()),
            Effect::CloseAccount { account, .. } => data.insert(account@, Seq::empty()),
            _ => data,
        };
        data_after(effects.drop_first(), next)
    }
}

/// `k` is closed by one of `effects`.
pub open spec fn closes(effects: Seq<Effect>, k: Seq<u8>) -> bool {
    exists|i: int|
        0 <= i < effects.len() && match #[trigger] effects[i] {
            Effect::CloseTokenAccount { account, .. } => account@ == k,
            Effect::CloseAccount { account, .. } => account@ == k,
            _ => false,
        }
}

} // verus!
