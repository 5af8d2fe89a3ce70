//! What holds of the escrow across its life: opening, taking, refunding.
use vstd::prelude::*;
use crate::address::escrow_address;
use crate::bytes::{le_value, lemma_le_value_u64};
use crate::error::EscrowError;
use crate::instructions::{
    AccountView, Effect, TokenAccountView, balance_after, closes, data_after, reserves_after,
};
use crate::instructions::make::{make_address, make_result};
use crate::instructions::refund::refund_result;
use crate::instructions::take::{take_address, take_result};
use crate::state::Escrow;
use crate::state::ESCROW_LEN;

verus! {

/// A make on a slot that already holds the program's record creates nothing
/// and moves nothing: a second make cannot debit the maker twice.
pub proof fn lemma_make_on_open_escrow_moves_nothing(
    accounts: Seq<AccountView>,
    data: Seq<u8>,
    vault: Result<TokenAccountView, EscrowError>,
    derived: Option<Seq<u8>>,
    program_id: Seq<u8>,
    token_program_id: Seq<u8>,
)
    requires
        accounts.len() >= 8,
        accounts[5].data@.len() > 0,
        accounts[5].owner@ == program_id,
    ensures
        make_result(accounts, data, vault, derived, program_id, token_program_id) matches Ok(
            (create, effects),
        ) ==> create is None && effects.len() == 0,
{
}

/// After an accepted make that creates the escrow, the record asks for the
/// payload's first amount, and the vault, empty before, holds the second.
pub proof fn lemma_make_deposits_into_vault(
    accounts: Seq<AccountView>,
    data: Seq<u8>,
    vault: Result<TokenAccountView, EscrowError>,
    derived: Option<Seq<u8>>,
    program_id: Seq<u8>,
    token_program_id: Seq<u8>,
    bal: Map<Seq<u8>, int>,
)
    requires
        make_result(accounts, data, vault, derived, program_id, token_program_id) is Ok,
        make_result(accounts, data, vault, derived, program_id, token_program_id)->Ok_0.0 is Some,
        accounts[3].key@ != accounts[4].key@,
        bal[accounts[4].key@] == 0,
    ensures
        ({
            let (create, effects) = make_result(
                accounts,
                data,
                vault,
                derived,
                program_id,
                token_program_id,
            )->Ok_0;
            &&& create->Some_0.amount as nat == le_value(data.subrange(1, 9))
            &&& balance_after(effects, bal)[accounts[4].key@] == le_value(data.subrange(9, 17))
            &&& balance_after(effects, bal)[accounts[3].key@] == bal[accounts[3].key@] - le_value(
                data.subrange(9, 17),
            )
        }),
{
    lemma_le_value_u64(data.subrange(1, 9));
    lemma_le_value_u64(data.subrange(9, 17));
    let effects = make_result(accounts, data, vault, derived, program_id, token_program_id)->Ok_0.1;
    reveal_with_fuel(balance_after, 2);
    assert(effects.drop_first() =~= Seq::<Effect>::empty());
}

/// A take is accepted only where the mints are the record's and the escrow
/// sits at the derived address. Then the taker gains the whole vault, the
/// maker gains the amount the record asks, the vault is emptied, and vault
/// and escrow both close: they are left with no reserve and no data, and the
/// maker receives both reserves.
pub proof fn lemma_take_swaps_and_closes(
    accounts: Seq<AccountView>,
    vault: Result<TokenAccountView, EscrowError>,
    derived: Option<Seq<u8>>,
    bal: Map<Seq<u8>, int>,
    lam: Map<Seq<u8>, int>,
    data: Map<Seq<u8>, Seq<u8>>,
)
    requires
        take_result(accounts, vault, derived) is Ok,
        accounts[4].key@ != accounts[5].key@,
        accounts[4].key@ != accounts[6].key@,
        accounts[4].key@ != accounts[7].key@,
        accounts[5].key@ != accounts[6].key@,
        accounts[5].key@ != accounts[7].key@,
        accounts[6].key@ != accounts[7].key@,
        accounts[1].key@ != accounts[7].key@,
        accounts[1].key@ != accounts[8].key@,
        accounts[7].key@ != accounts[8].key@,
    ensures
        ({
            let s = accounts[8].data@;
            let v = vault->Ok_0;
            let after = balance_after(take_result(accounts, vault, derived)->Ok_0.1, bal);
            &&& s.len() >= ESCROW_LEN
            &&& s.subrange(32, 64) == accounts[2].key@
            &&& s.subrange(64, 96) == accounts[3].key@
            &&& derived == Some(accounts[8].key@)
            &&& after[accounts[4].key@] == bal[accounts[4].key@] + v.amount
            &&& after[accounts[6].key@] == bal[accounts[6].key@] + le_value(s.subrange(96, 104))
            &&& after[accounts[5].key@] == bal[accounts[5].key@] - le_value(s.subrange(96, 104))
            &&& after[accounts[7].key@] == bal[accounts[7].key@] - v.amount
            &&& closes(take_result(accounts, vault, derived)->Ok_0.1, accounts[7].key@)
            &&& closes(take_result(accounts, vault, derived)->Ok_0.1, accounts[8].key@)
            &&& reserves_after(take_result(accounts, vault, derived)->Ok_0.1, lam)[accounts[7].key@] == 0
            &&& reserves_after(take_result(accounts, vault, derived)->Ok_0.1, lam)[accounts[8].key@] == 0
            &&& reserves_after(take_result(accounts, vault, derived)->Ok_0.1, lam)[accounts[1].key@]
                == lam[accounts[1].key@] + lam[accounts[7].key@] + lam[accounts[8].key@]
            &&& data_after(take_result(accounts, vault, derived)->Ok_0.1, data)[accounts[7].key@].len() == 0
            &&& data_after(take_result(accounts, vault, derived)->Ok_0.1, data)[accounts[8].key@].len() == 0
        }),
{
    let s = accounts[8].data@;
    lemma_le_value_u64(s.subrange(96, 104));
    let effects = take_result(accounts, vault, derived)->Ok_0.1;
    reveal_with_fuel(balance_after, 5);
    reveal_with_fuel(reserves_after, 5);
    reveal_with_fuel(data_after, 5);
    assert(effects.drop_first().drop_first().drop_first().drop_first() =~= Seq::<Effect>::empty());
    assert(match effects[2] {
        Effect::CloseTokenAccount { account, .. } => account@ == accounts[7].key@,
        _ => false,
    });
    assert(match effects[3] {
        Effect::CloseAccount { account, .. } => account@ == accounts[8].key@,
        _ => false,
    });
}

/// A refund is accepted only where the signer is the maker the record holds.
/// Then the maker's account gains the whole vault, and vault and escrow both
/// close: they are left with no reserve and no data, and the maker receives
/// both reserves.
pub proof fn lemma_refund_returns_deposit(
    accounts: Seq<AccountView>,
    vault: Result<TokenAccountView, EscrowError>,
    bal: Map<Seq<u8>, int>,
    lam: Map<Seq<u8>, int>,
    data: Map<Seq<u8>, Seq<u8>>,
)
    requires
        refund_result(accounts, vault) is Ok,
        accounts[2].key@ != accounts[4].key@,
        accounts[0].key@ != accounts[3].key@,
        accounts[0].key@ != accounts[4].key@,
        accounts[3].key@ != accounts[4].key@,
    ensures
        ({
            let v = vault->Ok_0;
            let after = balance_after(refund_result(accounts, vault)->Ok_0.1, bal);
            &&& accounts[0].is_signer
            &&& accounts[3].data@.subrange(0, 32) == accounts[0].key@
            &&& after[accounts[2].key@] == bal[accounts[2].key@] + v.amount
            &&& after[accounts[4].key@] == bal[accounts[4].key@] - v.amount
            &&& closes(refund_result(accounts, vault)->Ok_0.1, accounts[4].key@)
            &&& closes(refund_result(accounts, vault)->Ok_0.1, accounts[3].key@)
            &&& reserves_after(refund_result(accounts, vault)->Ok_0.1, lam)[accounts[4].key@] == 0
            &&& reserves_after(refund_result(accounts, vault)->Ok_0.1, lam)[accounts[3].key@] == 0
            &&& reserves_after(refund_result(accounts, vault)->Ok_0.1, lam)[accounts[0].key@]
                == lam[accounts[0].key@] + lam[accounts[4].key@] + lam[accounts[3].key@]
            &&& data_after(refund_result(accounts, vault)->Ok_0.1, data)[accounts[4].key@].len() == 0
            &&& data_after(refund_result(accounts, vault)->Ok_0.1, data)[accounts[3].key@].len() == 0
        }),
{
    let effects = refund_result(accounts, vault)->Ok_0.1;
    reveal_with_fuel(balance_after, 4);
    reveal_with_fuel(reserves_after, 4);
    reveal_with_fuel(data_after, 4);
    assert(effects.drop_first().drop_first().drop_first() =~= Seq::<Effect>::empty());
    assert(match effects[1] {
        Effect::CloseTokenAccount { account, .. } => account@ == accounts[4].key@,
        _ => false,
    });
    assert(match effects[2] {
        Effect::CloseAccount { account, .. } => account@ == accounts[3].key@,
        _ => false,
    });
}

/// The record that a make creates, once stored, reads back as itself, and a
/// take on it checks the very address that the make checked: that of the
/// same maker, nonce and program.
pub proof fn lemma_created_record_keeps_its_address(
    make_accounts: Seq<AccountView>,
    data: Seq<u8>,
    vault: Result<TokenAccountView, EscrowError>,
    derived: Option<Seq<u8>>,
    program_id: Seq<u8>,
    token_program_id: Seq<u8>,
    take_accounts: Seq<AccountView>,
)
    requires
        make_result(make_accounts, data, vault, derived, program_id, token_program_id) matches Ok(
            (Some(e), _),
        ),
        take_accounts.len() >= 11,
        take_accounts[1].key@ == make_accounts[0].key@,
        take_accounts[8].data@ == make_result(
            make_accounts,
            data,
            vault,
            derived,
            program_id,
            token_program_id,
        )->Ok_0.0->Some_0.layout(),
    ensures
        ({
            let e = make_result(
                make_accounts,
                data,
                vault,
                derived,
                program_id,
                token_program_id,
            )->Ok_0.0->Some_0;
            &&& e.read_from(take_accounts[8].data@)
            &&& take_address(take_accounts, program_id) == make_address(make_accounts, data, program_id)
            &&& take_address(take_accounts, program_id) == escrow_address(e.maker@, e.bump, program_id)
        }),
{
    let e: Escrow = make_result(make_accounts, data, vault, derived, program_id, token_program_id)->Ok_0.0->Some_0;
    e.lemma_layout_reads_back();
}

/// A refund of a record that a make created signs with the seeds of the
/// refunding maker and the nonce the record holds, and those seeds derive the
/// escrow's own address: the one the make checked.
pub proof fn lemma_refund_signs_as_escrow(
    make_accounts: Seq<AccountView>,
    data: Seq<u8>,
    make_vault: Result<TokenAccountView, EscrowError>,
    program_id: Seq<u8>,
    token_program_id: Seq<u8>,
    refund_accounts: Seq<AccountView>,
    refund_vault: Result<TokenAccountView, EscrowError>,
)
    requires
        make_result(
            make_accounts,
            data,
            make_vault,
            make_address(make_accounts, data, program_id),
            program_id,
            token_program_id,
        ) matches Ok((Some(e), _)),
        refund_result(refund_accounts, refund_vault) is Ok,
        refund_accounts[3].key@ == make_accounts[5].key@,
        refund_accounts[3].data@ == make_result(
            make_accounts,
            data,
            make_vault,
            make_address(make_accounts, data, program_id),
            program_id,
            token_program_id,
        )->Ok_0.0->Some_0.layout(),
    ensures
        escrow_address(
            refund_accounts[0].key@,
            refund_result(refund_accounts, refund_vault)->Ok_0.0,
            program_id,
        ) == Some(refund_accounts[3].key@),
{
    let e: Escrow = make_result(
        make_accounts,
        data,
        make_vault,
        make_address(make_accounts, data, program_id),
        program_id,
        token_program_id,
    )->Ok_0.0->Some_0;
    e.lemma_layout_reads_back();
}

/// Once the escrow is closed, its data is gone: a later take or refund on it
/// is refused, and a refused instruction asks for no effect.
pub proof fn lemma_closed_escrow_refuses_settlement(
    take_accounts: Seq<AccountView>,
    refund_accounts: Seq<AccountView>,
    vault: Result<TokenAccountView, EscrowError>,
    derived: Option<Seq<u8>>,
)
    requires
        take_accounts.len() >= 11 ==> take_accounts[8].data@.len() == 0,
        refund_accounts.len() >= 7 ==> refund_accounts[3].data@.len() == 0,
    ensures
        take_result(take_accounts, vault, derived) is Err,
        refund_result(refund_accounts, vault) is Err,
{
}

} // verus!
