//! The escrow record and its fixed byte layout.
use vstd::prelude::*;
use crate::bytes::{Pubkey, le_bytes, le_value, lemma_le_bytes_len, lemma_le_round_trip, pow256, push_key, push_u64_le, read_key, read_u64_le};
use crate::error::EscrowError;

verus! {

/// Bytes an escrow record occupies: three keys, the amount, the nonce, and
/// seven bytes that round the record up to the amount's alignment.
pub const ESCROW_LEN: usize = 112;

/// Where the amount starts in the record.
pub const AMOUNT_OFFSET: usize = 96;

/// Where the nonce sits in the record.
pub const BUMP_OFFSET: usize = 104;

/// An open offer: the maker gives its deposit of `mint_x` for `amount` of `mint_y`.
#[derive(Clone, Copy, Debug, PartialEq, Eq)]
pub struct Escrow {
    pub maker: Pubkey,
    pub mint_x: Pubkey,
    pub mint_y: Pubkey,
    pub amount: u64,
    pub bump: u8,
}

impl Escrow {
    /// The record's bytes: maker, mint_x, mint_y, amount (little-endian),
    /// nonce, then zero padding.
    pub open spec fn layout(&self) -> Seq<u8> {
        self.maker@ + self.mint_x@ + self.mint_y@ + le_bytes(self.amount as nat, 8) + seq![
            self.bump,
        ] + Seq::new(7, |i: int| 0u8)
    }

    /// `self` is the record that the bytes `s` hold.
    pub open spec fn read_from(&self, s: Seq<u8>) -> bool {
        &&& s.len() >= ESCROW_LEN
        &&& self.maker@ == s.subrange(0, 32)
        &&& self.mint_x@ == s.subrange(32, 64)
        &&& self.mint_y@ == s.subrange(64, 96)
        &&& self.amount as nat == le_value(s.subrange(96, 104))
        &&& self.bump == s[104]
    }

    /// Reads a record from an account's data; too short a buffer holds none.
    pub fn from_bytes(data: &[u8]) -> (r: Result<Escrow, EscrowError>)
        ensures
            r is Ok <==> data@.len() >= ESCROW_LEN,
            r matches Ok(e) ==> e.read_from(data@),
            r is Err ==> r == Err::<Escrow, EscrowError>(EscrowError::InvalidAccountData),
    {
        if data.len() < ESCROW_LEN {
            return Err(EscrowError::InvalidAccountData);
        }
        Ok(
            Escrow {
                maker: read_key(data, 0),
                mint_x: read_key(data, 32),
                mint_y: read_key(data, 64),
                amount: read_u64_le(data, AMOUNT_OFFSET),
                bump: data[BUMP_OFFSET],
            },
        )
    }

    /// The bytes to store for this record.
    pub fn to_bytes(&self) -> (r: Vec<u8>)
        ensures
            r@ == self.layout(),
            r@.len() == ESCROW_LEN,
    {
        let mut out: Vec<u8> = Vec::new();
        push_key(&mut out, &self.maker);
        push_key(&mut out, &self.mint_x);
        push_key(&mut out, &self.mint_y);
        push_u64_le(&mut out, self.amount);
        out.push(self.bump);
        let ghost head = out@;
        let mut i: usize = 0;
        while i < 7
            invariant
                i <= 7,
                out@ == head + Seq::new(i as nat, |j: int| 0u8),
            decreases 7 - i,
        {
            out.push(0u8);
            assert(head + Seq::new((i + 1) as nat, |j: int| 0u8) =~= head + Seq::new(
                i as nat,
                |j: int| 0u8,
            ) + seq![0u8]);
            i = i + 1;
        }
        proof {
            lemma_le_bytes_len(self.amount as nat, 8);
        }
        out
    }
}

impl Escrow {
    /// A stored record reads back as itself.
    pub proof fn lemma_layout_reads_back(&self)
        ensures
            self.read_from(self.layout()),
    {
        let s = self.layout();
        let a = le_bytes(self.amount as nat, 8);
        lemma_le_bytes_len(self.amount as nat, 8);
        assert(s.subrange(0, 32) =~= self.maker@);
        assert(s.subrange(32, 64) =~= self.mint_x@);
        assert(s.subrange(64, 96) =~= self.mint_y@);
        assert(s.subrange(96, 104) =~= a);
        assert(s[104] == self.bump);
        lemma_le_round_trip(self.amount as nat, 8);
        assert(pow256(8) == 0x1_0000_0000_0000_0000) by {
            reveal_with_fuel(pow256, 9);
        }
        vstd::arithmetic::div_mod::lemma_small_mod(self.amount as nat, pow256(8));
    }
}

} // verus!
