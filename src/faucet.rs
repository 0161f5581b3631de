//! Records of the companion token faucet: a claim window with its totals,
//! and the bitmap of indices already claimed in one shard.

use vstd::prelude::*;
use crate::address::Address;

verus! {

/// A faucet distribution: its mint, its claim window and its totals.
#[derive(Clone, Copy, Debug, Default, PartialEq, Eq)]
pub struct FaucetClaim {
    pub mint: Address,
    pub claim_starts: u64,
    pub claim_ends: u64,
    pub total_faucet_amount: u64,
    pub total_claimed_amount: u64,
    pub shards: u16,
    pub bump: u8,
}

impl FaucetClaim {
    /// Whether the claim window has closed at time `now`.
    pub fn is_finished(&self, now: u64) -> (r: bool)
        ensures
            r == (now > self.claim_ends),
    {
        now > self.claim_ends
    }

    /// Whether the claim window has opened at time `now`.
    pub fn is_started(&self, now: u64) -> (r: bool)
        ensures
            r == (now > self.claim_starts),
    {
        now > self.claim_starts
    }

    /// What is left to claim.
    pub fn rest_amount(&self) -> (r: u64)
        requires
            self.total_claimed_amount <= self.total_faucet_amount,
        ensures
            r == self.total_faucet_amount - self.total_claimed_amount,
    {
        self.total_faucet_amount - self.total_claimed_amount
    }
}

/// Number of 32-bit words in a shard's bitmap: one bit per `u16` index.
pub const BITMAP_WORDS: usize = 2048;

/// Whether bit `bit` of `word` is set.
pub open spec fn has_bit(word: u32, bit: u32) -> bool {
    (word >> bit) & 1u32 == 1u32
}

/// One bit per claim index of a shard: set once the index has claimed.
#[derive(Clone, Copy, Debug, PartialEq, Eq)]
pub struct ShardClaimBitMap {
    pub bitmap: [u32; 2048],
}

impl ShardClaimBitMap {
    /// Whether index `index` is marked as claimed.
    pub open spec fn claimed(&self, index: u16) -> bool {
        has_bit(self.bitmap@[index as int / 32], (index % 32) as u32)
    }

    /// Word of the bitmap that holds `index`'s bit.
    fn byte_index(index: u16) -> (r: usize)
        ensures
            r == index / 32,
            r < BITMAP_WORDS,
    {
        proof {
            assert(index >> 5u16 == index / 32) by (bit_vector);
        }
        (index >> 5) as usize
    }

    /// Position of `index`'s bit within its word.
    fn bit_offset(index: u16) -> (r: u32)
        ensures
            r == index % 32,
            r < 32,
    {
        proof {
            assert(index & 31u16 == index % 32) by (bit_vector);
        }
        (index & 31) as u32
    }

    /// Whether `index` is marked as claimed.
    pub fn check(&self, index: u16) -> (r: bool)
        ensures
            r == self.claimed(index),
    {
        let word = self.bitmap[Self::byte_index(index)];
        let bit = Self::bit_offset(index);
        proof {
            lemma_bit_ops(word, bit, bit);
        }
        word & (1u32 << bit) != 0
    }

    /// Marks `index` as claimed; every other index keeps its mark.
    pub fn enable(&mut self, index: u16)
        ensures
            final(self).claimed(index),
            forall|j: u16| j != index ==> #[trigger] final(self).claimed(j) == old(self).claimed(j),
    {
        let i = Self::byte_index(index);
        let bit = Self::bit_offset(index);
        let word = self.bitmap[i];
        self.bitmap[i] = word | (1u32 << bit);
        assert forall|j: u16| j != index implies #[trigger] self.claimed(j) == old(self).claimed(j) by {
            if j / 32 == index / 32 {
                lemma_bit_ops(word, bit, (j % 32) as u32);
            }
        }
        proof {
            lemma_bit_ops(word, bit, bit);
        }
    }

    /// Clears `index`'s mark; every other index keeps its mark.
    pub fn disable(&mut self, index: u16)
        ensures
            !final(self).claimed(index),
            forall|j: u16| j != index ==> #[trigger] final(self).claimed(j) == old(self).claimed(j),
    {
        let i = Self::byte_index(index);
        let bit = Self::bit_offset(index);
        let word = self.bitmap[i];
        self.bitmap[i] = word & !(1u32 << bit);
        assert forall|j: u16| j != index implies #[trigger] self.claimed(j) == old(self).claimed(j) by {
            if j / 32 == index / 32 {
                lemma_bit_ops(word, bit, (j % 32) as u32);
            }
        }
        proof {
            lemma_bit_ops(word, bit, bit);
        }
    }
}

impl Default for ShardClaimBitMap {
    /// A bitmap with no index claimed.
    fn default() -> (r: ShardClaimBitMap)
        ensures
            forall|j: u16| !#[trigger] r.claimed(j),
    {
        let r = ShardClaimBitMap { bitmap: [0u32; 2048] };
        assert forall|j: u16| !#[trigger] r.claimed(j) by {
            lemma_bit_ops(0u32, 0u32, (j % 32) as u32);
        }
        r
    }
}

/// Setting or clearing bit `b` of `w` changes bit `b` alone.
proof fn lemma_bit_ops(w: u32, b: u32, c: u32)
    requires
        b < 32,
        c < 32,
    ensures
        has_bit(w | (1u32 << b), b),
        !has_bit(w & !(1u32 << b), b),
        b != c ==> has_bit(w | (1u32 << b), c) == has_bit(w, c),
        b != c ==> has_bit(w & !(1u32 << b), c) == has_bit(w, c),
        (w & (1u32 << b) != 0) == has_bit(w, b),
        !has_bit(0u32, c),
{
    assert(((w | (1u32 << b)) >> b) & 1u32 == 1u32) by (bit_vector)
        requires
            b < 32,
    ;
    assert(((w & !(1u32 << b)) >> b) & 1u32 != 1u32) by (bit_vector)
        requires
            b < 32,
    ;
    assert(b != c ==> ((w | (1u32 << b)) >> c) & 1u32 == (w >> c) & 1u32) by (bit_vector)
        requires
            b < 32,
            c < 32,
    ;
    assert(b != c ==> ((w & !(1u32 << b)) >> c) & 1u32 == (w >> c) & 1u32) by (bit_vector)
        requires
            b < 32,
            c < 32,
    ;
    assert((w & (1u32 << b) != 0) == ((w >> b) & 1u32 == 1u32)) by (bit_vector)
        requires
            b < 32,
    ;
    assert((0u32 >> c) & 1u32 != 1u32) by (bit_vector);
}

/// One shard of a faucet: its Merkle root and the indices claimed in it.
#[derive(Clone, Copy, Debug, PartialEq, Eq)]
pub struct FaucetClaimShard {
    pub index: u16,
    pub padding: u8,
    pub bump: u8,
    pub merkle_root: [u8; 32],
    pub faucet_claim: Address,
    pub bitmap: ShardClaimBitMap,
}

} // verus!
