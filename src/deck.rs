use vstd::prelude::*;
use rand::seq::SliceRandom;
use rand::{Rng, SeedableRng};
use vstd::utf8::encode_utf8;

verus! {

/// The order in which rand's seeded shuffle leaves `cards` for a given seed.
pub uninterp spec fn shuffled(cards: Seq<u8>, seed: u64) -> Seq<u8>;

/// Relies on rand's `SliceRandom::shuffle`, driven by a `StdRng` made by
/// `SeedableRng::seed_from_u64`: it permutes the cards in place (a run of swaps),
/// in an order that the seed and the cards alone decide for the rand release
/// that the lock file fixes.
#[verifier::external_body]
fn shuffle_seeded(cards: &mut Vec<u8>, seed: u64)
    ensures
        final(cards)@ == shuffled(old(cards)@, seed),
        final(cards)@.to_multiset() == old(cards)@.to_multiset(),
{
    let mut rng = rand::rngs::StdRng::seed_from_u64(seed);
    cards.shuffle(&mut rng);
}

/// Relies on rand's `Rng::gen_range` over a `StdRng` made by
/// `SeedableRng::seed_from_u64`: a value in `0..bound` (it panics on an empty range).
#[verifier::external_body]
pub(crate) fn random_below(seed: u64, bound: u64) -> (r: u64)
    requires
        bound > 0,
    ensures
        r < bound,
{
    let mut rng = rand::rngs::StdRng::seed_from_u64(seed);
    rng.gen_range(0..bound)
}

pub const FNV_OFFSET: u64 = 0xcbf2_9ce4_8422_2325;

pub const FNV_PRIME: u64 = 0x0000_0100_0000_01b3;

/// The byte that separates the commitment from the salt when they are hashed
/// into a seed; it never occurs in UTF-8 text.
pub const SEED_SEPARATOR: u8 = 0xff;

/// FNV-1a over `bytes`, from the state `h`.
pub open spec fn fnv(h: u64, bytes: Seq<u8>) -> u64
    decreases bytes.len(),
{
    if bytes.len() == 0 {
        h
    } else {
        (fnv(h, bytes.drop_last()) ^ (bytes.last() as u64)).wrapping_mul(FNV_PRIME)
    }
}

/// The shuffle seed for a commitment and a salt: FNV-1a over the commitment's
/// bytes, a separator, and the salt's bytes.
pub open spec fn seed_of(commit: Seq<u8>, salt: Seq<u8>) -> u64 {
    fnv(FNV_OFFSET, commit.push(SEED_SEPARATOR) + salt)
}

/// The seed for two strings, by their UTF-8 bytes.
pub open spec fn seed_for(commit: Seq<char>, salt: Seq<char>) -> u64 {
    seed_of(encode_utf8(commit), encode_utf8(salt))
}

/// The seed that a commitment and a salt give.
pub fn rng_seed(commit: &str, salt: &str) -> (r: u64)
    ensures
        r == seed_for(commit@, salt@),
{
    let c = commit.as_bytes();
    let s = salt.as_bytes();
    let mut acc = FNV_OFFSET;
    let mut i: usize = 0;
    while i < c.len()
        invariant
            i <= c@.len(),
            acc == fnv(FNV_OFFSET, c@.subrange(0, i as int)),
        decreases c@.len() - i,
    {
        assert(c@.subrange(0, i as int + 1).drop_last() =~= c@.subrange(0, i as int));
        acc = (acc ^ (c[i] as u64)).wrapping_mul(FNV_PRIME);
        i = i + 1;
    }
    assert(c@.subrange(0, i as int) =~= c@);
    let ghost head = c@.push(SEED_SEPARATOR);
    assert(head.drop_last() =~= c@);
    acc = (acc ^ (SEED_SEPARATOR as u64)).wrapping_mul(FNV_PRIME);
    assert(acc == fnv(FNV_OFFSET, head));
    let mut j: usize = 0;
    while j < s.len()
        invariant
            j <= s@.len(),
            acc == fnv(FNV_OFFSET, head + s@.subrange(0, j as int)),
        decreases s@.len() - j,
    {
        assert((head + s@.subrange(0, j as int + 1)).drop_last() =~= head + s@.subrange(0, j as int));
        acc = (acc ^ (s[j] as u64)).wrapping_mul(FNV_PRIME);
        j = j + 1;
    }
    assert(s@.subrange(0, j as int) =~= s@);
    acc
}

/// The 52 card codes of one deck, in order.
pub open spec fn standard_cards() -> Seq<u8> {
    Seq::new(52, |i: int| (i + 1) as u8)
}

/// An ordered stack of card codes; cards are dealt from the end.
#[derive(Debug, Clone, Default)]
pub struct Deck {
    pub cards: Vec<u8>,
}

impl Deck {
    pub fn empty() -> (r: Deck)
        ensures
            r.cards@ == Seq::<u8>::empty(),
    {
        Deck { cards: Vec::new() }
    }

    pub fn with_cards(cards: Vec<u8>) -> (r: Deck)
        ensures
            r.cards@ == cards@,
    {
        Deck { cards }
    }

    /// Reorders the cards by a seed made of a commitment and a time salt: the
    /// same two strings always give the same order.
    pub fn shuffle(&mut self, hash: String, timestamp: String)
        ensures
            final(self).cards@ == shuffled(
                old(self).cards@,
                seed_for(hash@, timestamp@),
            ),
            final(self).cards@.to_multiset() == old(self).cards@.to_multiset(),
    {
        let seed = rng_seed(hash.as_str(), timestamp.as_str());
        shuffle_seeded(&mut self.cards, seed);
    }

    /// Takes the last card, or nothing from an empty deck.
    pub fn deal(&mut self) -> (r: Option<u8>)
        ensures
            old(self).cards@.len() == 0 ==> r is None && final(self).cards@ == old(self).cards@,
            old(self).cards@.len() > 0 ==> r == Some(old(self).cards@.last())
                && final(self).cards@ == old(self).cards@.drop_last(),
    {
        self.cards.pop()
    }

    pub fn is_empty(&self) -> (r: bool)
        ensures
            r == (self.cards@.len() == 0),
    {
        self.cards.len() == 0
    }

    /// Appends a batch of cards and reshuffles the whole deck by the time salt
    /// alone; the batch is left empty.
    pub fn add_cards(&mut self, new_set: &mut Vec<u8>, timestamp: String)
        ensures
            final(self).cards@ == shuffled(
                old(self).cards@ + old(new_set)@,
                seed_for(timestamp@, timestamp@),
            ),
            final(self).cards@.to_multiset() == (old(self).cards@ + old(new_set)@).to_multiset(),
            final(new_set)@ == Seq::<u8>::empty(),
    {
        self.cards.append(new_set);
        let seed = rng_seed(timestamp.as_str(), timestamp.as_str());
        shuffle_seeded(&mut self.cards, seed);
    }
}

/// The 52 card codes of one deck, in order.
pub fn standard_deck() -> (r: Vec<u8>)
    ensures
        r@ == standard_cards(),
{
    let mut cards: Vec<u8> = Vec::new();
    let mut c: u8 = 1;
    while c <= 52
        invariant
            1 <= c <= 53,
            cards@ == standard_cards().subrange(0, c - 1),
        decreases 53 - c,
    {
        cards.push(c);
        assert(cards@ =~= standard_cards().subrange(0, c as int));
        c = c + 1;
    }
    assert(cards@ =~= standard_cards());
    cards
}

/// One full deck, shuffled by a time salt alone.
pub fn get_new_deck(timestamp: String) -> (r: Vec<u8>)
    ensures
        r@ == shuffled(standard_cards(), seed_for(timestamp@, timestamp@)),
        r@.to_multiset() == standard_cards().to_multiset(),
{
    let mut cards = standard_deck();
    let seed = rng_seed(timestamp.as_str(), timestamp.as_str());
    shuffle_seeded(&mut cards, seed);
    cards
}

} // verus!
