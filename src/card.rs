use vstd::prelude::*;

verus! {

/// The rank of a card code (1 = Ace, 11..13 = Jack, Queen, King); codes run
/// 1..=52, thirteen to a suit.
pub open spec fn card_rank(card: u8) -> nat {
    ((card as nat + 12) % 13) + 1
}

/// What a card counts with every Ace taken as 1: face cards and tens count 10.
pub open spec fn hard_points(card: u8) -> nat {
    if card_rank(card) >= 10 { 10 } else { card_rank(card) }
}

/// The total of a hand with every Ace counted as 1.
pub open spec fn hard_total(hand: Seq<u8>) -> nat
    decreases hand.len(),
{
    if hand.len() == 0 {
        0
    } else {
        hard_total(hand.drop_last()) + hard_points(hand.last())
    }
}

pub open spec fn has_ace(hand: Seq<u8>) -> bool {
    exists|i: int| 0 <= i < hand.len() && card_rank(#[trigger] hand[i]) == 1
}

/// The Blackjack value of a hand: one Ace counts 11 where that keeps the total at
/// most 21 (two cannot both), every other Ace counts 1.
pub open spec fn hand_value(hand: Seq<u8>) -> nat {
    if has_ace(hand) && hard_total(hand) + 10 <= 21 {
        hard_total(hand) + 10
    } else {
        hard_total(hand)
    }
}

pub fn card_rank_of(card: u8) -> (r: u8)
    ensures
        r == card_rank(card),
{
    (((card as u16 + 12) % 13) + 1) as u8
}

/// The Blackjack value of a hand.
pub fn calculate_hand_value(hand: &Vec<u8>) -> (r: u128)
    ensures
        r == hand_value(hand@),
{
    let mut total: u128 = 0;
    let mut ace = false;
    let mut i: usize = 0;
    while i < hand.len()
        invariant
            i <= hand@.len(),
            total == hard_total(hand@.subrange(0, i as int)),
            total <= 10 * i,
            ace == exists|j: int| 0 <= j < i && card_rank(#[trigger] hand@[j]) == 1,
        decreases hand@.len() - i,
    {
        let rank = card_rank_of(hand[i]);
        assert(hand@.subrange(0, i as int + 1).drop_last() =~= hand@.subrange(0, i as int));
        total = total + if rank >= 10 { 10 } else { rank as u128 };
        if rank == 1 {
            ace = true;
        }
        i = i + 1;
    }
    assert(hand@.subrange(0, i as int) =~= hand@);
    if ace && total + 10 <= 21 {
        total + 10
    } else {
        total
    }
}

} // verus!
