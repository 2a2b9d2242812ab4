use vstd::prelude::*;
use crate::deck::Deck;
use crate::player_dealer::{Dealer, Player};

verus! {

/// The most players a poker table seats.
pub const MAX_POKER_PLAYERS: usize = 8;

/// The name of the stream that poker games are published on: "poker".
pub fn poker_channel() -> (r: Vec<u8>)
    ensures
        r@ == seq![112u8, 111u8, 107u8, 101u8, 114u8],
{
    let r = vec![112u8, 111u8, 107u8, 101u8, 114u8];
    assert(r@ =~= seq![112u8, 111u8, 107u8, 101u8, 114u8]);
    r
}

#[derive(Clone, Copy, Debug, PartialEq, Eq, Structural)]
pub enum BettingRound {
    PreFlop,
    Flop,
    Turn,
    River,
    Showdown,
}

/// A poker table: players in seating order, the dealer, a deck, the community
/// cards, the pot and the betting round.
#[derive(Debug, Clone)]
pub struct PokerGame {
    pub dealer: Dealer,
    pub players: Vec<Player>,
    pub deck: Deck,
    pub community_cards: Vec<u8>,
    pub pot: u64,
    pub current_round: BettingRound,
}

impl PokerGame {
    /// A table before the flop, for at most eight players.
    pub fn new(players: Vec<Player>) -> (r: Result<PokerGame, String>)
        ensures
            r is Err <==> players@.len() > MAX_POKER_PLAYERS,
            r is Ok ==> {
                let g = r->Ok_0;
                &&& g.players@ == players@
                &&& g.dealer.hand@ == Seq::<u8>::empty()
                &&& g.deck.cards@ == Seq::<u8>::empty()
                &&& g.community_cards@ == Seq::<u8>::empty()
                &&& g.pot == 0
                &&& g.current_round == BettingRound::PreFlop
            },
    {
        if players.len() > MAX_POKER_PLAYERS {
            return Err("Maximum of 8 players allowed in Poker.".to_owned());
        }
        Ok(PokerGame {
            dealer: Dealer::empty(),
            players,
            deck: Deck::empty(),
            community_cards: Vec::new(),
            pot: 0,
            current_round: BettingRound::PreFlop,
        })
    }

    /// Seats one more player, unless the table is full.
    pub fn add_player(&mut self, player: Player) -> (r: Result<(), String>)
        ensures
            r is Err <==> old(self).players@.len() >= MAX_POKER_PLAYERS,
            r is Err ==> final(self).players@ == old(self).players@,
            r is Ok ==> final(self).players@ == old(self).players@.push(player),
            final(self).pot == old(self).pot,
            final(self).current_round == old(self).current_round,
    {
        if self.players.len() >= MAX_POKER_PLAYERS {
            return Err("Maximum of 8 Poker players reached.".to_owned());
        }
        self.players.push(player);
        Ok(())
    }

    /// Takes the player at `index` off the table.
    pub fn remove_player(&mut self, index: usize) -> (r: Result<Player, String>)
        ensures
            r is Err <==> index >= old(self).players@.len(),
            r is Err ==> final(self).players@ == old(self).players@,
            r is Ok ==> r->Ok_0 == old(self).players@[index as int]
                && final(self).players@ == old(self).players@.remove(index as int),
            final(self).pot == old(self).pot,
            final(self).current_round == old(self).current_round,
    {
        if index >= self.players.len() {
            return Err("Invalid Poker player index.".to_owned());
        }
        Ok(self.players.remove(index))
    }
}

} // verus!
