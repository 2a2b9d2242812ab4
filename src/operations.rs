use vstd::prelude::*;
use crate::amount::Amount;
use crate::blackjack::{BlackjackGame, BlackjackStatus, GameOutcome, MutationReason, UserStatus, MAX_BLACKJACK_PLAYERS};
use crate::chain::{ChainId, GameError};
use crate::deck::Deck;
use crate::protocol::{hit_step, valid_table_seat};
use crate::protocol::{find_result_post, seat_request_post};
use crate::registry::{bucket, bucket_after, first_available, registry_wf};
use crate::state::{BlackjackChain, BlackjackMessage, BlackjackOperation, Outbound};
use crate::amount::sat_add;
use crate::bankroll::{account_of, bonus_due, BankrollMessage, BankrollSend};
use crate::bet_chip_profile::bet_data_matches;
use crate::blackjack::SINGLE_PLAYER_SEAT;
use crate::card::hand_value;
use crate::player_dealer::Player;
use crate::amount::sat_sub;
use crate::table::{
    min_bet_for, refreshed_balance, hit_outcome, settled, stand_outcome, bet_check, deadline, deal_check, dealer_draws, fresh_shoe, initial_outcome, next_seq, seated, seated_player,
    ONE_MINUTE_DURATION_IN_MICROS, SHOE_DECKS,
};

verus! {

broadcast use vstd::std_specs::hash::group_hash_axioms;

/// Whether a round is being played, so that it may not be left or bet on.
pub open spec fn in_play(status: BlackjackStatus) -> bool {
    status == BlackjackStatus::WaitingForPlayer || status == BlackjackStatus::PlayerTurn
        || status == BlackjackStatus::DealerTurn
}

fn is_in_play(status: BlackjackStatus) -> (r: bool)
    ensures
        r == in_play(status),
{
    status == BlackjackStatus::WaitingForPlayer || status == BlackjackStatus::PlayerTurn
        || status == BlackjackStatus::DealerTurn
}

fn one(o: Outbound) -> (r: Vec<Outbound>)
    ensures
        r@ == seq![o],
{
    let mut v: Vec<Outbound> = Vec::new();
    v.push(o);
    assert(v@ =~= seq![o]);
    v
}

/// Whether the user is busy finding a table, asking for a seat or playing.
pub open spec fn searching_blocked(st: UserStatus) -> bool {
    st == UserStatus::FindPlayChain || st == UserStatus::InMultiPlayerGame
        || st == UserStatus::InSinglePlayerGame || st == UserStatus::RequestingTableSeat
}

/// Whether the user holds a play chain from an earlier search.
pub open spec fn holds_play_chain(st: UserStatus) -> bool {
    st == UserStatus::PlayChainFound || st == UserStatus::RequestTableSeatFail
}

/// The parts of the chain that a user's table operations leave alone.
pub open spec fn same_tables(s: &BlackjackChain, t: &BlackjackChain) -> bool {
    &&& t.single_player_game == s.single_player_game
    &&& t.game == s.game
    &&& t.bankroll == s.bankroll
    &&& t.profile == s.profile
}

pub open spec fn find_play_chain_post(s: &BlackjackChain, t: &BlackjackChain, r: Result<Vec<Outbound>, GameError>) -> bool {
    let st = s.user_status;
    &&& searching_blocked(st) ==> r == Err::<Vec<Outbound>, GameError>(GameError::InvalidTransition)
    &&& !searching_blocked(st) && holds_play_chain(st) && s.user_play_chain is None
        ==> r == Err::<Vec<Outbound>, GameError>(GameError::ConsistencyViolation)
    &&& r is Ok <==> !searching_blocked(st) && !(holds_play_chain(st) && s.user_play_chain is None)
        && s.parameters.public_chains@.len() > 0
    &&& r is Err ==> r == Err::<Vec<Outbound>, GameError>(GameError::InvalidTransition)
        || r == Err::<Vec<Outbound>, GameError>(GameError::ConsistencyViolation)
        || r == Err::<Vec<Outbound>, GameError>(GameError::ResourceExhausted)
    &&& r is Ok ==> {
        let out = r->Ok_0@;
        &&& t.user_status == UserStatus::FindPlayChain
        &&& t.find_play_chain_retry == 0
        &&& holds_play_chain(st) ==> t.user_play_chain is None && out.len() == 2
            && out[0] == Outbound::Send { destination: s.user_play_chain->0, message: BlackjackMessage::Unsubscribe }
        &&& !holds_play_chain(st) ==> t.user_play_chain == s.user_play_chain && out.len() == 1
        &&& out.last() matches Outbound::Send { destination, message }
            && message == BlackjackMessage::FindPlayChain
            && s.parameters.public_chains@.contains(destination)
    }
    &&& same_tables(s, t)
}

pub open spec fn request_table_seat_post(s: &BlackjackChain, t: &BlackjackChain, seat_id: u8, r: Result<Vec<Outbound>, GameError>) -> bool {
    &&& r is Ok <==> s.user_play_chain is Some && valid_table_seat(seat_id) && holds_play_chain(s.user_status)
    &&& r is Err ==> r == Err::<Vec<Outbound>, GameError>(GameError::InvalidTransition) && t.user_status == s.user_status
    &&& r is Ok ==> {
        &&& t.user_status == UserStatus::RequestingTableSeat
        &&& r->Ok_0@ == seq![Outbound::Send {
            destination: s.user_play_chain->0,
            message: BlackjackMessage::RequestTableSeat { seat_id, balance: s.profile.balance },
        }]
    }
    &&& same_tables(s, t)
}

pub open spec fn bet_post(s: &BlackjackChain, t: &BlackjackChain, amount: Amount, now: u64, r: Result<Vec<Outbound>, GameError>) -> bool {
    &&& s.user_status != UserStatus::InSinglePlayerGame && s.user_status != UserStatus::InMultiPlayerGame
        ==> r == Err::<Vec<Outbound>, GameError>(GameError::InvalidTransition)
    &&& s.user_status == UserStatus::InSinglePlayerGame && in_play(s.single_player_game.status)
        ==> r == Err::<Vec<Outbound>, GameError>(GameError::InvalidTransition)
    &&& s.user_status == UserStatus::InMultiPlayerGame && in_play(s.channel_game_state.status)
        ==> r == Err::<Vec<Outbound>, GameError>(GameError::InvalidTransition)
    &&& s.user_status == UserStatus::InMultiPlayerGame && !in_play(s.channel_game_state.status)
        ==> r is Ok && r->Ok_0@ == Seq::<Outbound>::empty() && t.single_player_game == s.single_player_game
    &&& s.user_status == UserStatus::InSinglePlayerGame && s.single_player_game.status == BlackjackStatus::WaitingForBets ==> {
        &&& (r is Ok <==> bet_check(s, amount) is Ok)
        &&& r is Err ==> r == Err::<Vec<Outbound>, GameError>(bet_check(s, amount)->Err_0)
        &&& r is Ok ==> t.single_player_game.sequence == next_seq(s.single_player_game.sequence)
            && seated_player(t).bet.attos == seated_player(s).bet.attos + amount.attos
            && r->Ok_0@ == Seq::<Outbound>::empty()
    }
    &&& s.user_status == UserStatus::InSinglePlayerGame && s.single_player_game.status == BlackjackStatus::RoundEnded && seated(s) ==> {
        let b = refreshed_balance(s, now);
        r is Ok <==> b > 0 && amount.attos <= b && (amount.attos == 0 || amount.attos >= min_bet_for(b))
    }
    &&& s.user_status == UserStatus::InSinglePlayerGame && s.single_player_game.status == BlackjackStatus::RoundEnded && r is Ok ==> {
        &&& t.single_player_game.status == BlackjackStatus::WaitingForBets
        &&& t.single_player_game.dealer.hand@ == Seq::<u8>::empty()
        &&& t.single_player_game.pot.attos == 0
        &&& seated_player(t).hand@ == Seq::<u8>::empty()
        &&& seated_player(t).bet == amount
        &&& seated_player(t).balance == t.profile.balance
        &&& t.profile.balance.attos == refreshed_balance(s, now)
        &&& t.profile.bet_data is Some && bet_data_matches(t.profile.balance, t.profile.bet_data->0)
        &&& t.bankroll.accounts@ == s.bankroll.accounts@.insert(s.owner, t.profile.balance)
        &&& t.bankroll.daily_bonus == crate::bankroll::bonus_after(s.bankroll.daily_bonus, s.parameters.bonus, now)
        &&& t.bankroll.same_logs_and_pool(&s.bankroll)
        &&& t.single_player_game.sequence == next_seq(s.single_player_game.sequence)
        &&& r->Ok_0@ == Seq::<Outbound>::empty()
    }
    &&& t.user_status == s.user_status
}

pub open spec fn deal_bet_post(s: &BlackjackChain, t: &BlackjackChain, now: u64, r: Result<Vec<Outbound>, GameError>) -> bool {
    &&& s.user_status != UserStatus::InSinglePlayerGame || s.single_player_game.status != BlackjackStatus::WaitingForBets
        ==> r == Err::<Vec<Outbound>, GameError>(GameError::InvalidTransition)
    &&& s.user_status == UserStatus::InSinglePlayerGame && s.single_player_game.status == BlackjackStatus::WaitingForBets
        && deal_check(s) is Err ==> r == Err::<Vec<Outbound>, GameError>(deal_check(s)->Err_0)
    &&& r is Ok ==> {
        let d = s.single_player_game.deck.cards@;
        let n = d.len();
        &&& t.single_player_game.sequence == next_seq(s.single_player_game.sequence)
        &&& t.single_player_game.dealer.hand@ == s.single_player_game.dealer.hand@ + seq![d[n - 1], d[n - 2]]
        &&& seated_player(t).hand@ == seated_player(s).hand@ + seq![d[n - 3], d[n - 4]]
        &&& (t.single_player_game.status == BlackjackStatus::PlayerTurn
            <==> initial_outcome(hand_value(t.single_player_game.dealer.hand@), hand_value(seated_player(t).hand@)) == GameOutcome::Continue)
        &&& t.single_player_game.status == BlackjackStatus::PlayerTurn || t.single_player_game.status == BlackjackStatus::RoundEnded
        &&& t.single_player_game.status == BlackjackStatus::PlayerTurn
            ==> t.single_player_game.time_limit == deadline(now, ONE_MINUTE_DURATION_IN_MICROS) && r->Ok_0@ == Seq::<Outbound>::empty()
        &&& ({
            let p = seated_player(s);
            let min_bet = s.profile.bet_data->0.min_bet;
            let bet = if p.bet.attos == 0 { min_bet } else { p.bet };
            let locked = sat_sub(p.balance.attos as nat, bet.attos as nat);
            let pool = sat_add(s.blackjack_token_pool.attos as nat, bet.attos as nat);
            let accounts = s.bankroll.accounts@.insert(s.owner, Amount { attos: locked as u128 });
            let outcome = initial_outcome(hand_value(t.single_player_game.dealer.hand@), hand_value(seated_player(t).hand@));
            &&& seated_player(t).bet == bet
            &&& t.single_player_game.pot.attos == sat_add(s.single_player_game.pot.attos as nat, bet.attos as nat)
            &&& outcome == GameOutcome::Continue ==> {
                &&& t.profile.balance.attos == locked
                &&& seated_player(t).balance.attos == locked
                &&& t.blackjack_token_pool.attos == pool
                &&& t.bankroll.accounts@ == accounts
                &&& t.bankroll.debt_log@ == s.bankroll.debt_log@
            }
            &&& outcome != GameOutcome::Continue ==> settled(s, t, outcome, bet.attos as nat, locked, pool, accounts, s.bankroll.debt_log@, now, r)
        })
    }
    &&& s.user_status == UserStatus::InSinglePlayerGame && s.single_player_game.status == BlackjackStatus::WaitingForBets
        && deal_check(s) is Ok && s.token_pool_address is Some ==> r is Ok
    &&& t.user_status == s.user_status
}

pub open spec fn hit_post(s: &BlackjackChain, t: &BlackjackChain, now: u64, r: Result<Vec<Outbound>, GameError>) -> bool {
    let allowed = s.user_status == UserStatus::InSinglePlayerGame && s.single_player_game.status == BlackjackStatus::PlayerTurn;
    &&& !allowed ==> r == Err::<Vec<Outbound>, GameError>(GameError::InvalidTransition)
    &&& allowed && !seated(s) ==> r == Err::<Vec<Outbound>, GameError>(GameError::ConsistencyViolation)
    &&& allowed && seated(s) && s.single_player_game.deck.cards@.len() == 0
        ==> r == Err::<Vec<Outbound>, GameError>(GameError::ResourceExhausted)
    &&& r is Ok ==> {
        let v = hand_value(seated_player(t).hand@);
        &&& hit_step(s, t)
        &&& seated_player(t).hand@ == seated_player(s).hand@.push(s.single_player_game.deck.cards@.last())
        &&& (t.single_player_game.status == BlackjackStatus::PlayerTurn <==> v < 21)
        &&& v < 21 ==> t.single_player_game.time_limit == deadline(now, ONE_MINUTE_DURATION_IN_MICROS)
            && r->Ok_0@ == Seq::<Outbound>::empty()
            && t.profile == s.profile && t.blackjack_token_pool == s.blackjack_token_pool && t.bankroll == s.bankroll
        &&& v >= 21 ==> settled(
            s,
            t,
            hit_outcome(v),
            seated_player(s).bet.attos as nat,
            s.profile.balance.attos as nat,
            s.blackjack_token_pool.attos as nat,
            s.bankroll.accounts@,
            s.bankroll.debt_log@,
            now,
            r,
        )
    }
    &&& allowed && seated(s) && s.single_player_game.deck.cards@.len() > 0 && s.token_pool_address is Some ==> r is Ok
    &&& t.user_status == s.user_status
}

pub open spec fn stand_post(s: &BlackjackChain, t: &BlackjackChain, now: u64, r: Result<Vec<Outbound>, GameError>) -> bool {
    let allowed = s.user_status == UserStatus::InSinglePlayerGame && s.single_player_game.status == BlackjackStatus::PlayerTurn;
    let drawn = dealer_draws(s.single_player_game.dealer.hand@, s.single_player_game.deck.cards@);
    &&& !allowed ==> r == Err::<Vec<Outbound>, GameError>(GameError::InvalidTransition)
    &&& allowed && hand_value(drawn.0) < 17 ==> r == Err::<Vec<Outbound>, GameError>(GameError::ResourceExhausted)
    &&& allowed && hand_value(drawn.0) >= 17 && !seated(s) ==> r == Err::<Vec<Outbound>, GameError>(GameError::ConsistencyViolation)
    &&& r is Ok ==> {
        &&& t.single_player_game.sequence == next_seq(s.single_player_game.sequence)
        &&& t.single_player_game.status == BlackjackStatus::RoundEnded
        &&& t.single_player_game.dealer.hand@ == drawn.0
        &&& seated_player(t).hand@ == seated_player(s).hand@
        &&& settled(
            s,
            t,
            stand_outcome(hand_value(drawn.0), hand_value(seated_player(s).hand@)),
            seated_player(s).bet.attos as nat,
            s.profile.balance.attos as nat,
            s.blackjack_token_pool.attos as nat,
            s.bankroll.accounts@,
            s.bankroll.debt_log@,
            now,
            r,
        )
    }
    &&& allowed && hand_value(drawn.0) >= 17 && seated(s) && s.token_pool_address is Some ==> r is Ok
    &&& t.user_status == s.user_status
}

pub open spec fn start_post(s: &BlackjackChain, t: &BlackjackChain, now: u64, r: Result<Vec<Outbound>, GameError>) -> bool {
    &&& s.user_status != UserStatus::Idle && s.user_status != UserStatus::PlayChainUnavailable
        ==> r == Err::<Vec<Outbound>, GameError>(GameError::InvalidTransition)
    &&& r is Ok <==> (s.user_status == UserStatus::Idle || s.user_status == UserStatus::PlayChainUnavailable)
        && s.parameters.public_chains@.len() > 0
    &&& r is Err ==> r == Err::<Vec<Outbound>, GameError>(GameError::InvalidTransition)
        || r == Err::<Vec<Outbound>, GameError>(GameError::ResourceExhausted)
    &&& r is Ok ==> {
        let g = t.single_player_game;
        let p = g.players@[SINGLE_PLAYER_SEAT];
        &&& t.user_status == UserStatus::InSinglePlayerGame
        &&& t.profile.seat == Some(SINGLE_PLAYER_SEAT)
        &&& t.profile.balance.attos == sat_add(
            account_of(s.bankroll.accounts@, s.owner),
            bonus_due(s.bankroll.daily_bonus, s.parameters.bonus, now),
        )
        &&& t.profile.bet_data is Some && bet_data_matches(t.profile.balance, t.profile.bet_data->0)
        &&& g.status == BlackjackStatus::WaitingForBets
        &&& g.sequence == 1
        &&& g.deck.cards@ == fresh_shoe(now, SHOE_DECKS as nat)
        &&& g.players@.dom() == set![SINGLE_PLAYER_SEAT]
        &&& p.balance == t.profile.balance && p.bet.attos == 0 && p.hand@ == Seq::<u8>::empty()
        &&& t.token_pool_address is Some
        &&& s.parameters.public_chains@.contains(t.token_pool_address->0)
        &&& r->Ok_0@ == Seq::<Outbound>::empty()
    }
}

pub open spec fn exit_post(s: &BlackjackChain, t: &BlackjackChain, now: u64, r: Result<Vec<Outbound>, GameError>) -> bool {
    &&& r is Ok <==> s.user_status == UserStatus::InSinglePlayerGame && !in_play(s.single_player_game.status)
    &&& r is Err ==> r == Err::<Vec<Outbound>, GameError>(GameError::InvalidTransition)
    &&& r is Ok ==> {
        &&& t.user_status == UserStatus::Idle
        &&& t.single_player_game.players@ == Map::<u8, Player>::empty()
        &&& t.single_player_game.status == BlackjackStatus::WaitingForPlayer
        &&& t.profile.balance.attos == sat_add(
            account_of(s.bankroll.accounts@, s.owner),
            bonus_due(s.bankroll.daily_bonus, s.parameters.bonus, now),
        )
        &&& r->Ok_0@ == Seq::<Outbound>::empty()
    }
}

pub open spec fn add_play_chain_post(s: &BlackjackChain, target: ChainId, play: ChainId, r: Result<Vec<Outbound>, GameError>) -> bool {
    &&& s.chain_id != s.parameters.master_chain ==> r == Err::<Vec<Outbound>, GameError>(GameError::AuthorizationFailure)
    &&& s.chain_id == s.parameters.master_chain ==> r is Ok && r->Ok_0@ == seq![Outbound::Send {
        destination: target,
        message: BlackjackMessage::AddPlayChain { chain_id: play },
    }]
}

pub open spec fn mint_token_post(s: &BlackjackChain, chain_id: ChainId, amount: Amount, r: Result<Vec<Outbound>, GameError>) -> bool {
    &&& s.chain_id != s.parameters.master_chain ==> r == Err::<Vec<Outbound>, GameError>(GameError::AuthorizationFailure)
    &&& s.chain_id == s.parameters.master_chain ==> r is Ok && r->Ok_0@ == seq![Outbound::Ledger(BankrollSend {
        destination: chain_id,
        message: BankrollMessage::ReceivedToken { amount },
    })]
}

impl BlackjackChain {
    /// Starts a search for a play chain at a random public chain, first
    /// unsubscribing from a play chain found earlier.
    pub fn find_play_chain(&mut self, now: u64) -> (r: Result<Vec<Outbound>, GameError>)
        ensures
            find_play_chain_post(old(self), final(self), r),
    {
        let st = self.user_status;
        if st == UserStatus::FindPlayChain || st == UserStatus::InMultiPlayerGame || st == UserStatus::InSinglePlayerGame
            || st == UserStatus::RequestingTableSeat {
            return Err(GameError::InvalidTransition);
        }
        let mut out: Vec<Outbound> = Vec::new();
        if st == UserStatus::PlayChainFound || st == UserStatus::RequestTableSeatFail {
            match self.user_play_chain {
                Some(play) => {
                    out.push(Outbound::Send { destination: play, message: BlackjackMessage::Unsubscribe });
                },
                None => {
                    return Err(GameError::ConsistencyViolation);
                },
            }
        }
        let chain = match self.get_public_chain(now) {
            Ok(c) => c,
            Err(e) => {
                return Err(e);
            },
        };
        if st == UserStatus::PlayChainFound || st == UserStatus::RequestTableSeatFail {
            self.user_play_chain = None;
        }
        self.user_status = UserStatus::FindPlayChain;
        self.find_play_chain_retry = 0;
        out.push(Outbound::Send { destination: chain, message: BlackjackMessage::FindPlayChain });
        Ok(out)
    }

    /// Asks the found play chain for a table seat (1..=3), with the profile's balance.
    pub fn request_table_seat(&mut self, seat_id: u8) -> (r: Result<Vec<Outbound>, GameError>)
        ensures
            request_table_seat_post(old(self), final(self), seat_id, r),
    {
        let play = match self.user_play_chain {
            Some(c) => c,
            None => {
                return Err(GameError::InvalidTransition);
            },
        };
        if seat_id == 0 || seat_id > MAX_BLACKJACK_PLAYERS {
            return Err(GameError::InvalidTransition);
        }
        if self.user_status != UserStatus::PlayChainFound && self.user_status != UserStatus::RequestTableSeatFail {
            return Err(GameError::InvalidTransition);
        }
        self.user_status = UserStatus::RequestingTableSeat;
        Ok(one(Outbound::Send {
            destination: play,
            message: BlackjackMessage::RequestTableSeat { seat_id, balance: self.profile.balance },
        }))
    }

    /// Places a bet in the user's game. In a single-player game that has ended,
    /// the balance is first refreshed and the table cleared for the next round.
    /// Betting at a shared table is not handled here and changes nothing.
    pub fn bet(&mut self, amount: Amount, now: u64) -> (r: Result<Vec<Outbound>, GameError>)
        requires
            old(self).wf(),
        ensures
            final(self).wf(),
            bet_post(old(self), final(self), amount, now, r),
    {
        if self.user_status == UserStatus::InMultiPlayerGame {
            if is_in_play(self.channel_game_state.status) {
                return Err(GameError::InvalidTransition);
            }
            return Ok(Vec::new());
        }
        if self.user_status != UserStatus::InSinglePlayerGame {
            return Err(GameError::InvalidTransition);
        }
        if is_in_play(self.single_player_game.status) {
            return Err(GameError::InvalidTransition);
        }
        if self.single_player_game.status == BlackjackStatus::RoundEnded {
            self.update_profile_balance_and_bet_data(now);
            proof {
                let b = self.profile.balance.attos as nat;
                if b >= crate::chipset::floor_attos() {
                    crate::chipset::lemma_chip_base(b);
                }
            }
            match self.prepare_next_single_player_bet_round() {
                Ok(()) => {},
                Err(e) => {
                    return Err(e);
                },
            }
        }
        match self.player_bet(amount) {
            Ok(()) => Ok(Vec::new()),
            Err(e) => Err(e),
        }
    }

    /// Settles a round by its outcome: a win or a draw pays out, a loss hands the pool on.
    fn settle(&mut self, outcome: GameOutcome, now: u64) -> (r: Result<Vec<Outbound>, GameError>)
        requires
            old(self).wf(),
            outcome != GameOutcome::Continue,
        ensures
            final(self).wf(),
            r is Ok ==> final(self).single_player_game.sequence == next_seq(old(self).single_player_game.sequence)
                && final(self).single_player_game.status == BlackjackStatus::RoundEnded
                && seated_player(final(self)).hand@ == seated_player(old(self)).hand@
                && seated_player(final(self)).bet == seated_player(old(self)).bet
                && settled(
                    old(self),
                    final(self),
                    outcome,
                    seated_player(old(self)).bet.attos as nat,
                    old(self).profile.balance.attos as nat,
                    old(self).blackjack_token_pool.attos as nat,
                    old(self).bankroll.accounts@,
                    old(self).bankroll.debt_log@,
                    now,
                    r,
                ),
            (outcome == GameOutcome::DealerWins || seated(old(self))) && old(self).token_pool_address is Some ==> r is Ok,
            final(self).user_status == old(self).user_status,
            final(self).profile.seat == old(self).profile.seat,
            final(self).single_player_game.dealer == old(self).single_player_game.dealer,
            final(self).single_player_game.pot == old(self).single_player_game.pot,
    {
        match outcome {
            GameOutcome::PlayerWins => self.handle_player_win(now),
            GameOutcome::Draw => self.handle_player_draw(now),
            _ => self.handle_player_bust(now),
        }
    }

    /// Moves the round on without settling it: the sequence advances and the
    /// player gets another minute.
    fn continue_round(&mut self, now: u64)
        ensures
            final(self).single_player_game.sequence == next_seq(old(self).single_player_game.sequence),
            final(self).single_player_game.status == old(self).single_player_game.status,
            final(self).single_player_game.deck == old(self).single_player_game.deck,
            final(self).single_player_game.count == old(self).single_player_game.count,
            final(self).single_player_game.time_limit == deadline(now, ONE_MINUTE_DURATION_IN_MICROS),
            final(self).single_player_game.players@ == old(self).single_player_game.players@,
            final(self).single_player_game.dealer == old(self).single_player_game.dealer,
            final(self).profile == old(self).profile,
            final(self).blackjack_token_pool == old(self).blackjack_token_pool,
            final(self).bankroll == old(self).bankroll,
            final(self).single_player_game.pot == old(self).single_player_game.pot,
            final(self).game == old(self).game,
            final(self).user_status == old(self).user_status,
    {
        self.single_player_game.sequence = self.single_player_game.sequence.saturating_add(1);
        self.single_player_game.set_time_limit(now, ONE_MINUTE_DURATION_IN_MICROS);
    }

    /// Deals the first cards of a single-player round and settles it at once
    /// where a natural decides it.
    pub fn deal_bet(&mut self, now: u64) -> (r: Result<Vec<Outbound>, GameError>)
        requires
            old(self).wf(),
        ensures
            final(self).wf(),
            deal_bet_post(old(self), final(self), now, r),
    {
        if self.user_status != UserStatus::InSinglePlayerGame {
            return Err(GameError::InvalidTransition);
        }
        if self.single_player_game.status != BlackjackStatus::WaitingForBets {
            return Err(GameError::InvalidTransition);
        }
        let outcome = match self.deal_draw_single_player() {
            Ok(o) => o,
            Err(e) => {
                return Err(e);
            },
        };
        self.check_deck_single_player(now);
        if outcome == GameOutcome::Continue {
            self.continue_round(now);
            Ok(Vec::new())
        } else {
            self.settle(outcome, now)
        }
    }

    /// Deals the single player one more card; a bust or 21 settles the round.
    pub fn hit(&mut self, now: u64) -> (r: Result<Vec<Outbound>, GameError>)
        requires
            old(self).wf(),
        ensures
            final(self).wf(),
            hit_post(old(self), final(self), now, r),
    {
        if self.user_status != UserStatus::InSinglePlayerGame {
            return Err(GameError::InvalidTransition);
        }
        if self.single_player_game.status != BlackjackStatus::PlayerTurn {
            return Err(GameError::InvalidTransition);
        }
        let outcome = match self.hit_single_player() {
            Ok(o) => o,
            Err(e) => {
                return Err(e);
            },
        };
        self.check_deck_single_player(now);
        if outcome == GameOutcome::Continue {
            self.continue_round(now);
            Ok(Vec::new())
        } else {
            self.settle(outcome, now)
        }
    }

    /// Ends the single player's turn: the dealer draws and the round is settled.
    pub fn stand(&mut self, now: u64) -> (r: Result<Vec<Outbound>, GameError>)
        requires
            old(self).wf(),
        ensures
            final(self).wf(),
            stand_post(old(self), final(self), now, r),
    {
        if self.user_status != UserStatus::InSinglePlayerGame {
            return Err(GameError::InvalidTransition);
        }
        if self.single_player_game.status != BlackjackStatus::PlayerTurn {
            return Err(GameError::InvalidTransition);
        }
        let outcome = match self.stand_single_player() {
            Ok(o) => o,
            Err(e) => {
                return Err(e);
            },
        };
        self.check_deck_single_player(now);
        if outcome == GameOutcome::Continue {
            return Err(GameError::ConsistencyViolation);
        }
        self.settle(outcome, now)
    }

    /// Starts a single-player game from an idle user: refreshes the balance,
    /// seats the user on a fresh round and picks the pool chain.
    pub fn start_single_player_game(&mut self, now: u64) -> (r: Result<Vec<Outbound>, GameError>)
        requires
            old(self).wf(),
        ensures
            final(self).wf(),
            start_post(old(self), final(self), now, r),
    {
        if self.user_status != UserStatus::Idle && self.user_status != UserStatus::PlayChainUnavailable {
            return Err(GameError::InvalidTransition);
        }
        let pool_chain = match self.get_public_chain(now) {
            Ok(c) => c,
            Err(e) => {
                return Err(e);
            },
        };
        self.update_profile_balance_and_bet_data(now);
        self.add_user_to_new_single_player_game(now);
        self.token_pool_address = Some(pool_chain);
        Ok(Vec::new())
    }

    /// Leaves a single-player game between rounds: the balance is refreshed, the
    /// round dropped and the user idle again.
    pub fn exit_single_player_game(&mut self, now: u64) -> (r: Result<Vec<Outbound>, GameError>)
        requires
            old(self).wf(),
        ensures
            final(self).wf(),
            exit_post(old(self), final(self), now, r),
    {
        if self.user_status != UserStatus::InSinglePlayerGame {
            return Err(GameError::InvalidTransition);
        }
        if is_in_play(self.single_player_game.status) {
            return Err(GameError::InvalidTransition);
        }
        self.update_profile_balance_and_bet_data(now);
        self.user_status = UserStatus::Idle;
        self.single_player_game = BlackjackGame::new(Deck::empty());
        self.player_seat_map.clear();
        Ok(Vec::new())
    }

    /// Master role: asks a public chain to register a new play chain.
    pub fn add_play_chain(&self, target_public_chain: ChainId, play_chain_id: ChainId) -> (r: Result<Vec<Outbound>, GameError>)
        ensures
            add_play_chain_post(self, target_public_chain, play_chain_id, r),
    {
        if self.chain_id != self.parameters.master_chain {
            return Err(GameError::AuthorizationFailure);
        }
        Ok(one(Outbound::Send {
            destination: target_public_chain,
            message: BlackjackMessage::AddPlayChain { chain_id: play_chain_id },
        }))
    }

    /// Master role: mints tokens on a chain through the ledger.
    pub fn mint_token(&self, chain_id: ChainId, amount: Amount) -> (r: Result<Vec<Outbound>, GameError>)
        ensures
            mint_token_post(self, chain_id, amount, r),
    {
        match self.bankroll.mint_token(chain_id, amount, self.chain_id, self.parameters.master_chain) {
            Ok(send) => Ok(one(Outbound::Ledger(send))),
            Err(e) => Err(e),
        }
    }

    /// Carries out one operation of this chain's user or master.
    pub fn execute_operation(&mut self, operation: BlackjackOperation, now: u64) -> (r: Result<Vec<Outbound>, GameError>)
        requires
            old(self).wf(),
        ensures
            final(self).wf(),
            match operation {
                BlackjackOperation::SubscribeTo { chain_id } => r is Ok && same_tables(old(self), final(self))
                    && r->Ok_0@ == seq![Outbound::Send { destination: chain_id, message: BlackjackMessage::Subscribe }],
                BlackjackOperation::UnsubscribeFrom { chain_id } => r is Ok && same_tables(old(self), final(self))
                    && r->Ok_0@ == seq![Outbound::Send { destination: chain_id, message: BlackjackMessage::Unsubscribe }],
                BlackjackOperation::FindPlayChain => find_play_chain_post(old(self), final(self), r),
                BlackjackOperation::RequestTableSeat { seat_id } => request_table_seat_post(old(self), final(self), seat_id, r),
                BlackjackOperation::GetBalance => r is Ok && r->Ok_0@ == Seq::<Outbound>::empty()
                    && final(self).bankroll.accounts@ == old(self).bankroll.accounts@.insert(old(self).owner, Amount {
                        attos: sat_add(
                            account_of(old(self).bankroll.accounts@, old(self).owner),
                            bonus_due(old(self).bankroll.daily_bonus, old(self).parameters.bonus, now),
                        ) as u128,
                    })
                    && final(self).bankroll.daily_bonus == crate::bankroll::bonus_after(
                        old(self).bankroll.daily_bonus,
                        old(self).parameters.bonus,
                        now,
                    ),
                BlackjackOperation::Bet { amount } => bet_post(old(self), final(self), amount, now, r),
                BlackjackOperation::DealBet => deal_bet_post(old(self), final(self), now, r),
                BlackjackOperation::Hit => hit_post(old(self), final(self), now, r),
                BlackjackOperation::Stand => stand_post(old(self), final(self), now, r),
                BlackjackOperation::StartSinglePlayerGame => start_post(old(self), final(self), now, r),
                BlackjackOperation::ExitSinglePlayerGame => exit_post(old(self), final(self), now, r),
                BlackjackOperation::AddPlayChain { target_public_chain, play_chain_id } =>
                    add_play_chain_post(old(self), target_public_chain, play_chain_id, r) && *final(self) == *old(self),
                BlackjackOperation::MintToken { chain_id, amount } => mint_token_post(old(self), chain_id, amount, r)
                    && *final(self) == *old(self),
            },
    {
        match operation {
            BlackjackOperation::SubscribeTo { chain_id } => {
                Ok(one(Outbound::Send { destination: chain_id, message: BlackjackMessage::Subscribe }))
            },
            BlackjackOperation::UnsubscribeFrom { chain_id } => {
                Ok(one(Outbound::Send { destination: chain_id, message: BlackjackMessage::Unsubscribe }))
            },
            BlackjackOperation::FindPlayChain => self.find_play_chain(now),
            BlackjackOperation::RequestTableSeat { seat_id } => self.request_table_seat(seat_id),
            BlackjackOperation::GetBalance => {
                let bonus = self.parameters.bonus;
                let _ = self.bankroll.balance(self.owner, bonus, now);
                Ok(Vec::new())
            },
            BlackjackOperation::Bet { amount } => self.bet(amount, now),
            BlackjackOperation::DealBet => self.deal_bet(now),
            BlackjackOperation::Hit => self.hit(now),
            BlackjackOperation::Stand => self.stand(now),
            BlackjackOperation::StartSinglePlayerGame => self.start_single_player_game(now),
            BlackjackOperation::ExitSinglePlayerGame => self.exit_single_player_game(now),
            BlackjackOperation::AddPlayChain { target_public_chain, play_chain_id } => {
                self.add_play_chain(target_public_chain, play_chain_id)
            },
            BlackjackOperation::MintToken { chain_id, amount } => self.mint_token(chain_id, amount),
        }
    }

    /// Handles one message from another chain.
    pub fn execute_message(&mut self, origin: ChainId, message: BlackjackMessage, now: u64) -> (r: Result<Vec<Outbound>, GameError>)
        requires
            old(self).wf(),
        ensures
            final(self).wf(),
            match message {
                BlackjackMessage::FindPlayChain => r is Ok && same_tables(old(self), final(self)) && r->Ok_0@ == seq![Outbound::Send {
                    destination: origin,
                    message: BlackjackMessage::FindPlayChainResult { chain_id: first_available(old(self).play_chain_set@, 0) },
                }],
                BlackjackMessage::AddPlayChain { chain_id } => {
                    &&& origin != old(self).parameters.master_chain ==> r == Err::<Vec<Outbound>, GameError>(GameError::AuthorizationFailure)
                    &&& origin == old(self).parameters.master_chain ==> {
                        &&& r is Ok && r->Ok_0@ == Seq::<Outbound>::empty()
                        &&& forall|k: u8| #[trigger] bucket(final(self).play_chain_set@, k) == bucket_after(
                            old(self).play_chain_set@,
                            old(self).play_chain_status@,
                            chain_id,
                            0,
                            MutationReason::AddNew,
                            k,
                        )
                        &&& final(self).play_chain_status@ == old(self).play_chain_status@.insert(chain_id.id, 0)
                        &&& registry_wf(old(self).play_chain_set@, old(self).play_chain_status@)
                            ==> registry_wf(final(self).play_chain_set@, final(self).play_chain_status@)
                    }
                },
                BlackjackMessage::Subscribe => r is Ok && same_tables(old(self), final(self))
                    && r->Ok_0@ == seq![Outbound::AddSubscriber(origin)],
                BlackjackMessage::Unsubscribe => r is Ok && same_tables(old(self), final(self))
                    && r->Ok_0@ == seq![Outbound::RemoveSubscriber(origin)],
                BlackjackMessage::RequestTableSeatResult { seat_id, success } => {
                    &&& r is Ok && r->Ok_0@ == Seq::<Outbound>::empty()
                    &&& success ==> final(self).user_status == UserStatus::InMultiPlayerGame
                        && final(self).profile.seat == Some(seat_id)
                        && final(self).player_seat_map@.contains_key(seat_id)
                        && final(self).player_seat_map@[seat_id].seat_id == seat_id
                        && final(self).player_seat_map@[seat_id].balance == old(self).profile.balance
                        && final(self).player_seat_map@[seat_id].bet.attos == 0
                        && final(self).player_seat_map@[seat_id].hand@ == Seq::<u8>::empty()
                        && final(self).player_seat_map@[seat_id].chain_id == Some(old(self).chain_id)
                        && !final(self).player_seat_map@[seat_id].current_player
                    &&& !success ==> final(self).user_status == UserStatus::RequestTableSeatFail
                        && final(self).profile == old(self).profile
                        && final(self).player_seat_map@ == old(self).player_seat_map@
                    &&& final(self).user_play_chain == old(self).user_play_chain
                    &&& final(self).bankroll == old(self).bankroll
                },
                BlackjackMessage::FindPlayChainResult { chain_id } => {
                    &&& chain_id is None ==> find_result_post(old(self), final(self), chain_id, r)
                    &&& chain_id is Some ==> {
                        &&& r is Ok
                        &&& final(self).user_status == UserStatus::PlayChainFound
                        &&& final(self).find_play_chain_retry == 0
                        &&& final(self).user_play_chain == chain_id
                        &&& r->Ok_0@ == seq![Outbound::Send { destination: chain_id->0, message: BlackjackMessage::Subscribe }]
                        &&& final(self).profile.balance.attos == sat_add(
                            account_of(old(self).bankroll.accounts@, old(self).owner),
                            bonus_due(old(self).bankroll.daily_bonus, old(self).parameters.bonus, now),
                        )
                        &&& final(self).profile.bet_data is Some
                        &&& bet_data_matches(final(self).profile.balance, final(self).profile.bet_data->0)
                    }
                },
                BlackjackMessage::RequestTableSeat { seat_id, balance } => r is Ok
                    && seat_request_post(old(self), final(self), seat_id, balance, origin, r->Ok_0@),
            },
    {
        match message {
            BlackjackMessage::FindPlayChainResult { chain_id } => {
                let out = match self.process_find_play_chain_result(chain_id, now) {
                    Ok(out) => out,
                    Err(e) => {
                        return Err(e);
                    },
                };
                if chain_id.is_some() {
                    self.update_profile_balance_and_bet_data(now);
                }
                Ok(out)
            },
            BlackjackMessage::RequestTableSeatResult { seat_id, success } => {
                if success {
                    self.add_user_to_new_multi_player_game(seat_id);
                } else {
                    self.user_status = UserStatus::RequestTableSeatFail;
                }
                Ok(Vec::new())
            },
            BlackjackMessage::FindPlayChain => {
                let found = self.search_available_play_chain();
                Ok(one(Outbound::Send { destination: origin, message: BlackjackMessage::FindPlayChainResult { chain_id: found } }))
            },
            BlackjackMessage::AddPlayChain { chain_id } => {
                if origin != self.parameters.master_chain {
                    return Err(GameError::AuthorizationFailure);
                }
                self.play_chain_manager(chain_id, 0, MutationReason::AddNew);
                Ok(Vec::new())
            },
            BlackjackMessage::Subscribe => Ok(one(Outbound::AddSubscriber(origin))),
            BlackjackMessage::Unsubscribe => Ok(one(Outbound::RemoveSubscriber(origin))),
            BlackjackMessage::RequestTableSeat { seat_id, balance } => {
                Ok(self.request_table_seat_manager(seat_id, balance, origin))
            },
        }
    }
}

} // verus!
