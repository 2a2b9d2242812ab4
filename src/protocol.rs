use vstd::prelude::*;
use crate::amount::Amount;
use crate::blackjack::{BlackjackStatus, UserStatus, MAX_BLACKJACK_PLAYERS};
use crate::chain::{ChainId, GameError};
use crate::player_dealer::Player;
use crate::state::{BlackjackChain, BlackjackEvent, BlackjackMessage, Outbound};
use crate::table::next_seq;

verus! {

broadcast use vstd::std_specs::hash::group_hash_axioms;

/// How many times a user asks another public chain before giving up.
pub const FIND_PLAY_CHAIN_RETRIES: u8 = 3;

/// A successful Hit: the round's sequence moves on and the round is either
/// still at the player's turn or over.
pub open spec fn hit_step(s: &BlackjackChain, t: &BlackjackChain) -> bool {
    &&& t.single_player_game.sequence == next_seq(s.single_player_game.sequence)
    &&& t.single_player_game.status == BlackjackStatus::PlayerTurn || t.single_player_game.status == BlackjackStatus::RoundEnded
}

/// A table seat id: 1..=3.
pub open spec fn valid_table_seat(seat_id: u8) -> bool {
    1 <= seat_id <= MAX_BLACKJACK_PLAYERS
}

/// Whether a seat request is granted: the seat id is valid and nobody sits there.
pub open spec fn seat_granted(players: Map<u8, crate::player_dealer::Player>, seat_id: u8) -> bool {
    valid_table_seat(seat_id) && !players.contains_key(seat_id)
}

/// The state and result after a public chain's answer to a search.
pub open spec fn find_result_post(s: &BlackjackChain, t: &BlackjackChain, chain_id: Option<ChainId>, r: Result<Vec<Outbound>, GameError>) -> bool {
    &&& chain_id is Some ==> {
        &&& r is Ok
        &&& t.user_status == UserStatus::PlayChainFound
        &&& t.find_play_chain_retry == 0
        &&& t.user_play_chain == chain_id
        &&& r->Ok_0@ == seq![Outbound::Send { destination: chain_id->0, message: BlackjackMessage::Subscribe }]
    }
    &&& chain_id is None && s.find_play_chain_retry >= FIND_PLAY_CHAIN_RETRIES ==> {
        &&& r is Ok
        &&& t.user_status == UserStatus::PlayChainUnavailable
        &&& t.find_play_chain_retry == 0
        &&& t.user_play_chain is None
        &&& r->Ok_0@ == Seq::<Outbound>::empty()
    }
    &&& chain_id is None && s.find_play_chain_retry < FIND_PLAY_CHAIN_RETRIES ==> {
        &&& s.parameters.public_chains@.len() == 0 <==> r == Err::<Vec<Outbound>, GameError>(GameError::ResourceExhausted)
        &&& r is Ok ==> {
            &&& t.find_play_chain_retry == s.find_play_chain_retry + 1
            &&& t.user_status == s.user_status
            &&& t.user_play_chain == s.user_play_chain
            &&& r->Ok_0@.len() == 1
            &&& r->Ok_0@[0] matches Outbound::Send { destination, message }
                && message == BlackjackMessage::FindPlayChain
                && s.parameters.public_chains@.contains(destination)
        }
    }
    &&& chain_id is None && s.find_play_chain_retry < FIND_PLAY_CHAIN_RETRIES && s.parameters.public_chains@.len() > 0 ==> r is Ok
    &&& t.parameters == s.parameters
    &&& t.owner == s.owner
    &&& t.profile == s.profile
    &&& t.single_player_game == s.single_player_game
    &&& t.game == s.game
    &&& t.bankroll == s.bankroll
}

/// The state and answer after a seat request reaches the play chain.
pub open spec fn seat_request_post(s: &BlackjackChain, t: &BlackjackChain, seat_id: u8, balance: Amount, origin_chain_id: ChainId, r: Seq<Outbound>) -> bool {
    &&& !seat_granted(s.game.players@, seat_id) ==> {
        &&& t.game.players@ == s.game.players@
        &&& r == seq![Outbound::Send {
            destination: origin_chain_id,
            message: BlackjackMessage::RequestTableSeatResult { seat_id, success: false },
        }]
    }
    &&& seat_granted(s.game.players@, seat_id) ==> {
        let p = t.game.players@[seat_id];
        &&& t.game.players@ == s.game.players@.insert(seat_id, p)
        &&& p.seat_id == seat_id && p.balance == balance && p.bet.attos == 0
        &&& p.hand@ == Seq::<u8>::empty() && p.chain_id == Some(origin_chain_id) && !p.current_player
        &&& r.len() == 2
        &&& r[0] == Outbound::Send {
            destination: origin_chain_id,
            message: BlackjackMessage::RequestTableSeatResult { seat_id, success: true },
        }
        &&& r[1] matches Outbound::Emit(BlackjackEvent::GameState { game })
            && game.players@ == t.game.players@
            && game.deck.cards@.len() == 0
    }
    &&& t.game.wf() == s.game.wf()
    &&& t.game.deck == s.game.deck
    &&& t.game.count == s.game.count
    &&& t.single_player_game == s.single_player_game
    &&& t.profile == s.profile
    &&& t.user_status == s.user_status
    &&& t.bankroll == s.bankroll
}

impl BlackjackChain {
    /// Handles a public chain's answer to a search: a found chain is recorded and
    /// subscribed to; no chain means asking another random public chain, up to
    /// three retries, after which the user is told no play chain is available.
    pub fn process_find_play_chain_result(&mut self, chain_id: Option<ChainId>, now: u64) -> (r: Result<Vec<Outbound>, GameError>)
        ensures
            find_result_post(old(self), final(self), chain_id, r),
    {
        match chain_id {
            Some(chain) => {
                self.user_status = UserStatus::PlayChainFound;
                self.find_play_chain_retry = 0;
                self.user_play_chain = Some(chain);
                let mut out: Vec<Outbound> = Vec::new();
                out.push(Outbound::Send { destination: chain, message: BlackjackMessage::Subscribe });
                assert(out@ =~= seq![Outbound::Send { destination: chain, message: BlackjackMessage::Subscribe }]);
                Ok(out)
            },
            None => {
                let retry_count = self.find_play_chain_retry;
                if retry_count >= FIND_PLAY_CHAIN_RETRIES {
                    self.user_status = UserStatus::PlayChainUnavailable;
                    self.find_play_chain_retry = 0;
                    self.user_play_chain = None;
                    return Ok(Vec::new());
                }
                let next = match self.get_public_chain(now) {
                    Ok(c) => c,
                    Err(e) => {
                        return Err(e);
                    },
                };
                self.find_play_chain_retry = retry_count + 1;
                let mut out: Vec<Outbound> = Vec::new();
                out.push(Outbound::Send { destination: next, message: BlackjackMessage::FindPlayChain });
                Ok(out)
            },
        }
    }

    /// Records a granted table seat, with a fresh player record for it.
    pub fn add_user_to_new_multi_player_game(&mut self, seat_id: u8)
        ensures
            ({
                let p = final(self).player_seat_map@[seat_id];
                &&& final(self).player_seat_map@ == old(self).player_seat_map@.insert(seat_id, p)
                &&& p.seat_id == seat_id && p.balance == old(self).profile.balance && p.bet.attos == 0
                &&& p.hand@ == Seq::<u8>::empty() && p.chain_id == Some(old(self).chain_id) && !p.current_player
            }),
            final(self).profile.seat == Some(seat_id),
            final(self).profile.balance == old(self).profile.balance,
            final(self).user_status == UserStatus::InMultiPlayerGame,
            final(self).user_play_chain == old(self).user_play_chain,
            final(self).single_player_game == old(self).single_player_game,
            final(self).game == old(self).game,
            final(self).bankroll == old(self).bankroll,
    {
        let player = Player::new(seat_id, self.profile.balance, self.chain_id);
        self.player_seat_map.insert(seat_id, player);
        self.profile.update_seat(seat_id);
        self.user_status = UserStatus::InMultiPlayerGame;
    }

    /// Play role: seats the requester where the seat id is valid and free, and
    /// answers either way; a granted seat is also published to subscribers.
    pub fn request_table_seat_manager(&mut self, seat_id: u8, balance: Amount, origin_chain_id: ChainId) -> (r: Vec<Outbound>)
        ensures
            seat_request_post(old(self), final(self), seat_id, balance, origin_chain_id, r@),
    {
        let mut out: Vec<Outbound> = Vec::new();
        if seat_id == 0 || seat_id > MAX_BLACKJACK_PLAYERS || self.game.is_seat_taken(seat_id) {
            out.push(Outbound::Send {
                destination: origin_chain_id,
                message: BlackjackMessage::RequestTableSeatResult { seat_id, success: false },
            });
            assert(out@ =~= seq![Outbound::Send {
                destination: origin_chain_id,
                message: BlackjackMessage::RequestTableSeatResult { seat_id, success: false },
            }]);
            return out;
        }
        let player = Player::new(seat_id, balance, origin_chain_id);
        self.game.register_update_player(seat_id, player);
        out.push(Outbound::Send {
            destination: origin_chain_id,
            message: BlackjackMessage::RequestTableSeatResult { seat_id, success: true },
        });
        out.push(Outbound::Emit(BlackjackEvent::GameState { game: self.game.data_for_event() }));
        out
    }

    /// User role: keeps the last snapshot that the play chain published.
    pub fn process_event(&mut self, event: BlackjackEvent)
        ensures
            match event {
                BlackjackEvent::GameState { game } => final(self).channel_game_state == game,
            },
            final(self).single_player_game == old(self).single_player_game,
            final(self).game == old(self).game,
            final(self).profile == old(self).profile,
            final(self).user_status == old(self).user_status,
            final(self).bankroll == old(self).bankroll,
    {
        match event {
            BlackjackEvent::GameState { game } => {
                self.channel_game_state = game;
            },
        }
    }
}

} // verus!
