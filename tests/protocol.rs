use blackjack_table::amount::Amount;
use blackjack_table::bankroll::{
    BankrollMessage, BankrollOperation, BankrollParameters, BankrollResponse, BankrollSend, BankrollState, DailyBonus,
    DebtStatus,
};
use blackjack_table::blackjack::{BlackjackStatus, MutationReason, UserStatus};
use blackjack_table::chain::{ChainId, GameError};
use blackjack_table::poker::{poker_channel, BettingRound, PokerGame};
use blackjack_table::player_dealer::Player;
use blackjack_table::state::{BlackjackChain, BlackjackEvent, BlackjackMessage, BlackjackOperation, BlackjackParameters, Outbound};

const NOW: u64 = 1_700_000_000_000_000;
const DAY: u64 = 86_400_000_000;
const MASTER: ChainId = ChainId { id: 1 };

fn tokens(t: u128) -> Amount {
    Amount::from_tokens(t)
}

fn chain(id: u64) -> BlackjackChain {
    let params = BlackjackParameters {
        master_chain: MASTER,
        public_chains: vec![ChainId { id: 20 }, ChainId { id: 21 }],
        bonus: tokens(1_000),
    };
    BlackjackChain::new(ChainId { id }, 7, params)
}

fn sent_to(out: &Outbound) -> (ChainId, BlackjackMessage) {
    match out {
        Outbound::Send { destination, message } => (*destination, *message),
        _ => panic!("expected a message"),
    }
}

#[test]
fn discovery_gives_up_after_three_retries() {
    let mut c = chain(10);
    let out = c.execute_operation(BlackjackOperation::FindPlayChain, NOW).unwrap();
    assert_eq!(c.user_status, UserStatus::FindPlayChain);
    assert_eq!(c.find_play_chain_retry, 0);
    assert_eq!(sent_to(&out[0]).1, BlackjackMessage::FindPlayChain);
    for k in 1..=3u8 {
        let out = c.execute_message(ChainId { id: 20 }, BlackjackMessage::FindPlayChainResult { chain_id: None }, NOW).unwrap();
        assert_eq!(c.find_play_chain_retry, k);
        assert_eq!(c.user_status, UserStatus::FindPlayChain);
        let (to, m) = sent_to(&out[0]);
        assert_eq!(m, BlackjackMessage::FindPlayChain);
        assert!(to.id == 20 || to.id == 21);
    }
    let out = c.execute_message(ChainId { id: 20 }, BlackjackMessage::FindPlayChainResult { chain_id: None }, NOW).unwrap();
    assert!(out.is_empty());
    assert_eq!(c.user_status, UserStatus::PlayChainUnavailable);
    assert_eq!(c.find_play_chain_retry, 0);
    assert_eq!(c.user_play_chain, None);
}

#[test]
fn discovery_subscribes_to_the_found_chain() {
    let mut c = chain(10);
    c.execute_operation(BlackjackOperation::FindPlayChain, NOW).unwrap();
    let play = ChainId { id: 30 };
    let out = c.execute_message(ChainId { id: 20 }, BlackjackMessage::FindPlayChainResult { chain_id: Some(play) }, NOW).unwrap();
    assert_eq!(c.user_status, UserStatus::PlayChainFound);
    assert_eq!(c.user_play_chain, Some(play));
    assert_eq!(sent_to(&out[0]), (play, BlackjackMessage::Subscribe));
    assert_eq!(c.profile.balance, tokens(1_000));
    assert!(c.profile.bet_data.is_some());
    // searching again first unsubscribes
    let out = c.execute_operation(BlackjackOperation::FindPlayChain, NOW).unwrap();
    assert_eq!(sent_to(&out[0]), (play, BlackjackMessage::Unsubscribe));
    assert_eq!(c.user_play_chain, None);
    assert_eq!(c.execute_operation(BlackjackOperation::FindPlayChain, NOW).unwrap_err(), GameError::InvalidTransition);
}

#[test]
fn seat_request_flow() {
    let mut user = chain(10);
    assert_eq!(user.execute_operation(BlackjackOperation::RequestTableSeat { seat_id: 1 }, NOW).unwrap_err(), GameError::InvalidTransition);
    user.execute_operation(BlackjackOperation::FindPlayChain, NOW).unwrap();
    let play_id = ChainId { id: 30 };
    user.execute_message(ChainId { id: 20 }, BlackjackMessage::FindPlayChainResult { chain_id: Some(play_id) }, NOW).unwrap();
    assert_eq!(user.execute_operation(BlackjackOperation::RequestTableSeat { seat_id: 0 }, NOW).unwrap_err(), GameError::InvalidTransition);
    assert_eq!(user.execute_operation(BlackjackOperation::RequestTableSeat { seat_id: 4 }, NOW).unwrap_err(), GameError::InvalidTransition);
    let out = user.execute_operation(BlackjackOperation::RequestTableSeat { seat_id: 2 }, NOW).unwrap();
    assert_eq!(user.user_status, UserStatus::RequestingTableSeat);
    let (to, m) = sent_to(&out[0]);
    assert_eq!(to, play_id);
    assert_eq!(m, BlackjackMessage::RequestTableSeat { seat_id: 2, balance: tokens(1_000) });

    let mut play = chain(30);
    let out = play.execute_message(ChainId { id: 10 }, m, NOW).unwrap();
    assert_eq!(sent_to(&out[0]), (ChainId { id: 10 }, BlackjackMessage::RequestTableSeatResult { seat_id: 2, success: true }));
    match &out[1] {
        Outbound::Emit(BlackjackEvent::GameState { game }) => {
            assert!(game.players.contains_key(&2));
            assert!(game.deck.cards.is_empty());
            user.process_event(BlackjackEvent::GameState { game: game.clone() });
        },
        _ => panic!("expected a snapshot"),
    }
    assert!(user.channel_game_state.players.contains_key(&2));
    assert_eq!(play.game.players[&2].balance, tokens(1_000));
    assert_eq!(play.game.players[&2].chain_id, Some(ChainId { id: 10 }));

    user.execute_message(play_id, BlackjackMessage::RequestTableSeatResult { seat_id: 2, success: true }, NOW).unwrap();
    assert_eq!(user.user_status, UserStatus::InMultiPlayerGame);
    assert_eq!(user.profile.seat, Some(2));
    assert_eq!(user.multi_player_data().game.players.len(), 1);
}

#[test]
fn taken_seat_is_refused_until_vacated() {
    let mut play = chain(30);
    play.execute_message(ChainId { id: 10 }, BlackjackMessage::RequestTableSeat { seat_id: 1, balance: tokens(5) }, NOW).unwrap();
    let out = play.execute_message(ChainId { id: 11 }, BlackjackMessage::RequestTableSeat { seat_id: 1, balance: tokens(9) }, NOW).unwrap();
    assert_eq!(out.len(), 1);
    assert_eq!(sent_to(&out[0]), (ChainId { id: 11 }, BlackjackMessage::RequestTableSeatResult { seat_id: 1, success: false }));
    assert_eq!(play.game.players[&1].chain_id, Some(ChainId { id: 10 }));
    play.game.remove_player(1);
    let out = play.execute_message(ChainId { id: 11 }, BlackjackMessage::RequestTableSeat { seat_id: 1, balance: tokens(9) }, NOW).unwrap();
    assert_eq!(sent_to(&out[0]).1, BlackjackMessage::RequestTableSeatResult { seat_id: 1, success: true });
    assert_eq!(play.game.players[&1].chain_id, Some(ChainId { id: 11 }));
    let out = play.execute_message(ChainId { id: 12 }, BlackjackMessage::RequestTableSeat { seat_id: 9, balance: tokens(9) }, NOW).unwrap();
    assert_eq!(sent_to(&out[0]).1, BlackjackMessage::RequestTableSeatResult { seat_id: 9, success: false });
}

#[test]
fn failed_seat_request_is_recoverable() {
    let mut user = chain(10);
    user.execute_operation(BlackjackOperation::FindPlayChain, NOW).unwrap();
    user.execute_message(ChainId { id: 20 }, BlackjackMessage::FindPlayChainResult { chain_id: Some(ChainId { id: 30 }) }, NOW).unwrap();
    user.execute_operation(BlackjackOperation::RequestTableSeat { seat_id: 1 }, NOW).unwrap();
    user.execute_message(ChainId { id: 30 }, BlackjackMessage::RequestTableSeatResult { seat_id: 1, success: false }, NOW).unwrap();
    assert_eq!(user.user_status, UserStatus::RequestTableSeatFail);
    assert!(user.execute_operation(BlackjackOperation::RequestTableSeat { seat_id: 3 }, NOW).is_ok());
}

#[test]
fn subscriptions_are_relayed() {
    let mut c = chain(30);
    let out = c.execute_message(ChainId { id: 10 }, BlackjackMessage::Subscribe, NOW).unwrap();
    assert!(matches!(out[0], Outbound::AddSubscriber(ChainId { id: 10 })));
    let out = c.execute_message(ChainId { id: 10 }, BlackjackMessage::Unsubscribe, NOW).unwrap();
    assert!(matches!(out[0], Outbound::RemoveSubscriber(ChainId { id: 10 })));
    let out = c.execute_operation(BlackjackOperation::SubscribeTo { chain_id: ChainId { id: 30 } }, NOW).unwrap();
    assert_eq!(sent_to(&out[0]), (ChainId { id: 30 }, BlackjackMessage::Subscribe));
    let out = c.execute_operation(BlackjackOperation::UnsubscribeFrom { chain_id: ChainId { id: 30 } }, NOW).unwrap();
    assert_eq!(sent_to(&out[0]), (ChainId { id: 30 }, BlackjackMessage::Unsubscribe));
}

#[test]
fn only_the_master_registers_and_mints() {
    let mut other = chain(5);
    let op = BlackjackOperation::AddPlayChain { target_public_chain: ChainId { id: 20 }, play_chain_id: ChainId { id: 30 } };
    assert_eq!(other.execute_operation(op, NOW).unwrap_err(), GameError::AuthorizationFailure);
    let mint = BlackjackOperation::MintToken { chain_id: ChainId { id: 20 }, amount: tokens(50) };
    assert_eq!(other.execute_operation(mint, NOW).unwrap_err(), GameError::AuthorizationFailure);
    let mut master = chain(1);
    let out = master.execute_operation(op, NOW).unwrap();
    assert_eq!(sent_to(&out[0]), (ChainId { id: 20 }, BlackjackMessage::AddPlayChain { chain_id: ChainId { id: 30 } }));
    let out = master.execute_operation(mint, NOW).unwrap();
    match &out[0] {
        Outbound::Ledger(s) => assert_eq!(*s, BankrollSend {
            destination: ChainId { id: 20 },
            message: BankrollMessage::ReceivedToken { amount: tokens(50) },
        }),
        _ => panic!("expected a ledger message"),
    }
    let mut public = chain(20);
    assert_eq!(
        public.execute_message(ChainId { id: 5 }, BlackjackMessage::AddPlayChain { chain_id: ChainId { id: 30 } }, NOW).unwrap_err(),
        GameError::AuthorizationFailure
    );
}

#[test]
fn registry_finds_the_lowest_bucket_first() {
    let mut public = chain(20);
    let out = public.execute_message(ChainId { id: 10 }, BlackjackMessage::FindPlayChain, NOW).unwrap();
    assert_eq!(sent_to(&out[0]), (ChainId { id: 10 }, BlackjackMessage::FindPlayChainResult { chain_id: None }));
    for id in [30u64, 31, 32] {
        public.execute_message(MASTER, BlackjackMessage::AddPlayChain { chain_id: ChainId { id } }, NOW).unwrap();
    }
    // adding again is a no-op
    public.execute_message(MASTER, BlackjackMessage::AddPlayChain { chain_id: ChainId { id: 30 } }, NOW).unwrap();
    assert_eq!(public.play_chain_set[&0], vec![ChainId { id: 30 }, ChainId { id: 31 }, ChainId { id: 32 }]);
    assert_eq!(public.search_available_play_chain(), Some(ChainId { id: 30 }));
    public.play_chain_manager(ChainId { id: 30 }, 2, MutationReason::Update);
    assert_eq!(public.play_chain_set[&0], vec![ChainId { id: 31 }, ChainId { id: 32 }]);
    assert_eq!(public.play_chain_set[&2], vec![ChainId { id: 30 }]);
    assert_eq!(public.play_chain_status[&30], 2);
    assert_eq!(public.search_available_play_chain(), Some(ChainId { id: 31 }));
    public.play_chain_manager(ChainId { id: 31 }, 3, MutationReason::Update);
    public.play_chain_manager(ChainId { id: 32 }, 0, MutationReason::Remove);
    assert!(public.play_chain_set[&0].is_empty());
    assert!(!public.play_chain_status.contains_key(&32));
    assert_eq!(public.search_available_play_chain(), Some(ChainId { id: 30 }));
    public.play_chain_manager(ChainId { id: 30 }, 3, MutationReason::Update);
    // full tables are not offered
    let out = public.execute_message(ChainId { id: 10 }, BlackjackMessage::FindPlayChain, NOW).unwrap();
    assert_eq!(sent_to(&out[0]).1, BlackjackMessage::FindPlayChainResult { chain_id: None });
}

#[test]
fn re_adding_a_tracked_chain_moves_it() {
    let mut public = chain(20);
    let c = ChainId { id: 30 };
    public.play_chain_manager(c, 0, MutationReason::AddNew);
    public.play_chain_manager(c, 1, MutationReason::Update);
    assert_eq!(public.play_chain_set[&1], vec![c]);
    public.play_chain_manager(c, 0, MutationReason::AddNew);
    assert!(public.play_chain_set[&1].is_empty());
    assert_eq!(public.play_chain_set[&0], vec![c]);
    assert_eq!(public.play_chain_status[&30], 0);
}

#[test]
fn granted_seat_is_recorded_on_the_user_chain() {
    let mut user = chain(10);
    user.profile.balance = tokens(700);
    user.execute_message(ChainId { id: 30 }, BlackjackMessage::RequestTableSeatResult { seat_id: 3, success: true }, NOW).unwrap();
    let p = &user.player_seat_map[&3];
    assert_eq!(p.seat_id, 3);
    assert_eq!(p.balance, tokens(700));
    assert_eq!(p.bet, tokens(0));
    assert!(p.hand.is_empty());
    assert_eq!(p.chain_id, Some(ChainId { id: 10 }));
}

#[test]
fn balance_read_moves_the_claim_time() {
    let mut l = BankrollState::new();
    l.balance(7, tokens(100), NOW);
    assert_eq!(l.daily_bonus.amount, tokens(100));
    assert_eq!(l.daily_bonus.last_claim, NOW);
    l.balance(7, tokens(100), NOW + 5);
    assert_eq!(l.daily_bonus.last_claim, NOW);
}

#[test]
fn daily_bonus_once_a_day() {
    let mut b = DailyBonus::default();
    assert!(b.is_zero());
    b.update_bonus(tokens(10));
    b.update_bonus(tokens(99));
    assert_eq!(b.amount, tokens(10));
    assert_eq!(b.claim_bonus(DAY), tokens(10));
    assert_eq!(b.last_claim, DAY);
    assert_eq!(b.claim_bonus(2 * DAY - 1), tokens(0));
    assert_eq!(b.claim_bonus(2 * DAY), tokens(10));
    assert_eq!(b.claim_bonus(0), tokens(0));
}

#[test]
fn balance_read_credits_the_bonus() {
    let mut l = BankrollState::new();
    l.update_balance(7, tokens(5));
    assert_eq!(l.balance(7, tokens(100), NOW), tokens(105));
    assert_eq!(l.balance(7, tokens(100), NOW + 1), tokens(105));
    assert_eq!(l.balance(7, tokens(100), NOW + DAY), tokens(205));
    assert_eq!(l.balance(8, tokens(100), NOW + DAY), tokens(0));
}

#[test]
fn debts_are_paid_and_confirmed() {
    let user_chain = ChainId { id: 10 };
    let pool_chain = ChainId { id: 20 };
    let mut user = BankrollState::new();
    let mut pool = BankrollState::new();
    let notice = user.notify_debt(tokens(300), pool_chain, user_chain, NOW);
    assert_eq!(user.debt_log[&NOW].status, DebtStatus::Pending);
    // not enough in the pool yet
    assert_eq!(pool.execute_message(user_chain, notice.message, NOW + 1).unwrap_err(), GameError::InsufficientFunds);
    pool.execute_message(MASTER, BankrollMessage::ReceivedToken { amount: tokens(1_000) }, NOW).unwrap();
    let reply = pool.execute_message(user_chain, notice.message, NOW + 1).unwrap().unwrap();
    assert_eq!(pool.blackjack_token, tokens(700));
    assert_eq!(pool.debt_log[&NOW].status, DebtStatus::Paid);
    assert_eq!(reply.destination, user_chain);
    assert_eq!(reply.message, BankrollMessage::DebtPaid { debt_id: NOW, amount: tokens(300), paid_at: NOW + 1 });
    user.execute_message(pool_chain, reply.message, NOW + 2).unwrap();
    assert_eq!(user.debt_log[&NOW].status, DebtStatus::Paid);
    assert_eq!(user.debt_log[&NOW].paid_at, Some(NOW + 1));
    assert_eq!(
        user.execute_message(pool_chain, BankrollMessage::DebtPaid { debt_id: 5, amount: tokens(1), paid_at: 6 }, NOW).unwrap_err(),
        GameError::ConsistencyViolation
    );
}

#[test]
fn pots_are_logged() {
    let mut pool = BankrollState::new();
    pool.execute_message(ChainId { id: 10 }, BankrollMessage::TokenPot { amount: tokens(40) }, NOW).unwrap();
    assert_eq!(pool.blackjack_token, tokens(40));
    assert_eq!(pool.token_pot_log[&NOW].amount, tokens(40));
    assert_eq!(pool.token_pot_log[&NOW].user_chain, ChainId { id: 10 });
}

#[test]
fn ledger_operations() {
    let mut l = BankrollState::new();
    let params = BankrollParameters { bonus: tokens(3), master_chain: MASTER };
    let (resp, send) = l.execute_operation(BankrollOperation::Balance { owner: 1 }, ChainId { id: 10 }, params, NOW).unwrap();
    assert_eq!(resp, BankrollResponse::Balance(tokens(3)));
    assert!(send.is_none());
    let (_, send) = l.execute_operation(
        BankrollOperation::TransferTokenPot { amount: tokens(2), target_chain: ChainId { id: 20 } },
        ChainId { id: 10 },
        params,
        NOW,
    ).unwrap();
    assert_eq!(send.unwrap().message, BankrollMessage::TokenPot { amount: tokens(2) });
    assert_eq!(
        l.execute_operation(BankrollOperation::MintToken { chain_id: ChainId { id: 20 }, amount: tokens(2) }, ChainId { id: 10 }, params, NOW)
            .unwrap_err(),
        GameError::AuthorizationFailure
    );
    assert!(l.execute_operation(BankrollOperation::MintToken { chain_id: ChainId { id: 20 }, amount: tokens(2) }, MASTER, params, NOW).is_ok());
}

#[test]
fn amounts_saturate() {
    assert_eq!(tokens(2).attos, 2_000_000_000_000_000_000);
    assert_eq!(Amount::from_tokens(u128::MAX).attos, u128::MAX);
    assert_eq!(tokens(2).saturating_sub(tokens(3)), tokens(0));
    assert_eq!(Amount::max_value().saturating_add(tokens(1)), Amount::max_value());
    assert_eq!(tokens(5).saturating_div(Amount::one()), 5);
    assert_eq!(tokens(5).try_mul(3), Some(tokens(15)));
    assert_eq!(Amount::max_value().try_mul(2), None);
    assert!(Amount::zero().is_zero());
}

#[test]
fn poker_table_limits() {
    let p = Player::new(1, tokens(1), ChainId { id: 2 });
    assert!(PokerGame::new(vec![p.clone(); 9]).is_err());
    let mut g = PokerGame::new(vec![p.clone(); 7]).unwrap();
    assert_eq!(g.current_round, BettingRound::PreFlop);
    g.add_player(p.clone()).unwrap();
    assert_eq!(g.add_player(p.clone()).unwrap_err(), "Maximum of 8 Poker players reached.");
    assert_eq!(g.remove_player(8).unwrap_err(), "Invalid Poker player index.");
    assert_eq!(g.remove_player(0).unwrap().seat_id, 1);
    assert_eq!(g.players.len(), 7);
    assert_eq!(poker_channel(), b"poker".to_vec());
}

#[test]
fn snapshots_hide_the_deck() {
    let mut c = chain(10);
    c.execute_operation(BlackjackOperation::StartSinglePlayerGame, NOW).unwrap();
    let d = c.single_player_data();
    assert!(d.game.deck.cards.is_empty());
    assert_eq!(d.game.status, BlackjackStatus::WaitingForBets);
    assert_eq!(d.user_status, UserStatus::InSinglePlayerGame);
    assert_eq!(c.single_player_game.deck.cards.len(), 416);
}
