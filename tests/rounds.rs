use blackjack_table::amount::Amount;
use blackjack_table::bankroll::{BankrollMessage, BankrollSend, DebtStatus};
use blackjack_table::blackjack::{BlackjackGame, BlackjackStatus, GameOutcome, UserStatus};
use blackjack_table::chain::{ChainId, GameError};
use blackjack_table::deck::Deck;
use blackjack_table::player_dealer::{Dealer, Player};
use blackjack_table::state::{BlackjackChain, BlackjackOperation, BlackjackParameters, Outbound};

const NOW: u64 = 1_700_000_000_000_000;
const POOL_CHAIN: ChainId = ChainId { id: 900 };

fn tokens(t: u128) -> Amount {
    Amount::from_tokens(t)
}

fn user_chain(id: u64, bonus: u128) -> BlackjackChain {
    let params = BlackjackParameters {
        master_chain: ChainId { id: 1 },
        public_chains: vec![POOL_CHAIN],
        bonus: tokens(bonus),
    };
    BlackjackChain::new(ChainId { id }, 7, params)
}

/// A single-player game waiting for bets, with 10,000 tokens.
fn seated_chain(id: u64) -> BlackjackChain {
    let mut c = user_chain(id, 10_000);
    let out = c.execute_operation(BlackjackOperation::StartSinglePlayerGame, NOW).unwrap();
    assert!(out.is_empty());
    c
}

/// Puts `tail` at the end of a 100-card deck (the last card is dealt first).
fn stack_deck(c: &mut BlackjackChain, tail: &[u8]) {
    let mut cards: Vec<u8> = vec![2; 100 - tail.len()];
    cards.extend_from_slice(tail);
    c.single_player_game.deck = Deck::with_cards(cards);
    c.single_player_game.count = 100;
}

#[test]
fn start_seats_the_player() {
    let c = seated_chain(10);
    assert_eq!(c.user_status, UserStatus::InSinglePlayerGame);
    assert_eq!(c.profile.balance, tokens(10_000));
    assert_eq!(c.profile.seat, Some(0));
    assert_eq!(c.single_player_game.status, BlackjackStatus::WaitingForBets);
    assert_eq!(c.single_player_game.sequence, 1);
    assert_eq!(c.single_player_game.deck.cards.len(), 416);
    assert_eq!(c.single_player_game.count, 416);
    assert_eq!(c.token_pool_address, Some(POOL_CHAIN));
    assert_eq!(c.single_player_game.players[&0].balance, tokens(10_000));
    assert_eq!(c.bankroll.accounts[&7], tokens(10_000));
}

#[test]
fn shoe_is_eight_full_decks_in_one_shuffle() {
    let c = seated_chain(10);
    let cards = &c.single_player_game.deck.cards;
    let mut counts = [0usize; 53];
    for &x in cards.iter() {
        counts[x as usize] += 1;
    }
    assert_eq!(counts[0], 0);
    assert!(counts[1..].iter().all(|&n| n == 8));
    assert_ne!(cards[0..52], cards[52..104]);
}

#[test]
fn start_twice_is_refused() {
    let mut c = seated_chain(10);
    assert_eq!(c.execute_operation(BlackjackOperation::StartSinglePlayerGame, NOW).unwrap_err(), GameError::InvalidTransition);
}

#[test]
fn start_without_public_chains_fails() {
    let params = BlackjackParameters { master_chain: ChainId { id: 1 }, public_chains: vec![], bonus: tokens(5) };
    let mut c = BlackjackChain::new(ChainId { id: 3 }, 7, params);
    assert_eq!(c.execute_operation(BlackjackOperation::StartSinglePlayerGame, NOW).unwrap_err(), GameError::ResourceExhausted);
}

#[test]
fn two_players_bet_and_a_low_bet_is_refused() {
    let mut a = seated_chain(10);
    let mut b = seated_chain(11);
    assert_eq!(a.profile.bet_data.as_ref().unwrap().min_bet, tokens(100));
    assert!(a.execute_operation(BlackjackOperation::Bet { amount: tokens(500) }, NOW).is_ok());
    assert!(b.execute_operation(BlackjackOperation::Bet { amount: tokens(1_000) }, NOW).is_ok());
    assert_eq!(a.single_player_game.players[&0].bet, tokens(500));
    assert_eq!(b.single_player_game.players[&0].bet, tokens(1_000));
    assert_eq!(
        a.execute_operation(BlackjackOperation::Bet { amount: tokens(50) }, NOW).unwrap_err(),
        GameError::InsufficientFunds
    );
    assert_eq!(a.single_player_game.players[&0].bet, tokens(500));
}

#[test]
fn bets_accumulate_and_zero_sits_out() {
    let mut c = seated_chain(10);
    c.execute_operation(BlackjackOperation::Bet { amount: tokens(500) }, NOW).unwrap();
    c.execute_operation(BlackjackOperation::Bet { amount: tokens(0) }, NOW).unwrap();
    c.execute_operation(BlackjackOperation::Bet { amount: tokens(200) }, NOW).unwrap();
    assert_eq!(c.single_player_game.players[&0].bet, tokens(700));
    assert_eq!(c.single_player_game.sequence, 4);
    assert_eq!(
        c.execute_operation(BlackjackOperation::Bet { amount: tokens(10_001) }, NOW).unwrap_err(),
        GameError::InsufficientFunds
    );
    assert_eq!(
        c.execute_operation(BlackjackOperation::Bet { amount: tokens(9_500) }, NOW).unwrap_err(),
        GameError::InsufficientFunds
    );
}

#[test]
fn mismatched_balance_is_a_consistency_violation() {
    let mut c = seated_chain(10);
    c.profile.balance = tokens(9_000);
    assert_eq!(c.player_bet(tokens(500)).unwrap_err(), GameError::ConsistencyViolation);
}

#[test]
fn operations_outside_their_status_are_refused() {
    let mut idle = user_chain(10, 10_000);
    assert_eq!(idle.execute_operation(BlackjackOperation::Hit, NOW).unwrap_err(), GameError::InvalidTransition);
    assert_eq!(idle.execute_operation(BlackjackOperation::Bet { amount: tokens(1) }, NOW).unwrap_err(), GameError::InvalidTransition);
    let mut c = seated_chain(10);
    assert_eq!(c.execute_operation(BlackjackOperation::Hit, NOW).unwrap_err(), GameError::InvalidTransition);
    assert_eq!(c.execute_operation(BlackjackOperation::Stand, NOW).unwrap_err(), GameError::InvalidTransition);
}

#[test]
fn natural_pays_double_and_records_the_shortfall() {
    let mut c = seated_chain(10);
    c.execute_operation(BlackjackOperation::Bet { amount: tokens(500) }, NOW).unwrap();
    // player gets Ace, King; dealer gets 10, 7
    stack_deck(&mut c, &[13, 1, 7, 10]);
    let out = c.execute_operation(BlackjackOperation::DealBet, NOW + 5).unwrap();
    assert_eq!(c.single_player_game.status, BlackjackStatus::RoundEnded);
    assert_eq!(c.single_player_game.dealer.hand, vec![10, 7]);
    assert_eq!(c.single_player_game.players[&0].hand, vec![1, 13]);
    assert_eq!(c.single_player_game.pot, tokens(500));
    // 10,000 - 500 + 1,000
    assert_eq!(c.profile.balance, tokens(10_500));
    assert_eq!(c.single_player_game.players[&0].balance, tokens(10_500));
    assert_eq!(c.bankroll.accounts[&7], tokens(10_500));
    assert_eq!(c.blackjack_token_pool, tokens(0));
    let debt = c.bankroll.debt_log[&(NOW + 5)];
    assert_eq!(debt.amount, tokens(500));
    assert_eq!(debt.status, DebtStatus::Pending);
    assert_eq!(out.len(), 1);
    match &out[0] {
        Outbound::Ledger(BankrollSend { destination, message }) => {
            assert_eq!(*destination, POOL_CHAIN);
            assert_eq!(*message, BankrollMessage::DebtNotif { debt_id: NOW + 5, amount: tokens(500), created_at: NOW + 5 });
        },
        _ => panic!("expected a debt notice"),
    }
    assert_eq!(c.single_player_game.time_limit, NOW + 5 + 120_000_000);
}

#[test]
fn covered_win_is_paid_from_the_pool() {
    let mut c = seated_chain(10);
    c.blackjack_token_pool = tokens(5_000);
    c.execute_operation(BlackjackOperation::Bet { amount: tokens(500) }, NOW).unwrap();
    stack_deck(&mut c, &[13, 1, 7, 10]);
    let before = c.profile.balance.attos + c.blackjack_token_pool.attos;
    let out = c.execute_operation(BlackjackOperation::DealBet, NOW).unwrap();
    assert!(out.is_empty());
    assert_eq!(c.blackjack_token_pool, tokens(4_500));
    assert_eq!(c.profile.balance, tokens(10_500));
    assert_eq!(c.profile.balance.attos + c.blackjack_token_pool.attos, before);
    assert!(c.bankroll.debt_log.is_empty());
}

#[test]
fn dealer_natural_hands_the_pool_on() {
    let mut c = seated_chain(10);
    c.execute_operation(BlackjackOperation::Bet { amount: tokens(500) }, NOW).unwrap();
    stack_deck(&mut c, &[9, 8, 1, 12]);
    let out = c.execute_operation(BlackjackOperation::DealBet, NOW).unwrap();
    assert_eq!(c.single_player_game.status, BlackjackStatus::RoundEnded);
    assert_eq!(c.profile.balance, tokens(9_500));
    assert_eq!(c.blackjack_token_pool, tokens(0));
    match &out[0] {
        Outbound::Ledger(BankrollSend { destination, message }) => {
            assert_eq!(*destination, POOL_CHAIN);
            assert_eq!(*message, BankrollMessage::TokenPot { amount: tokens(500) });
        },
        _ => panic!("expected a pot transfer"),
    }
}

#[test]
fn both_naturals_draw() {
    let mut c = seated_chain(10);
    c.execute_operation(BlackjackOperation::Bet { amount: tokens(500) }, NOW).unwrap();
    stack_deck(&mut c, &[1, 11, 1, 12]);
    c.execute_operation(BlackjackOperation::DealBet, NOW).unwrap();
    assert_eq!(c.single_player_game.status, BlackjackStatus::RoundEnded);
    // the bet comes back
    assert_eq!(c.profile.balance, tokens(10_000));
    assert_eq!(c.blackjack_token_pool, tokens(0));
}

#[test]
fn hit_then_stand_loses_to_the_dealer() {
    let mut c = seated_chain(10);
    c.execute_operation(BlackjackOperation::Bet { amount: tokens(500) }, NOW).unwrap();
    // player 5, 6 then hits a 5 (16); dealer 10, 7 stands on 17
    stack_deck(&mut c, &[5, 6, 5, 7, 10]);
    let out = c.execute_operation(BlackjackOperation::DealBet, NOW).unwrap();
    assert!(out.is_empty());
    assert_eq!(c.single_player_game.status, BlackjackStatus::PlayerTurn);
    assert_eq!(c.single_player_game.sequence, 3);
    assert!(c.single_player_game.players[&0].current_player);
    assert_eq!(c.blackjack_token_pool, tokens(500));
    c.execute_operation(BlackjackOperation::Hit, NOW).unwrap();
    assert_eq!(c.single_player_game.sequence, 4);
    assert_eq!(c.single_player_game.status, BlackjackStatus::PlayerTurn);
    assert_eq!(c.single_player_game.players[&0].hand, vec![5, 6, 5]);
    assert_eq!(c.single_player_game.count as usize, c.single_player_game.deck.cards.len());
    let out = c.execute_operation(BlackjackOperation::Stand, NOW).unwrap();
    assert_eq!(c.single_player_game.sequence, 5);
    assert_eq!(c.single_player_game.status, BlackjackStatus::RoundEnded);
    assert_eq!(c.single_player_game.dealer.hand, vec![10, 7]);
    assert_eq!(out.len(), 1);
    assert_eq!(c.profile.balance, tokens(9_500));
}

#[test]
fn dealer_draws_to_seventeen_and_busts() {
    let mut c = seated_chain(10);
    c.execute_operation(BlackjackOperation::Bet { amount: tokens(500) }, NOW).unwrap();
    // dealer 10, 6 draws a King and busts; player holds 10, 8
    stack_deck(&mut c, &[13, 8, 10, 6, 10]);
    c.execute_operation(BlackjackOperation::DealBet, NOW).unwrap();
    c.execute_operation(BlackjackOperation::Stand, NOW).unwrap();
    assert_eq!(c.single_player_game.dealer.hand, vec![10, 6, 13]);
    assert_eq!(c.profile.balance, tokens(10_500));
}

#[test]
fn hits_move_the_sequence_forward() {
    let mut c = seated_chain(10);
    c.execute_operation(BlackjackOperation::Bet { amount: tokens(100) }, NOW).unwrap();
    // player 2, 2 then hits 2, 2, 2, 3 (13); dealer 10, 7
    stack_deck(&mut c, &[3, 2, 2, 2, 2, 2, 7, 10]);
    c.execute_operation(BlackjackOperation::DealBet, NOW).unwrap();
    let mut last = c.single_player_game.sequence;
    for _ in 0..4 {
        c.execute_operation(BlackjackOperation::Hit, NOW).unwrap();
        assert!(c.single_player_game.sequence > last);
        assert!(matches!(c.single_player_game.status, BlackjackStatus::PlayerTurn | BlackjackStatus::RoundEnded));
        last = c.single_player_game.sequence;
    }
    assert_eq!(c.single_player_game.players[&0].hand, vec![2, 2, 2, 2, 2, 3]);
}

#[test]
fn hit_to_twenty_one_wins() {
    let mut c = seated_chain(10);
    c.execute_operation(BlackjackOperation::Bet { amount: tokens(100) }, NOW).unwrap();
    stack_deck(&mut c, &[1, 6, 4, 7, 10]);
    c.execute_operation(BlackjackOperation::DealBet, NOW).unwrap();
    c.execute_operation(BlackjackOperation::Hit, NOW).unwrap();
    assert_eq!(c.single_player_game.status, BlackjackStatus::RoundEnded);
    assert_eq!(c.profile.balance, tokens(10_100));
}

#[test]
fn next_round_starts_from_a_clean_table() {
    let mut c = seated_chain(10);
    c.execute_operation(BlackjackOperation::Bet { amount: tokens(500) }, NOW).unwrap();
    stack_deck(&mut c, &[9, 8, 1, 12]);
    c.execute_operation(BlackjackOperation::DealBet, NOW).unwrap();
    c.execute_operation(BlackjackOperation::Bet { amount: tokens(200) }, NOW).unwrap();
    let g = &c.single_player_game;
    assert_eq!(g.status, BlackjackStatus::WaitingForBets);
    assert!(g.dealer.hand.is_empty());
    assert_eq!(g.pot, tokens(0));
    assert!(g.players[&0].hand.is_empty());
    assert_eq!(g.players[&0].bet, tokens(200));
    assert_eq!(g.players[&0].balance, tokens(9_500));
}

#[test]
fn low_deck_is_refilled() {
    let mut c = seated_chain(10);
    c.execute_operation(BlackjackOperation::Bet { amount: tokens(500) }, NOW).unwrap();
    c.single_player_game.deck = Deck::with_cards(vec![2, 3, 4, 5, 6, 7, 8, 9]);
    c.single_player_game.count = 8;
    c.execute_operation(BlackjackOperation::DealBet, NOW).unwrap();
    assert_eq!(c.single_player_game.count, 4 + 364);
    assert_eq!(c.single_player_game.deck.cards.len(), 4 + 364);
    let mut counts = [0usize; 53];
    for &x in c.single_player_game.deck.cards.iter() {
        counts[x as usize] += 1;
    }
    // the four cards left (2, 3, 4, 5) plus seven full decks
    for v in 1..=52usize {
        assert_eq!(counts[v], 7 + if (2..=5).contains(&v) { 1 } else { 0 });
    }
}

#[test]
fn deal_without_cards_is_exhausted() {
    let mut c = seated_chain(10);
    c.execute_operation(BlackjackOperation::Bet { amount: tokens(500) }, NOW).unwrap();
    c.single_player_game.deck = Deck::with_cards(vec![2, 3, 4]);
    c.single_player_game.count = 3;
    assert_eq!(c.execute_operation(BlackjackOperation::DealBet, NOW).unwrap_err(), GameError::ResourceExhausted);
}

#[test]
fn exit_only_between_rounds() {
    let mut c = seated_chain(10);
    c.execute_operation(BlackjackOperation::Bet { amount: tokens(500) }, NOW).unwrap();
    stack_deck(&mut c, &[5, 6, 5, 7, 10]);
    c.execute_operation(BlackjackOperation::DealBet, NOW).unwrap();
    assert_eq!(c.execute_operation(BlackjackOperation::ExitSinglePlayerGame, NOW).unwrap_err(), GameError::InvalidTransition);
    c.execute_operation(BlackjackOperation::Stand, NOW).unwrap();
    c.execute_operation(BlackjackOperation::ExitSinglePlayerGame, NOW).unwrap();
    assert_eq!(c.user_status, UserStatus::Idle);
    assert!(c.single_player_game.players.is_empty());
}

#[test]
fn game_seats_and_snapshots() {
    let mut g = BlackjackGame::new(Deck::with_cards(vec![1, 2, 3, 4, 5, 6]));
    assert_eq!(g.count, 6);
    assert!(!g.is_seat_taken(1));
    g.register_update_player(1, Player::new(1, tokens(50), ChainId { id: 4 }));
    assert!(g.is_seat_taken(1));
    g.draw_initial_cards(1).unwrap();
    assert_eq!(g.dealer.hand, vec![6, 5]);
    assert_eq!(g.players[&1].hand, vec![4, 3]);
    assert_eq!(g.deck.cards, vec![1, 2]);
    assert_eq!(g.count, 2);
    assert_eq!(g.draw_initial_cards(1).unwrap_err(), GameError::ResourceExhausted);
    assert_eq!(g.draw_initial_cards(2).unwrap_err(), GameError::ConsistencyViolation);
    g.update_status(BlackjackStatus::PlayerTurn);
    let snap = g.data_for_event();
    assert!(snap.deck.cards.is_empty());
    assert_eq!(snap.dealer.hand, vec![6, 5]);
    assert_eq!(snap.status, BlackjackStatus::PlayerTurn);
    assert_eq!(snap.players[&1].hand, vec![4, 3]);
    g.remove_player(1);
    assert!(!g.is_seat_taken(1));
    g.remove_player(1);
    assert!(Dealer::empty().hand.is_empty());
}

#[test]
fn player_bets_and_deals() {
    let mut p = Player::new(0, tokens(1_000), ChainId { id: 4 });
    assert_eq!(p.add_bet(tokens(300), tokens(999)).unwrap_err(), GameError::ConsistencyViolation);
    p.add_bet(tokens(300), tokens(1_000)).unwrap();
    assert_eq!(p.add_bet(tokens(701), tokens(1_000)).unwrap_err(), GameError::InsufficientFunds);
    assert_eq!(p.deal_bet(tokens(100), tokens(1_000)).unwrap(), (tokens(300), tokens(700)));
    let mut q = Player::new(0, tokens(1_000), ChainId { id: 4 });
    assert_eq!(q.deal_bet(tokens(2_000), tokens(1_000)).unwrap_err(), GameError::InsufficientFunds);
    assert_eq!(q.deal_bet(tokens(100), tokens(1_000)).unwrap(), (tokens(100), tokens(900)));
    q.reset_bet();
    assert_eq!(q.bet, tokens(0));
}

#[test]
fn get_public_chain_picks_a_configured_chain() {
    let params = BlackjackParameters {
        master_chain: ChainId { id: 1 },
        public_chains: vec![ChainId { id: 20 }, ChainId { id: 21 }, ChainId { id: 22 }],
        bonus: tokens(5),
    };
    let c = BlackjackChain::new(ChainId { id: 3 }, 7, params);
    for k in 0..20u64 {
        let p = c.get_public_chain(NOW + k).unwrap();
        assert!(p.id >= 20 && p.id <= 22);
    }
}
