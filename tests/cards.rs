use blackjack_table::card::{calculate_hand_value, card_rank_of};
use blackjack_table::deck::{get_new_deck, rng_seed, Deck};

#[test]
fn hand_values() {
    assert_eq!(calculate_hand_value(&vec![1, 13]), 21);
    assert_eq!(calculate_hand_value(&vec![1, 1, 9]), 21);
    assert_eq!(calculate_hand_value(&vec![10, 10, 5]), 25);
    assert_eq!(calculate_hand_value(&vec![]), 0);
    assert_eq!(calculate_hand_value(&vec![14, 27]), 12);
    assert_eq!(calculate_hand_value(&vec![1, 6]), 17);
    assert_eq!(calculate_hand_value(&vec![1, 6, 10]), 17);
    assert_eq!(calculate_hand_value(&vec![24, 38, 52]), 30);
    assert_eq!(calculate_hand_value(&vec![40, 11]), 21);
}

#[test]
fn card_ranks() {
    assert_eq!(card_rank_of(1), 1);
    assert_eq!(card_rank_of(13), 13);
    assert_eq!(card_rank_of(14), 1);
    assert_eq!(card_rank_of(26), 13);
    assert_eq!(card_rank_of(52), 13);
    assert_eq!(card_rank_of(40), 1);
}

#[test]
fn deck_deals_from_end() {
    let mut d = Deck::with_cards(vec![3, 4, 5]);
    assert!(!d.is_empty());
    assert_eq!(d.deal(), Some(5));
    assert_eq!(d.deal(), Some(4));
    assert_eq!(d.deal(), Some(3));
    assert_eq!(d.deal(), None);
    assert!(d.is_empty());
    assert!(Deck::empty().is_empty());
}

#[test]
fn shuffle_is_fixed_by_its_inputs() {
    let ordered: Vec<u8> = (1..=52).collect();
    let mut a = Deck::with_cards(ordered.clone());
    let mut b = Deck::with_cards(ordered.clone());
    a.shuffle("commit".to_string(), "1700000000".to_string());
    b.shuffle("commit".to_string(), "1700000000".to_string());
    assert_eq!(a.cards, b.cards);
    assert_ne!(a.cards, ordered);
    let mut sorted = a.cards.clone();
    sorted.sort();
    assert_eq!(sorted, ordered);
    let mut c = Deck::with_cards(ordered.clone());
    c.shuffle("other".to_string(), "1700000000".to_string());
    assert_ne!(a.cards, c.cards);
}

#[test]
fn seeds_differ_by_split() {
    assert_eq!(rng_seed("ab", "c"), rng_seed("ab", "c"));
    assert_ne!(rng_seed("ab", "c"), rng_seed("a", "bc"));
    assert_ne!(rng_seed("", ""), rng_seed("a", ""));
    // FNV-1a of the single separator byte
    assert_eq!(rng_seed("", ""), (0xcbf2_9ce4_8422_2325u64 ^ 0xff).wrapping_mul(0x0000_0100_0000_01b3));
}

#[test]
fn new_deck_is_a_full_deck() {
    let d = get_new_deck("42".to_string());
    assert_eq!(d.len(), 52);
    let mut sorted = d.clone();
    sorted.sort();
    assert_eq!(sorted, (1..=52).collect::<Vec<u8>>());
    assert_eq!(d, get_new_deck("42".to_string()));
}

#[test]
fn added_cards_join_the_deck() {
    let mut d = Deck::with_cards(vec![1, 2, 3]);
    let mut batch = vec![4, 5];
    d.add_cards(&mut batch, "9".to_string());
    assert!(batch.is_empty());
    let mut sorted = d.cards.clone();
    sorted.sort();
    assert_eq!(sorted, vec![1, 2, 3, 4, 5]);
}
