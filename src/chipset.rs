use vstd::prelude::*;
use crate::amount::{Amount, ATTOS_PER_TOKEN, sat_mul};
use crate::text::{decimal, digit_char, push_decimal, decimal_string};

verus! {

/// The number of magnitude suffixes, from thousands (1) up to decillions (11).
pub const MAGNITUDES: u8 = 11;

/// `1000^i` for the magnitudes 1..=11.
pub open spec fn magnitude_divisor(i: nat) -> nat {
    if i == 1 { 1_000 }
    else if i == 2 { 1_000_000 }
    else if i == 3 { 1_000_000_000 }
    else if i == 4 { 1_000_000_000_000 }
    else if i == 5 { 1_000_000_000_000_000 }
    else if i == 6 { 1_000_000_000_000_000_000 }
    else if i == 7 { 1_000_000_000_000_000_000_000 }
    else if i == 8 { 1_000_000_000_000_000_000_000_000 }
    else if i == 9 { 1_000_000_000_000_000_000_000_000_000 }
    else if i == 10 { 1_000_000_000_000_000_000_000_000_000_000 }
    else { 1_000_000_000_000_000_000_000_000_000_000_000 }
}

/// The suffix written after a value scaled by `magnitude_divisor(i)`.
pub open spec fn magnitude_suffix(i: nat) -> Seq<char> {
    if i == 1 { seq!['K'] }
    else if i == 2 { seq!['M'] }
    else if i == 3 { seq!['B'] }
    else if i == 4 { seq!['T'] }
    else if i == 5 { seq!['Q'] }
    else if i == 6 { seq!['Q', 'i'] }
    else if i == 7 { seq!['S'] }
    else if i == 8 { seq!['S', 'p'] }
    else if i == 9 { seq!['O'] }
    else if i == 10 { seq!['N'] }
    else { seq!['D'] }
}

/// The largest magnitude `i <= top` whose divisor is at most `v` (1 if none is).
pub open spec fn magnitude_from(v: nat, top: nat) -> nat
    decreases top,
{
    if top <= 1 {
        1
    } else if magnitude_divisor(top) <= v {
        top
    } else {
        magnitude_from(v, (top - 1) as nat)
    }
}

/// `v / d` rounded half up to tenths, counted in tenths.
pub open spec fn rounded_tenths(v: nat, d: nat) -> nat {
    let unit = d / 10;
    v / unit + if 2 * (v % unit) >= unit { 1nat } else { 0nat }
}

/// A count of tenths written with at most one decimal, the decimal left out when it is zero.
pub open spec fn tenths_text(t: nat) -> Seq<char> {
    if t % 10 == 0 {
        decimal(t / 10)
    } else {
        decimal(t / 10) + seq!['.', digit_char(t % 10)]
    }
}

/// `v` written for display: as is below a thousand, else scaled to its magnitude,
/// rounded to one decimal, and carried to the next magnitude where the rounding
/// reaches a thousand.
pub open spec fn units_text(v: nat) -> Seq<char> {
    if v < 1000 {
        decimal(v)
    } else {
        let i = magnitude_from(v, MAGNITUDES as nat);
        let t = rounded_tenths(v, magnitude_divisor(i));
        if t >= 10000 && i < MAGNITUDES {
            seq!['1'] + magnitude_suffix(i + 1)
        } else {
            tenths_text(t) + magnitude_suffix(i)
        }
    }
}

fn divisor(i: u8) -> (r: u128)
    requires
        1 <= i <= MAGNITUDES,
    ensures
        r == magnitude_divisor(i as nat),
{
    if i == 1 { 1_000 }
    else if i == 2 { 1_000_000 }
    else if i == 3 { 1_000_000_000 }
    else if i == 4 { 1_000_000_000_000 }
    else if i == 5 { 1_000_000_000_000_000 }
    else if i == 6 { 1_000_000_000_000_000_000 }
    else if i == 7 { 1_000_000_000_000_000_000_000 }
    else if i == 8 { 1_000_000_000_000_000_000_000_000 }
    else if i == 9 { 1_000_000_000_000_000_000_000_000_000 }
    else if i == 10 { 1_000_000_000_000_000_000_000_000_000_000 }
    else { 1_000_000_000_000_000_000_000_000_000_000_000 }
}

fn suffix(i: u8) -> (r: &'static str)
    requires
        1 <= i <= MAGNITUDES,
    ensures
        r@ == magnitude_suffix(i as nat),
{
    proof {
        reveal_strlit("K");
        reveal_strlit("M");
        reveal_strlit("B");
        reveal_strlit("T");
        reveal_strlit("Q");
        reveal_strlit("Qi");
        reveal_strlit("S");
        reveal_strlit("Sp");
        reveal_strlit("O");
        reveal_strlit("N");
        reveal_strlit("D");
    }
    if i == 1 { "K" }
    else if i == 2 { "M" }
    else if i == 3 { "B" }
    else if i == 4 { "T" }
    else if i == 5 { "Q" }
    else if i == 6 { "Qi" }
    else if i == 7 { "S" }
    else if i == 8 { "Sp" }
    else if i == 9 { "O" }
    else if i == 10 { "N" }
    else { "D" }
}

/// Writes a whole number of tokens for display, with a magnitude suffix
/// (K, M, B, T, Q, Qi, S, Sp, O, N, D) from a thousand on.
pub fn format_units(value: u128) -> (r: String)
    ensures
        r@ == units_text(value as nat),
{
    if value < 1000 {
        return decimal_string(value);
    }
    let mut i: u8 = MAGNITUDES;
    while i > 1 && value < divisor(i)
        invariant
            1 <= i <= MAGNITUDES,
            magnitude_from(value as nat, i as nat) == magnitude_from(value as nat, MAGNITUDES as nat),
        decreases i,
    {
        i = i - 1;
    }
    assert(magnitude_from(value as nat, i as nat) == i);
    let d = divisor(i);
    let unit = d / 10;
    assert(unit >= 100);
    assert(value / unit <= value / 100) by (nonlinear_arith)
        requires unit >= 100;
    let t: u128 = value / unit + if value % unit >= unit - value % unit { 1u128 } else { 0u128 };
    assert(t == rounded_tenths(value as nat, d as nat));
    let mut s = String::new();
    if t >= 10000 && i < MAGNITUDES {
        proof { reveal_strlit("1"); }
        s.append("1");
        s.append(suffix(i + 1));
    } else {
        push_decimal(&mut s, t / 10);
        if t % 10 != 0 {
            proof { reveal_strlit("."); }
            s.append(".");
            push_decimal(&mut s, t % 10);
        }
        s.append(suffix(i));
    }
    assert(s@ =~= units_text(value as nat));
    s
}

} // verus!

verus! {

/// The smallest chip, in whole tokens, and the balance below which no chips are offered.
pub const MIN_CHIP_TOKENS: u128 = 100;

/// The smallest chip, in attos.
pub open spec fn floor_attos() -> nat {
    (MIN_CHIP_TOKENS * ATTOS_PER_TOKEN) as nat
}

/// Whether a balance calls for a base larger than `b`: it reaches `500 * b`
/// (or the largest amount, where `500 * b` does not fit).
pub open spec fn outgrows(b: nat, balance: nat) -> bool {
    balance >= if b * 500 <= u128::MAX { b * 500 } else { u128::MAX as nat }
}

/// The base reached from `b` by multiplying by ten while the balance outgrows it
/// and the product still fits.
pub open spec fn chip_base_from(b: nat, balance: nat) -> nat
    decreases (u128::MAX as int) - b,
{
    if b > 0 && b * 10 <= u128::MAX && outgrows(b, balance) {
        chip_base_from(b * 10, balance)
    } else {
        b
    }
}

/// The value of the smallest chip for a balance of at least the floor.
pub open spec fn chip_base(balance: nat) -> nat {
    chip_base_from(floor_attos(), balance)
}

/// The multiples of the base that the five chips are worth.
pub open spec fn chip_multiplier(k: int) -> nat {
    if k == 0 { 1 }
    else if k == 1 { 5 }
    else if k == 2 { 25 }
    else if k == 3 { 100 }
    else { 250 }
}

/// The value of chip `k` over a base, capped at the largest amount.
pub open spec fn denomination(base: nat, k: int) -> nat {
    sat_mul(base, chip_multiplier(k))
}

pub open spec fn pow10(k: nat) -> nat
    decreases k,
{
    if k == 0 { 1 } else { 10 * pow10((k - 1) as nat) }
}

/// The chips offered for a balance at or above the floor: each chip's value, its
/// label in whole tokens, and whether the balance covers it.
pub open spec fn chips_match(
    balance: nat,
    denominations: Seq<Amount>,
    labels: Seq<String>,
    enabled: Seq<bool>,
) -> bool {
    &&& denominations.len() == 5
    &&& labels.len() == 5
    &&& enabled.len() == 5
    &&& forall|k: int| 0 <= k < 5 ==> {
        &&& #[trigger] denominations[k].attos == denomination(chip_base(balance), k)
        &&& labels[k]@ == units_text(denomination(chip_base(balance), k) / (ATTOS_PER_TOKEN as nat))
        &&& enabled[k] == (denomination(chip_base(balance), k) <= balance)
    }
}

/// Bet limits and chips for a balance.
#[derive(Debug, Clone, Default)]
pub struct ChipSet {
    pub min_bet: Amount,
    pub max_bet: Amount,
    pub denominations: [Amount; 5],
    pub denominations_str: [String; 5],
    pub enabled: [bool; 5],
}

/// The base chip value for a balance of at least the floor, found by scaling the
/// floor up by tens.
pub fn chip_base_for(balance: Amount) -> (base: Amount)
    requires
        balance.attos >= floor_attos(),
    ensures
        base.attos == chip_base(balance.attos as nat),
{
    let mut base = Amount::from_tokens(MIN_CHIP_TOKENS);
    assert(base.attos == floor_attos());
    loop
        invariant
            base.attos > 0,
            chip_base_from(base.attos as nat, balance.attos as nat) == chip_base(balance.attos as nat),
        ensures
            base.attos == chip_base(balance.attos as nat),
        decreases u128::MAX - base.attos,
    {
        let cap = match base.try_mul(500) {
            Some(v) => v.attos,
            None => u128::MAX,
        };
        if balance.attos < cap {
            break;
        }
        match base.try_mul(10) {
            Some(next) => {
                base = next;
            },
            None => {
                break;
            },
        }
    }
    base
}

/// Chip `k`'s value over a base.
pub(crate) fn chip_value(base: Amount, k: usize) -> (r: Amount)
    requires
        k < 5,
    ensures
        r.attos == denomination(base.attos as nat, k as int),
{
    let m: u128 = if k == 0 { 1 } else if k == 1 { 5 } else if k == 2 { 25 } else if k == 3 { 100 } else { 250 };
    base.saturating_mul(m)
}

/// Bet limits for a balance: below the floor no chips and a minimum of zero;
/// otherwise five chips over the base that the balance calls for, the minimum bet
/// being the base. The maximum bet is the whole balance.
pub fn calculate_chip_set(balance: Amount) -> (r: ChipSet)
    ensures
        r.max_bet == balance,
        balance.attos < floor_attos() ==> {
            &&& r.min_bet.attos == 0
            &&& forall|k: int| 0 <= k < 5 ==> #[trigger] r.denominations@[k].attos == 0
            &&& forall|k: int| 0 <= k < 5 ==> #[trigger] r.denominations_str@[k]@ == Seq::<char>::empty()
            &&& forall|k: int| 0 <= k < 5 ==> !#[trigger] r.enabled@[k]
        },
        balance.attos >= floor_attos() ==> {
            &&& r.min_bet.attos == chip_base(balance.attos as nat)
            &&& chips_match(balance.attos as nat, r.denominations@, r.denominations_str@, r.enabled@)
        },
{
    if balance.attos < MIN_CHIP_TOKENS * ATTOS_PER_TOKEN {
        let z = Amount::zero();
        return ChipSet {
            min_bet: z,
            max_bet: balance,
            denominations: [z, z, z, z, z],
            denominations_str: [String::new(), String::new(), String::new(), String::new(), String::new()],
            enabled: [false, false, false, false, false],
        };
    }
    let base = chip_base_for(balance);
    let one = Amount::one();
    let d0 = chip_value(base, 0);
    let d1 = chip_value(base, 1);
    let d2 = chip_value(base, 2);
    let d3 = chip_value(base, 3);
    let d4 = chip_value(base, 4);
    let r = ChipSet {
        min_bet: d0,
        max_bet: balance,
        denominations: [d0, d1, d2, d3, d4],
        denominations_str: [
            format_units(d0.saturating_div(one)),
            format_units(d1.saturating_div(one)),
            format_units(d2.saturating_div(one)),
            format_units(d3.saturating_div(one)),
            format_units(d4.saturating_div(one)),
        ],
        enabled: [
            d0.attos <= balance.attos,
            d1.attos <= balance.attos,
            d2.attos <= balance.attos,
            d3.attos <= balance.attos,
            d4.attos <= balance.attos,
        ],
    };
    assert(chip_multiplier(0) == 1);
    r
}

} // verus!

verus! {

proof fn lemma_chip_base_from(b: nat, balance: nat, k: nat)
    requires
        b == floor_attos() * pow10(k),
        floor_attos() <= b <= balance <= u128::MAX,
        b == floor_attos() || outgrows(b / 10, balance),
    ensures
        floor_attos() <= chip_base_from(b, balance) <= balance,
        chip_base_from(b, balance) * 500 > balance || chip_base_from(b, balance) * 10 > u128::MAX,
        chip_base_from(b, balance) == floor_attos() || outgrows(chip_base_from(b, balance) / 10, balance),
        exists|j: nat| chip_base_from(b, balance) == floor_attos() * pow10(j),
    decreases (u128::MAX as int) - b,
{
    if b > 0 && b * 10 <= u128::MAX && outgrows(b, balance) {
        assert(b * 10 <= b * 500) by (nonlinear_arith)
            requires b > 0;
        assert(floor_attos() * pow10(k + 1) == b * 10) by (nonlinear_arith)
            requires b == floor_attos() * pow10(k), pow10(k + 1) == 10 * pow10(k);
        assert((b * 10) / 10 == b);
        lemma_chip_base_from(b * 10, balance, k + 1);
    } else {
        assert(b == floor_attos() * pow10(k));
    }
}

/// Below the floor no base applies; at or above it the base (the minimum bet) is
/// the floor scaled up by a power of ten, at most the balance (the maximum bet),
/// with 500 times the base above the balance unless ten times the base would not
/// fit, and with a tenth of the base (where the base is above the floor) reaching
/// the point at which the balance outgrows it.
pub proof fn lemma_chip_base(balance: nat)
    requires
        floor_attos() <= balance <= u128::MAX,
    ensures
        floor_attos() <= chip_base(balance) <= balance,
        chip_base(balance) * 500 > balance || chip_base(balance) * 10 > u128::MAX,
        chip_base(balance) == floor_attos() || outgrows(chip_base(balance) / 10, balance),
        exists|k: nat| chip_base(balance) == floor_attos() * pow10(k),
{
    assert(pow10(0) == 1);
    assert(floor_attos() == floor_attos() * pow10(0)) by (nonlinear_arith)
        requires pow10(0) == 1;
    lemma_chip_base_from(floor_attos(), balance, 0);
}

} // verus!
