use crate::feed::RootCard;
use std::collections::HashMap;
use vstd::prelude::*;
use vstd::std_specs::hash::group_hash_axioms;
use vstd::string::StringExecFns;

verus! {

broadcast use group_hash_axioms;

/// The character of a decimal digit.
pub open spec fn digit_char(d: nat) -> char {
    if d == 0 { '0' }
    else if d == 1 { '1' }
    else if d == 2 { '2' }
    else if d == 3 { '3' }
    else if d == 4 { '4' }
    else if d == 5 { '5' }
    else if d == 6 { '6' }
    else if d == 7 { '7' }
    else if d == 8 { '8' }
    else { '9' }
}

pub open spec fn is_digit(c: char) -> bool {
    '0' <= c <= '9'
}

/// The decimal digits of `n`, most significant first, without leading zeros.
pub open spec fn decimal(n: nat) -> Seq<char>
    decreases n,
{
    if n < 10 {
        seq![digit_char(n)]
    } else {
        decimal(n / 10).push(digit_char(n % 10))
    }
}

/// The name of the screenshot file of the `ordinal`-th post of a date:
/// `{month}-{day}-{ordinal}.png`.
pub open spec fn file_name_text(month: nat, day: nat, ordinal: nat) -> Seq<char> {
    decimal(month) + (seq!['-'] + (decimal(day) + (seq!['-'] + (decimal(ordinal) + seq!['.', 'p', 'n', 'g']))))
}

/// Relies on std's `ToString` for `u64`, which writes the number in decimal
/// with no sign, padding or leading zeros.
#[verifier::external_body]
fn decimal_string(n: u64) -> (r: String)
    ensures
        r@ == decimal(n as nat),
{
    n.to_string()
}

/// The name of the screenshot file of the `ordinal`-th post of a date.
pub fn file_name(month: u32, day: u32, ordinal: u64) -> (r: String)
    ensures
        r@ == file_name_text(month as nat, day as nat, ordinal as nat),
{
    proof {
        reveal_strlit("-");
        reveal_strlit(".png");
    }
    let mut s = decimal_string(month as u64);
    s.append("-");
    let d = decimal_string(day as u64);
    s.append(d.as_str());
    s.append("-");
    let q = decimal_string(ordinal);
    s.append(q.as_str());
    s.append(".png");
    assert(s@ =~= file_name_text(month as nat, day as nat, ordinal as nat));
    s
}

/// The calendar date (month, day) of a card, under the post's own offset.
pub open spec fn date_of(card: RootCard) -> (u32, u32) {
    (card.mblog.created_at.month, card.mblog.created_at.day)
}

pub open spec fn card_dates(cards: Seq<RootCard>) -> Seq<(u32, u32)> {
    cards.map_values(|c: RootCard| date_of(c))
}

/// How many times `d` occurs in `dates`.
pub open spec fn occurrences(dates: Seq<(u32, u32)>, d: (u32, u32)) -> nat
    decreases dates.len(),
{
    if dates.len() == 0 {
        0
    } else {
        occurrences(dates.drop_last(), d) + if dates.last() == d { 1nat } else { 0nat }
    }
}

/// The rank of entry `i` among the entries of its date, counting from 1.
pub open spec fn ordinal(dates: Seq<(u32, u32)>, i: int) -> nat {
    occurrences(dates.take(i + 1), dates[i])
}

/// The file names of a sequence of dates, one for each, in order.
pub open spec fn sequenced_names(dates: Seq<(u32, u32)>) -> Seq<Seq<char>> {
    Seq::new(
        dates.len(),
        |i: int| file_name_text(dates[i].0 as nat, dates[i].1 as nat, ordinal(dates, i)),
    )
}

/// The key of a date in the counter map.
pub open spec fn date_key(d: (u32, u32)) -> u64 {
    ((d.0 as u64) << 32u64) | (d.1 as u64)
}

proof fn lemma_date_key_injective(a: (u32, u32), b: (u32, u32))
    ensures
        date_key(a) == date_key(b) ==> a == b,
{
    let (am, ad) = a;
    let (bm, bd) = b;
    assert((((am as u64) << 32u64) | (ad as u64)) == (((bm as u64) << 32u64) | (bd as u64)) ==> am
        == bm && ad == bd) by (bit_vector);
}

proof fn lemma_occurrences_bound(dates: Seq<(u32, u32)>, d: (u32, u32))
    ensures
        occurrences(dates, d) <= dates.len(),
    decreases dates.len(),
{
    if dates.len() > 0 {
        lemma_occurrences_bound(dates.drop_last(), d);
    }
}

proof fn lemma_occurrences_step(dates: Seq<(u32, u32)>, i: int, d: (u32, u32))
    requires
        0 <= i < dates.len(),
    ensures
        occurrences(dates.take(i + 1), d) == occurrences(dates.take(i), d) + if dates[i] == d {
            1nat
        } else {
            0nat
        },
{
    assert(dates.take(i + 1).drop_last() =~= dates.take(i));
}

proof fn lemma_occurrences_monotone(dates: Seq<(u32, u32)>, a: int, b: int, d: (u32, u32))
    requires
        0 <= a <= b <= dates.len(),
    ensures
        occurrences(dates.take(a), d) <= occurrences(dates.take(b), d),
    decreases b - a,
{
    if a < b {
        lemma_occurrences_step(dates, b - 1, d);
        lemma_occurrences_monotone(dates, a, b - 1, d);
    }
}

proof fn lemma_decimal_shape(n: nat)
    ensures
        decimal(n).len() >= 1,
        n >= 10 ==> decimal(n).len() >= 2,
        forall|i: int| 0 <= i < decimal(n).len() ==> is_digit(#[trigger] decimal(n)[i]),
    decreases n,
{
    if n >= 10 {
        lemma_decimal_shape(n / 10);
        let p = decimal(n / 10);
        assert forall|i: int| 0 <= i < decimal(n).len() implies is_digit(#[trigger] decimal(n)[i]) by {
            if i < p.len() {
                assert(decimal(n)[i] == p[i]);
            }
        }
    }
}

proof fn lemma_decimal_injective(a: nat, b: nat)
    requires
        decimal(a) == decimal(b),
    ensures
        a == b,
    decreases a,
{
    lemma_decimal_shape(a);
    lemma_decimal_shape(b);
    if a >= 10 && b >= 10 {
        let pa = decimal(a / 10);
        let pb = decimal(b / 10);
        assert(pa =~= decimal(a).drop_last());
        assert(pb =~= decimal(b).drop_last());
        assert(digit_char(a % 10) == decimal(a).last());
        assert(digit_char(b % 10) == decimal(b).last());
        lemma_digit_char_injective(a % 10, b % 10);
        lemma_decimal_injective(a / 10, b / 10);
        assert(a == b) by (nonlinear_arith)
            requires
                a / 10 == b / 10,
                a % 10 == b % 10,
        ;
    } else if a < 10 && b < 10 {
        assert(decimal(a)[0] == digit_char(a));
        assert(decimal(b)[0] == digit_char(b));
        lemma_digit_char_injective(a, b);
    }
}

proof fn lemma_digit_char_injective(x: nat, y: nat)
    requires
        x < 10,
        y < 10,
        digit_char(x) == digit_char(y),
    ensures
        x == y,
{
}

/// Splits a decimal number off the front of a text when a non-digit follows it.
proof fn lemma_decimal_prefix(a: nat, s: Seq<char>, b: nat, t: Seq<char>)
    requires
        s.len() > 0,
        t.len() > 0,
        !is_digit(s[0]),
        !is_digit(t[0]),
        decimal(a) + s == decimal(b) + t,
    ensures
        a == b,
        s == t,
{
    let da = decimal(a);
    let db = decimal(b);
    lemma_decimal_shape(a);
    lemma_decimal_shape(b);
    if da.len() < db.len() {
        assert((da + s)[da.len() as int] == s[0]);
        assert((db + t)[da.len() as int] == db[da.len() as int]);
    } else if db.len() < da.len() {
        assert((db + t)[db.len() as int] == t[0]);
        assert((da + s)[db.len() as int] == da[db.len() as int]);
    }
    assert(da =~= (da + s).subrange(0, da.len() as int));
    assert(db =~= (db + t).subrange(0, db.len() as int));
    assert(s =~= (da + s).subrange(da.len() as int, (da + s).len() as int));
    assert(t =~= (db + t).subrange(db.len() as int, (db + t).len() as int));
    lemma_decimal_injective(a, b);
}

/// Distinct (month, day, ordinal) triples have distinct file names.
pub proof fn lemma_file_name_injective(m1: nat, d1: nat, q1: nat, m2: nat, d2: nat, q2: nat)
    requires
        file_name_text(m1, d1, q1) == file_name_text(m2, d2, q2),
    ensures
        m1 == m2,
        d1 == d2,
        q1 == q2,
{
    let png = seq!['.', 'p', 'n', 'g'];
    let tail1 = seq!['-'] + (decimal(d1) + (seq!['-'] + (decimal(q1) + png)));
    let tail2 = seq!['-'] + (decimal(d2) + (seq!['-'] + (decimal(q2) + png)));
    lemma_decimal_prefix(m1, tail1, m2, tail2);
    assert(tail1.drop_first() =~= decimal(d1) + (seq!['-'] + (decimal(q1) + png)));
    assert(tail2.drop_first() =~= decimal(d2) + (seq!['-'] + (decimal(q2) + png)));
    let rest1 = seq!['-'] + (decimal(q1) + png);
    let rest2 = seq!['-'] + (decimal(q2) + png);
    lemma_decimal_prefix(d1, rest1, d2, rest2);
    assert(rest1.drop_first() =~= decimal(q1) + png);
    assert(rest2.drop_first() =~= decimal(q2) + png);
    lemma_decimal_prefix(q1, png, q2, png);
}

/// Naming is a function of the ordered dates alone: the same ordered cards
/// always get the same names.
pub proof fn lemma_sequence_deterministic(a: Seq<RootCard>, b: Seq<RootCard>)
    requires
        card_dates(a) == card_dates(b),
    ensures
        sequenced_names(card_dates(a)) == sequenced_names(card_dates(b)),
{
}

/// No two cards of one run get the same file name.
pub proof fn lemma_sequence_unique(dates: Seq<(u32, u32)>, i: int, j: int)
    requires
        0 <= i < dates.len(),
        0 <= j < dates.len(),
        i != j,
    ensures
        sequenced_names(dates)[i] != sequenced_names(dates)[j],
{
    let (lo, hi) = if i < j { (i, j) } else { (j, i) };
    let names = sequenced_names(dates);
    if names[lo] == names[hi] {
        lemma_file_name_injective(
            dates[lo].0 as nat, dates[lo].1 as nat, ordinal(dates, lo),
            dates[hi].0 as nat, dates[hi].1 as nat, ordinal(dates, hi),
        );
        assert(dates[lo] == dates[hi]);
        let d = dates[hi];
        lemma_occurrences_monotone(dates, lo + 1, hi, d);
        lemma_occurrences_step(dates, hi, d);
        assert(false);
    }
}

/// Names the screenshot file of each card, in order: the `n`-th card of a
/// calendar date is named `{month}-{day}-{n}.png`.
pub fn sequence(cards: &Vec<RootCard>) -> (r: Vec<String>)
    ensures
        r@.len() == cards@.len(),
        forall|i: int| 0 <= i < r@.len() ==> #[trigger] r@[i]@ == sequenced_names(card_dates(cards@))[i],
{
    let ghost dates = card_dates(cards@);
    let mut counters: HashMap<u64, u64> = HashMap::new();
    let mut names: Vec<String> = Vec::new();
    let mut i: usize = 0;
    while i < cards.len()
        invariant
            0 <= i <= cards@.len(),
            dates == card_dates(cards@),
            names@.len() == i,
            forall|j: int| 0 <= j < i ==> #[trigger] names@[j]@ == sequenced_names(dates)[j],
            forall|d: (u32, u32)|
                #[trigger] occurrences(dates.take(i as int), d) == if counters@.contains_key(date_key(d)) {
                    counters@[date_key(d)] as nat
                } else {
                    0nat
                },
        decreases cards@.len() - i,
    {
        let month = cards[i].mblog.created_at.month;
        let day = cards[i].mblog.created_at.day;
        let ghost d = (month, day);
        assert(dates[i as int] == d);
        let key: u64 = ((month as u64) << 32u64) | (day as u64);
        assert(key == date_key(d));
        let seen: u64 = match counters.get(&key) {
            Some(c) => *c,
            None => 0,
        };
        proof {
            lemma_occurrences_bound(dates.take(i as int), d);
            assert(seen == occurrences(dates.take(i as int), d));
        }
        let count: u64 = seen + 1;
        counters.insert(key, count);
        proof {
            assert forall|e: (u32, u32)|
                #[trigger] occurrences(dates.take(i + 1), e) == if counters@.contains_key(
                    date_key(e),
                ) {
                    counters@[date_key(e)] as nat
                } else {
                    0nat
                } by {
                lemma_occurrences_step(dates, i as int, e);
                lemma_date_key_injective(d, e);
            }
            lemma_occurrences_step(dates, i as int, d);
        }
        let name = file_name(month, day, count);
        names.push(name);
        i = i + 1;
    }
    names
}

} // verus!
