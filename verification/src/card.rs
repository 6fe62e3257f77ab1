//! Cards and their two-character names.
//!
//! A card is an index below 52: four times its rank (deuce 0 up to ace 12)
//! plus its suit (clubs 0, diamonds 1, hearts 2, spades 3). Its name is a rank
//! character (`2`-`9`, `T`, `J`, `Q`, `K`, `A`; the letters in either case
//! when read) followed by a suit character (`c`, `d`, `h`, `s`).
use vstd::prelude::*;

verus! {

/// The number of cards in the deck.
pub const NUM_CARDS: u8 = 52;

/// The rank a character names, if it names one.
pub open spec fn rank_value(c: char) -> Option<u8> {
    match c {
        '2' => Some(0u8),
        '3' => Some(1u8),
        '4' => Some(2u8),
        '5' => Some(3u8),
        '6' => Some(4u8),
        '7' => Some(5u8),
        '8' => Some(6u8),
        '9' => Some(7u8),
        'T' | 't' => Some(8u8),
        'J' | 'j' => Some(9u8),
        'Q' | 'q' => Some(10u8),
        'K' | 'k' => Some(11u8),
        'A' | 'a' => Some(12u8),
        _ => None,
    }
}

/// The suit a character names, if it names one.
pub open spec fn suit_value(c: char) -> Option<u8> {
    match c {
        'c' => Some(0u8),
        'd' => Some(1u8),
        'h' => Some(2u8),
        's' => Some(3u8),
        _ => None,
    }
}

/// The character written for a rank.
pub open spec fn rank_char(r: u8) -> char {
    match r {
        0 => '2',
        1 => '3',
        2 => '4',
        3 => '5',
        4 => '6',
        5 => '7',
        6 => '8',
        7 => '9',
        8 => 'T',
        9 => 'J',
        10 => 'Q',
        11 => 'K',
        _ => 'A',
    }
}

/// The character written for a suit.
pub open spec fn suit_char(s: u8) -> char {
    match s {
        0 => 'c',
        1 => 'd',
        2 => 'h',
        _ => 's',
    }
}

/// The card named by the first two characters of `s`, or why there is none.
pub open spec fn card_prefix(s: Seq<char>) -> Result<u8, Seq<char>> {
    if s.len() < 2 {
        Err("Unexpected end"@)
    } else if rank_value(s[0]) is None {
        Err("Expected rank character: "@ + seq![s[0]])
    } else if suit_value(s[1]) is None {
        Err("Expected suit character: "@ + seq![s[1]])
    } else {
        Ok((4 * rank_value(s[0])->0 + suit_value(s[1])->0) as u8)
    }
}

/// The card that `s` names, or why it names none.
pub open spec fn card_of_name(s: Seq<char>) -> Result<u8, Seq<char>> {
    match card_prefix(s) {
        Err(e) => Err(e),
        Ok(c) => if s.len() > 2 {
            Err("Expected exactly two characters"@)
        } else {
            Ok(c)
        },
    }
}

/// The three flop cards that `s` names, in the order written, or why it
/// names none.
pub open spec fn flop_of_name(s: Seq<char>) -> Result<Seq<u8>, Seq<char>> {
    match card_prefix(s) {
        Err(e) => Err(e),
        Ok(c0) => match card_prefix(s.skip(2)) {
            Err(e) => Err(e),
            Ok(c1) => match card_prefix(s.skip(4)) {
                Err(e) => Err(e),
                Ok(c2) => if s.len() > 6 {
                    Err("Expected exactly six characters"@)
                } else if c0 == c1 || c0 == c2 || c1 == c2 {
                    Err("Cards must be unique"@)
                } else {
                    Ok(seq![c0, c1, c2])
                },
            },
        },
    }
}

/// The decimal digit character for `d` below 10.
pub open spec fn digit_char(d: nat) -> char {
    if d == 0 { '0' }
    else if d == 1 { '1' }
    else if d == 2 { '2' }
    else if d == 3 { '3' }
    else if d == 4 { '4' }
    else if d == 5 { '5' }
    else if d == 6 { '6' }
    else if d == 7 { '7' }
    else if d == 8 { '8' }
    else { '9' }
}

/// The decimal numeral of `n`.
pub open spec fn decimal(n: nat) -> Seq<char>
    decreases n,
{
    if n < 10 {
        seq![digit_char(n)]
    } else {
        decimal(n / 10) + seq![digit_char(n % 10)]
    }
}

/// The name of a card, or why a value is no card.
pub open spec fn name_of_card(card: u8) -> Result<Seq<char>, Seq<char>> {
    if card < 52 {
        Ok(seq![rank_char(card / 4), suit_char(card % 4)])
    } else {
        Err("Invalid card: "@ + decimal(card as nat))
    }
}

/// The name of a hole-card pair, higher card first, or why it has none.
pub open spec fn name_of_hole(hole: (u8, u8)) -> Result<Seq<char>, Seq<char>> {
    let hi = if hole.0 < hole.1 { hole.1 } else { hole.0 };
    let lo = if hole.0 < hole.1 { hole.0 } else { hole.1 };
    match name_of_card(hi) {
        Err(e) => Err(e),
        Ok(h) => match name_of_card(lo) {
            Err(e) => Err(e),
            Ok(l) => Ok(h + l),
        },
    }
}

/// Reading the name written for a card gives that card back, and every name
/// that reads as a card reads as one below 52, which has a name.
pub proof fn lemma_card_name_round_trip(card: u8, s: Seq<char>)
    ensures
        card < 52 ==> (name_of_card(card) matches Ok(name) && card_of_name(name) == Ok::<u8, Seq<char>>(card)),
        card_of_name(s) matches Ok(c) ==> c < 52 && name_of_card(c) is Ok,
{
    if card < 52 {
        let r = card / 4;
        let t = card % 4;
        assert(rank_value(rank_char(r)) == Some(r));
        assert(suit_value(suit_char(t)) == Some(t));
    }
}

/// The name of a hole-card pair does not depend on the order of the two cards.
pub proof fn lemma_hole_name_symmetric(a: u8, b: u8)
    ensures
        name_of_hole((a, b)) == name_of_hole((b, a)),
{
}

/// A flop that reads successfully is three different cards, each below 52.
pub proof fn lemma_flop_cards_valid(s: Seq<char>)
    ensures
        flop_of_name(s) matches Ok(f) ==> f.len() == 3 && f[0] != f[1] && f[0] != f[2] && f[1] != f[2]
            && f[0] < 52 && f[1] < 52 && f[2] < 52,
{
}

/// Card indices follow the rank characters `23456789TJQKA` in that order and
/// the suit characters `cdhs` in that order: the card whose name is the
/// `i`-th rank character and the `j`-th suit character is `4 * i + j`, and
/// that card's name is those two characters.
pub proof fn lemma_card_index_order(i: int, j: int)
    requires
        0 <= i < 13,
        0 <= j < 4,
    ensures
        card_of_name(seq!["23456789TJQKA"@[i], "cdhs"@[j]]) == Ok::<u8, Seq<char>>((4 * i + j) as u8),
        name_of_card((4 * i + j) as u8) == Ok::<Seq<char>, Seq<char>>(seq!["23456789TJQKA"@[i], "cdhs"@[j]]),
{
    reveal_strlit("23456789TJQKA");
    reveal_strlit("cdhs");
    let c = (4 * i + j) as u8;
    assert(c / 4 == i && c % 4 == j);
}

proof fn lemma_name_then_rest(c: u8, rest: Seq<char>)
    requires
        c < 52,
    ensures
        name_of_card(c)->Ok_0.len() == 2,
        card_prefix(name_of_card(c)->Ok_0 + rest) == Ok::<u8, Seq<char>>(c),
{
    lemma_card_name_round_trip(c, Seq::empty());
    let n = name_of_card(c)->Ok_0;
    assert((n + rest)[0] == n[0] && (n + rest)[1] == n[1]);
}

/// Three cards written one after the other read as a flop exactly when the
/// three cards differ, whatever their ranks and suits: then the flop is those
/// cards in the order written; two equal cards are refused as not unique.
pub proof fn lemma_flop_of_three_names(c0: u8, c1: u8, c2: u8)
    requires
        c0 < 52,
        c1 < 52,
        c2 < 52,
    ensures
        ({
            let s = name_of_card(c0)->Ok_0 + name_of_card(c1)->Ok_0 + name_of_card(c2)->Ok_0;
            &&& (c0 != c1 && c0 != c2 && c1 != c2) ==> flop_of_name(s) == Ok::<Seq<u8>, Seq<char>>(seq![c0, c1, c2])
            &&& !(c0 != c1 && c0 != c2 && c1 != c2) ==> flop_of_name(s) == Err::<Seq<u8>, Seq<char>>("Cards must be unique"@)
        }),
{
    let (n0, n1, n2) = (name_of_card(c0)->Ok_0, name_of_card(c1)->Ok_0, name_of_card(c2)->Ok_0);
    let s = n0 + n1 + n2;
    lemma_name_then_rest(c0, n1 + n2);
    lemma_name_then_rest(c1, n2);
    lemma_name_then_rest(c2, Seq::empty());
    assert(s =~= n0 + (n1 + n2));
    assert(s.skip(2) =~= n1 + n2);
    assert(s.skip(4) =~= n2 + Seq::<char>::empty());
    assert(s.len() == 6);
}

/// A hole-card pair is named with the card of the larger index first: its
/// first two characters read as the larger card and its last two as the
/// smaller one.
pub proof fn lemma_hole_name_larger_first(a: u8, b: u8)
    requires
        a < 52,
        b < 52,
    ensures
        name_of_hole((a, b)) is Ok,
        ({
            let name = name_of_hole((a, b))->Ok_0;
            let larger = if a >= b { a } else { b };
            let smaller = if a >= b { b } else { a };
            &&& name.len() == 4
            &&& card_of_name(name.take(2)) == Ok::<u8, Seq<char>>(larger)
            &&& card_of_name(name.skip(2)) == Ok::<u8, Seq<char>>(smaller)
        }),
{
    let larger = if a >= b { a } else { b };
    let smaller = if a >= b { b } else { a };
    lemma_card_name_round_trip(larger, Seq::empty());
    lemma_card_name_round_trip(smaller, Seq::empty());
    let name = name_of_hole((a, b))->Ok_0;
    assert(name =~= name_of_card(larger)->Ok_0 + name_of_card(smaller)->Ok_0);
    assert(name.take(2) =~= name_of_card(larger)->Ok_0);
    assert(name.skip(2) =~= name_of_card(smaller)->Ok_0);
}

/// A card result with its message taken by its view.
pub open spec fn card_result_view(r: Result<u8, String>) -> Result<u8, Seq<char>> {
    match r {
        Ok(c) => Ok(c),
        Err(e) => Err(e@),
    }
}

/// A text result with both sides taken by their views.
pub open spec fn text_result_view(r: Result<String, String>) -> Result<Seq<char>, Seq<char>> {
    match r {
        Ok(s) => Ok(s@),
        Err(e) => Err(e@),
    }
}

/// The one-character string of `c` (std's `ToString` for `char`).
#[verifier::external_body]
fn char_to_string(c: char) -> (r: String)
    ensures
        r@ == seq![c],
{
    c.to_string()
}

fn rank_of(c: char) -> (r: Option<u8>)
    ensures
        r == rank_value(c),
{
    match c {
        '2' => Some(0),
        '3' => Some(1),
        '4' => Some(2),
        '5' => Some(3),
        '6' => Some(4),
        '7' => Some(5),
        '8' => Some(6),
        '9' => Some(7),
        'T' | 't' => Some(8),
        'J' | 'j' => Some(9),
        'Q' | 'q' => Some(10),
        'K' | 'k' => Some(11),
        'A' | 'a' => Some(12),
        _ => None,
    }
}

fn suit_of(c: char) -> (r: Option<u8>)
    ensures
        r == suit_value(c),
{
    match c {
        'c' => Some(0),
        'd' => Some(1),
        'h' => Some(2),
        's' => Some(3),
        _ => None,
    }
}

fn rank_to_char(r: u8) -> (c: char)
    ensures
        c == rank_char(r),
{
    match r {
        0 => '2',
        1 => '3',
        2 => '4',
        3 => '5',
        4 => '6',
        5 => '7',
        6 => '8',
        7 => '9',
        8 => 'T',
        9 => 'J',
        10 => 'Q',
        11 => 'K',
        _ => 'A',
    }
}

fn suit_to_char(s: u8) -> (c: char)
    ensures
        c == suit_char(s),
{
    match s {
        0 => 'c',
        1 => 'd',
        2 => 'h',
        _ => 's',
    }
}

fn digit_to_char(d: u8) -> (c: char)
    requires
        d < 10,
    ensures
        c == digit_char(d as nat),
{
    match d {
        0 => '0',
        1 => '1',
        2 => '2',
        3 => '3',
        4 => '4',
        5 => '5',
        6 => '6',
        7 => '7',
        8 => '8',
        _ => '9',
    }
}

/// The decimal numeral of `n`.
pub fn u8_to_decimal(n: u8) -> (r: String)
    ensures
        r@ == decimal(n as nat),
{
    reveal_with_fuel(decimal, 3);
    if n < 10 {
        char_to_string(digit_to_char(n))
    } else if n < 100 {
        let tens = char_to_string(digit_to_char(n / 10));
        let ones = char_to_string(digit_to_char(n % 10));
        tens.concat(ones.as_str())
    } else {
        assert((n / 10) / 10 == n / 100 && (n / 10) % 10 == (n % 100) / 10);
        let hundreds = char_to_string(digit_to_char(n / 100));
        let tens = char_to_string(digit_to_char((n % 100) / 10));
        let ones = char_to_string(digit_to_char(n % 10));
        let r = hundreds.concat(tens.as_str());
        assert(decimal((n / 10) as nat) =~= seq![digit_char((n / 100) as nat), digit_char(((n % 100) / 10) as nat)]);
        r.concat(ones.as_str())
    }
}

/// Reads the card named at positions `i` and `i + 1` of `s`, where `n` is the
/// number of characters of `s`; what follows is not looked at.
fn card_at(s: &str, n: usize, i: usize) -> (r: Result<u8, String>)
    requires
        n == s@.len(),
        i <= n,
    ensures
        card_result_view(r) == card_prefix(s@.skip(i as int)),
{
    let ghost t = s@.skip(i as int);
    if n - i < 2 {
        return Err(String::from_str("Unexpected end"));
    }
    let rank_c = s.get_char(i);
    let suit_c = s.get_char(i + 1);
    assert(t[0] == rank_c && t[1] == suit_c);
    match rank_of(rank_c) {
        None => Err(String::from_str("Expected rank character: ").concat(char_to_string(rank_c).as_str())),
        Some(rank) => match suit_of(suit_c) {
            None => Err(String::from_str("Expected suit character: ").concat(char_to_string(suit_c).as_str())),
            Some(suit) => Ok(4 * rank + suit),
        },
    }
}

/// Reads a card from its two-character name.
pub fn card_from_str(s: &str) -> (r: Result<u8, String>)
    ensures
        card_result_view(r) == card_of_name(s@),
{
    let n = s.unicode_len();
    assert(s@.skip(0) =~= s@);
    let card = card_at(s, n, 0)?;
    if n > 2 {
        return Err(String::from_str("Expected exactly two characters"));
    }
    Ok(card)
}

/// Reads the three flop cards from six characters, keeping the order in
/// which they are written; the three must differ.
pub fn flop_from_str(s: &str) -> (r: Result<[u8; 3], String>)
    ensures
        r matches Ok(f) ==> flop_of_name(s@) == Ok::<Seq<u8>, Seq<char>>(f@),
        r matches Err(e) ==> flop_of_name(s@) == Err::<Seq<u8>, Seq<char>>(e@),
{
    let n = s.unicode_len();
    assert(s@.skip(0) =~= s@);
    let c0 = card_at(s, n, 0)?;
    let c1 = card_at(s, n, 2)?;
    let c2 = card_at(s, n, 4)?;
    if n > 6 {
        return Err(String::from_str("Expected exactly six characters"));
    }
    if c0 == c1 || c0 == c2 || c1 == c2 {
        return Err(String::from_str("Cards must be unique"));
    }
    let flop = [c0, c1, c2];
    assert(flop@ =~= seq![c0, c1, c2]);
    Ok(flop)
}

/// Writes the two-character name of a card.
pub fn card_to_string(card: u8) -> (r: Result<String, String>)
    ensures
        text_result_view(r) == name_of_card(card),
{
    if card < NUM_CARDS {
        let rank = char_to_string(rank_to_char(card / 4));
        let suit = char_to_string(suit_to_char(card % 4));
        let name = rank.concat(suit.as_str());
        assert(name@ =~= seq![rank_char(card / 4), suit_char(card % 4)]);
        Ok(name)
    } else {
        Err(String::from_str("Invalid card: ").concat(u8_to_decimal(card).as_str()))
    }
}

/// Writes the name of a hole-card pair: the higher card first.
pub fn hole_to_string(hole: (u8, u8)) -> (r: Result<String, String>)
    ensures
        text_result_view(r) == name_of_hole(hole),
{
    let (hi, lo) = if hole.0 < hole.1 { (hole.1, hole.0) } else { (hole.0, hole.1) };
    let hi_name = card_to_string(hi)?;
    let lo_name = card_to_string(lo)?;
    Ok(hi_name.concat(lo_name.as_str()))
}

} // verus!
