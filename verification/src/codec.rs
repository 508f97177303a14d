//! Conversion between numeric video ids ("av" ids) and short codes ("BV" codes).
//!
//! A short code is the prefix `BV` followed by ten symbols. The symbols are the
//! base-58 digits of `(id XOR XOR_MASK) + ADD_OFFSET`, written in the alphabet
//! `ALPHABET` and placed in the order that `SLOTS` fixes.

use vstd::prelude::*;
use vstd::string::*;

verus! {

/// The 58 symbols of a short code; the symbol at index `d` stands for the digit `d`.
pub const ALPHABET: &'static str = "fZodR9XQDSUm21yCkr6zBqiveYah8bt4xsWpHnJE7jL5VG3guMTKNPAwcF";

/// Mask that is XORed onto a numeric id before it is written in base 58.
pub const XOR_MASK: i64 = 177451812;

/// Offset that is added to the masked id before it is written in base 58.
pub const ADD_OFFSET: i64 = 100618342136696320;

/// `SLOTS[i]` is the place, among the ten symbols, of the digit of weight `58^i`.
pub const SLOTS: [usize; 10] = [9, 8, 1, 6, 2, 4, 0, 7, 3, 5];

/// Why a string is not a short code.
#[derive(Debug, Clone, Copy, PartialEq, Eq, Structural)]
pub enum DecodeError {
    /// The string is not `BV` followed by exactly ten characters.
    InvalidLength,
    /// One of the ten characters after the prefix is not in the alphabet.
    UnknownSymbol,
}

/// The alphabet as a sequence of characters.
pub open spec fn alphabet() -> Seq<char> {
    ALPHABET@
}

/// `58^i`.
pub open spec fn pow58(i: nat) -> nat
    decreases i,
{
    if i == 0 {
        1
    } else {
        58 * pow58((i - 1) as nat)
    }
}

/// The number whose base-58 digits a short code shows.
pub open spec fn scramble(id: i64) -> int {
    (id ^ XOR_MASK) + ADD_OFFSET
}

/// The id that `scramble` maps to `v`.
pub open spec fn unscramble(v: int) -> i64 {
    ((v - ADD_OFFSET) as i64) ^ XOR_MASK
}

/// The base-58 digit of weight `58^i` in `v`.
pub open spec fn digit(v: int, i: nat) -> int {
    (v / (pow58(i) as int)) % 58
}

/// The digit index whose symbol stands in place `slot`: the inverse of `SLOTS`.
pub open spec fn digit_of_slot(slot: int) -> nat {
    seq![6nat, 2, 4, 8, 5, 9, 3, 7, 1, 0][slot]
}

/// The short code of `id`.
pub open spec fn short_code(id: i64) -> Seq<char> {
    Seq::new(
        12,
        |k: int|
            if k == 0 {
                'B'
            } else if k == 1 {
                'V'
            } else {
                alphabet()[digit(scramble(id), digit_of_slot(k - 2))]
            },
    )
}

/// Whether `c` is a symbol of the alphabet.
pub open spec fn is_symbol(c: char) -> bool {
    exists|d: int| 0 <= d < 58 && alphabet()[d] == c
}

/// The digit that the symbol `c` stands for.
pub open spec fn symbol_value(c: char) -> int {
    choose|d: int| 0 <= d < 58 && alphabet()[d] == c
}

/// Whether `code` is `BV` followed by ten characters.
pub open spec fn well_sized(code: Seq<char>) -> bool {
    code.len() == 12 && code[0] == 'B' && code[1] == 'V'
}

/// Whether the ten characters after the prefix are all symbols of the alphabet.
pub open spec fn symbols_known(code: Seq<char>) -> bool {
    forall|k: int| 2 <= k < 12 ==> is_symbol(#[trigger] code[k])
}

/// The number that the first `n` digits of `code` add up to.
pub open spec fn weighted_sum(code: Seq<char>, n: nat) -> int
    decreases n,
{
    if n == 0 {
        0
    } else {
        weighted_sum(code, (n - 1) as nat) + symbol_value(code[2 + SLOTS@[n - 1]]) * pow58(
            (n - 1) as nat,
        )
    }
}

/// What decoding `code` gives.
pub open spec fn decode(code: Seq<char>) -> Result<i64, DecodeError> {
    if !well_sized(code) {
        Err(DecodeError::InvalidLength)
    } else if !symbols_known(code) {
        Err(DecodeError::UnknownSymbol)
    } else {
        Ok(unscramble(weighted_sum(code, 10)))
    }
}

/// The alphabet has 58 symbols, listed here one by one.
pub proof fn lemma_alphabet()
    ensures
        alphabet() =~= seq![
            'f', 'Z', 'o', 'd', 'R', '9', 'X', 'Q', 'D', 'S', 'U', 'm', '2', '1', 'y', 'C', 'k',
            'r', '6', 'z', 'B', 'q', 'i', 'v', 'e', 'Y', 'a', 'h', '8', 'b', 't', '4', 'x', 's',
            'W', 'p', 'H', 'n', 'J', 'E', '7', 'j', 'L', '5', 'V', 'G', '3', 'g', 'u', 'M', 'T',
            'K', 'N', 'P', 'A', 'w', 'c', 'F',
        ],
        alphabet().len() == 58,
{
    reveal_strlit("fZodR9XQDSUm21yCkr6zBqiveYah8bt4xsWpHnJE7jL5VG3guMTKNPAwcF");
}

/// No symbol occurs twice in the alphabet.
pub proof fn lemma_alphabet_distinct()
    ensures
        forall|i: int, j: int|
            0 <= i < 58 && 0 <= j < 58 && alphabet()[i] == alphabet()[j] ==> i == j,
{
    lemma_alphabet();
    assert forall|i: int, j: int|
        0 <= i < 58 && 0 <= j < 58 && alphabet()[i] == alphabet()[j] implies i == j by {
        let a = alphabet()[i] as int;
        let b = alphabet()[j] as int;
        assert(a == b);
    }
}

/// The value of the symbol at index `d` is `d`.
pub proof fn lemma_symbol_value(d: int)
    requires
        0 <= d < 58,
    ensures
        is_symbol(alphabet()[d]),
        symbol_value(alphabet()[d]) == d,
{
    lemma_alphabet_distinct();
}

/// The powers of 58 that ten digits need.
pub proof fn lemma_pow58()
    ensures
        pow58(0) == 1,
        pow58(1) == 58,
        pow58(2) == 3364,
        pow58(3) == 195112,
        pow58(4) == 11316496,
        pow58(5) == 656356768,
        pow58(6) == 38068692544,
        pow58(7) == 2207984167552,
        pow58(8) == 128063081718016,
        pow58(9) == 7427658739644928,
        pow58(10) == 430804206899405824,
{
    reveal_with_fuel(pow58, 11);
}

/// `SLOTS` and `digit_of_slot` undo each other.
pub proof fn lemma_slots()
    ensures
        forall|i: int| 0 <= i < 10 ==> 0 <= #[trigger] SLOTS@[i] < 10,
        forall|i: int| 0 <= i < 10 ==> digit_of_slot(#[trigger] SLOTS@[i] as int) == i,
        forall|s: int| 0 <= s < 10 ==> SLOTS@[#[trigger] digit_of_slot(s) as int] == s,
        forall|s: int| 0 <= s < 10 ==> #[trigger] digit_of_slot(s) < 10,
{
}

/// The symbol that stands for the digit `d`.
fn symbol(d: usize) -> (c: char)
    requires
        d < 58,
    ensures
        c == alphabet()[d as int],
{
    proof {
        lemma_alphabet();
    }
    ALPHABET.get_char(d)
}

/// The digit that `c` stands for, if `c` is a symbol of the alphabet.
fn find_symbol(c: char) -> (r: Option<u64>)
    ensures
        r is Some <==> is_symbol(c),
        r matches Some(d) ==> d == symbol_value(c) && d < 58,
{
    proof {
        lemma_alphabet();
        lemma_alphabet_distinct();
    }
    let mut d: usize = 0;
    while d < 58
        invariant
            d <= 58,
            alphabet().len() == 58,
            forall|e: int| 0 <= e < d ==> alphabet()[e] != c,
        decreases 58 - d,
    {
        if ALPHABET.get_char(d) == c {
            proof {
                lemma_symbol_value(d as int);
            }
            return Some(d as u64);
        }
        d = d + 1;
    }
    None
}

/// The short code of the numeric id `avid`.
pub fn av_to_bv(avid: i64) -> (code: String)
    requires
        avid >= 0,
    ensures
        code@ == short_code(avid),
{
    let masked: i64 = avid ^ XOR_MASK;
    assert(0 <= masked) by (bit_vector)
        requires
            avid >= 0,
            masked == avid ^ 177451812i64,
    ;
    let x1: u64 = masked as u64 + ADD_OFFSET as u64;
    let mut symbols: Vec<char> = vec!['f'; 10];
    let mut pow: u64 = 1;
    let mut i: usize = 0;
    proof {
        lemma_pow58();
        lemma_slots();
    }
    while i < 10
        invariant
            i <= 10,
            symbols.len() == 10,
            pow == pow58(i as nat),
            x1 == scramble(avid),
            forall|j: int|
                0 <= j < i ==> symbols[SLOTS@[j] as int] == alphabet()[digit(
                    x1 as int,
                    j as nat,
                )],
        decreases 10 - i,
    {
        proof {
            lemma_pow58();
            lemma_slots();
        }
        let index: u64 = x1 / pow % 58;
        let c: char = symbol(index as usize);
        symbols.set(SLOTS[i], c);
        pow = pow * 58;
        i = i + 1;
    }
    let mut code: String = String::from_str("BV");
    proof {
        reveal_strlit("BV");
    }
    let mut k: usize = 0;
    while k < 10
        invariant
            k <= 10,
            symbols.len() == 10,
            code@ =~= short_code(avid).subrange(0, 2 + k),
            forall|s: int|
                0 <= s < 10 ==> symbols[s] == alphabet()[digit(
                    scramble(avid),
                    digit_of_slot(s),
                )],
        decreases 10 - k,
    {
        code.push(symbols[k]);
        k = k + 1;
    }
    code
}

/// The numeric id that the short code `code` stands for.
///
/// A string that is not `BV` followed by ten characters is refused as
/// `InvalidLength`; one with a character outside the alphabet among the ten, as
/// `UnknownSymbol`.
pub fn bv_to_av(code: &str) -> (r: Result<i64, DecodeError>)
    ensures
        r == decode(code@),
{
    if code.unicode_len() != 12 {
        return Err(DecodeError::InvalidLength);
    }
    if code.get_char(0) != 'B' || code.get_char(1) != 'V' {
        return Err(DecodeError::InvalidLength);
    }
    let mut v: u64 = 0;
    let mut pow: u64 = 1;
    let mut i: usize = 0;
    while i < 10
        invariant
            i <= 10,
            well_sized(code@),
            pow == pow58(i as nat),
            v == weighted_sum(code@, i as nat),
            v < pow,
            forall|j: int| 0 <= j < i ==> is_symbol(code@[2 + SLOTS@[j]]),
        decreases 10 - i,
    {
        proof {
            lemma_pow58();
            lemma_slots();
        }
        let c: char = code.get_char(2 + SLOTS[i]);
        match find_symbol(c) {
            None => {
                assert(!is_symbol(code@[2 + SLOTS@[i as int]]));
                return Err(DecodeError::UnknownSymbol);
            },
            Some(d) => {
                assert(d * pow <= 57 * pow) by (nonlinear_arith)
                    requires
                        d <= 57,
                        pow >= 0,
                ;
                v = v + d * pow;
                pow = pow * 58;
            },
        }
        i = i + 1;
    }
    proof {
        lemma_pow58();
        lemma_slots();
        assert forall|k: int| 2 <= k < 12 implies is_symbol(#[trigger] code@[k]) by {
            let j = digit_of_slot(k - 2) as int;
            assert(SLOTS@[j] == k - 2);
        }
    }
    Ok((v as i64 - ADD_OFFSET) ^ XOR_MASK)
}

/// The first `n` digits of `v`, each with its weight, add up to `v` modulo `58^n`.
pub proof fn lemma_digits_sum(v: int, code: Seq<char>, n: nat)
    requires
        0 <= v,
        n <= 10,
        code.len() == 12,
        forall|i: int|
            0 <= i < n ==> code[2 + SLOTS@[i]] == alphabet()[digit(v, i as nat)],
    ensures
        weighted_sum(code, n) == v % (pow58(n) as int),
    decreases n,
{
    lemma_pow58();
    if n > 0 {
        let m = (n - 1) as nat;
        lemma_digits_sum(v, code, m);
        let p = pow58(m) as int;
        let d = digit(v, m);
        assert(0 <= d < 58);
        lemma_symbol_value(d);
        assert(symbol_value(code[2 + SLOTS@[m as int]]) == d);
        assert(pow58(n) == 58 * p);
        vstd::arithmetic::div_mod::lemma_mod_breakdown(v, p, 58);
        assert(p * 58 == 58 * p && p * d == d * p) by (nonlinear_arith);
    }
}

/// Decoding the short code of an id gives the id back, for every id whose
/// scrambled value fits in ten base-58 digits.
pub proof fn lemma_decode_encode_fits(id: i64)
    requires
        0 <= id,
        scramble(id) < pow58(10),
    ensures
        decode(short_code(id)) == Ok::<i64, DecodeError>(id),
{
    let code = short_code(id);
    let v = scramble(id);
    lemma_pow58();
    lemma_slots();
    assert(0 <= (id ^ XOR_MASK)) by (bit_vector)
        requires
            0 <= id,
    ;
    assert forall|k: int| 2 <= k < 12 implies is_symbol(#[trigger] code[k]) by {
        let d = digit(v, digit_of_slot(k - 2));
        assert(0 <= d < 58);
        lemma_symbol_value(d);
    }
    assert forall|i: int| 0 <= i < 10 implies code[2 + SLOTS@[i]] == alphabet()[digit(
        v,
        i as nat,
    )] by {
        assert(digit_of_slot(SLOTS@[i] as int) == i);
    }
    lemma_digits_sum(v, code, 10);
    assert(weighted_sum(code, 10) == v);
    let masked: i64 = id ^ XOR_MASK;
    assert((v - ADD_OFFSET) as i64 == masked);
    assert(masked ^ XOR_MASK == id) by (bit_vector)
        requires
            masked == id ^ XOR_MASK,
    ;
}

/// Round trip: decoding the short code of an id below `2^53` gives the id back.
pub proof fn lemma_decode_encode(id: i64)
    requires
        0 <= id < 0x20_0000_0000_0000,
    ensures
        decode(short_code(id)) == Ok::<i64, DecodeError>(id),
{
    lemma_pow58();
    assert((id ^ XOR_MASK) < 0x20_0000_0000_0000) by (bit_vector)
        requires
            0 <= id < 0x20_0000_0000_0000,
    ;
    lemma_decode_encode_fits(id);
}

/// The digits of a number written with ten base-58 digits are those digits.
proof fn lemma_digits_of_sum(d: Seq<int>)
    requires
        d.len() == 10,
        forall|i: int| 0 <= i < 10 ==> 0 <= #[trigger] d[i] < 58,
    ensures
        ({
            let v = d[0] + 58 * d[1] + 3364 * d[2] + 195112 * d[3] + 11316496 * d[4] + 656356768
                * d[5] + 38068692544 * d[6] + 2207984167552 * d[7] + 128063081718016 * d[8]
                + 7427658739644928 * d[9];
            &&& 0 <= v < 430804206899405824
            &&& forall|i: int| 0 <= i < 10 ==> digit(v, i as nat) == #[trigger] d[i]
        }),
{
    lemma_pow58();
    let v0 = d[0];
    let v1 = v0 + 58 * d[1];
    let v2 = v1 + 3364 * d[2];
    let v3 = v2 + 195112 * d[3];
    let v4 = v3 + 11316496 * d[4];
    let v5 = v4 + 656356768 * d[5];
    let v6 = v5 + 38068692544 * d[6];
    let v7 = v6 + 2207984167552 * d[7];
    let v8 = v7 + 128063081718016 * d[8];
    let v = v8 + 7427658739644928 * d[9];
    assert(0 <= v0 < 58);
    assert(0 <= v1 < 3364);
    assert(0 <= v2 < 195112);
    assert(0 <= v3 < 11316496);
    assert(0 <= v4 < 656356768);
    assert(0 <= v5 < 38068692544);
    assert(0 <= v6 < 2207984167552);
    assert(0 <= v7 < 128063081718016);
    assert(0 <= v8 < 7427658739644928);
    assert(0 <= v < 430804206899405824);
    let q9 = v / 7427658739644928;
    let q8 = v / 128063081718016;
    let q7 = v / 2207984167552;
    let q6 = v / 38068692544;
    let q5 = v / 656356768;
    let q4 = v / 11316496;
    let q3 = v / 195112;
    let q2 = v / 3364;
    let q1 = v / 58;
    assert(q9 == d[9]);
    assert(q8 == 58 * q9 + d[8]);
    assert(q7 == 58 * q8 + d[7]);
    assert(q6 == 58 * q7 + d[6]);
    assert(q5 == 58 * q6 + d[5]);
    assert(q4 == 58 * q5 + d[4]);
    assert(q3 == 58 * q4 + d[3]);
    assert(q2 == 58 * q3 + d[2]);
    assert(q1 == 58 * q2 + d[1]);
    assert(v == 58 * q1 + d[0]);
    assert(digit(v, 0) == d[0]);
    assert(digit(v, 1) == d[1]);
    assert(digit(v, 2) == d[2]);
    assert(digit(v, 3) == d[3]);
    assert(digit(v, 4) == d[4]);
    assert(digit(v, 5) == d[5]);
    assert(digit(v, 6) == d[6]);
    assert(digit(v, 7) == d[7]);
    assert(digit(v, 8) == d[8]);
    assert(digit(v, 9) == d[9]);
}

/// Encoding what a short code decodes to gives the short code back: no two
/// short codes stand for the same id.
pub proof fn lemma_encode_decode(code: Seq<char>)
    requires
        decode(code) is Ok,
    ensures
        short_code(decode(code)->Ok_0) == code,
{
    lemma_pow58();
    lemma_slots();
    let id = decode(code)->Ok_0;
    let d = Seq::new(10, |i: int| symbol_value(code[2 + SLOTS@[i]]));
    assert forall|i: int| 0 <= i < 10 implies 0 <= #[trigger] d[i] < 58 by {
        assert(is_symbol(code[2 + SLOTS@[i]]));
    }
    lemma_digits_of_sum(d);
    let v = weighted_sum(code, 10);
    assert(weighted_sum(code, 0) == 0);
    assert(weighted_sum(code, 1) == weighted_sum(code, 0) + 1 * d[0]) by {
        assert(d[0] * pow58(0) == 1 * d[0]) by (nonlinear_arith)
            requires
                pow58(0) == 1,
        ;
    }
    assert(weighted_sum(code, 2) == weighted_sum(code, 1) + 58 * d[1]) by {
        assert(d[1] * pow58(1) == 58 * d[1]) by (nonlinear_arith)
            requires
                pow58(1) == 58,
        ;
    }
    assert(weighted_sum(code, 3) == weighted_sum(code, 2) + 3364 * d[2]) by {
        assert(d[2] * pow58(2) == 3364 * d[2]) by (nonlinear_arith)
            requires
                pow58(2) == 3364,
        ;
    }
    assert(weighted_sum(code, 4) == weighted_sum(code, 3) + 195112 * d[3]) by {
        assert(d[3] * pow58(3) == 195112 * d[3]) by (nonlinear_arith)
            requires
                pow58(3) == 195112,
        ;
    }
    assert(weighted_sum(code, 5) == weighted_sum(code, 4) + 11316496 * d[4]) by {
        assert(d[4] * pow58(4) == 11316496 * d[4]) by (nonlinear_arith)
            requires
                pow58(4) == 11316496,
        ;
    }
    assert(weighted_sum(code, 6) == weighted_sum(code, 5) + 656356768 * d[5]) by {
        assert(d[5] * pow58(5) == 656356768 * d[5]) by (nonlinear_arith)
            requires
                pow58(5) == 656356768,
        ;
    }
    assert(weighted_sum(code, 7) == weighted_sum(code, 6) + 38068692544 * d[6]) by {
        assert(d[6] * pow58(6) == 38068692544 * d[6]) by (nonlinear_arith)
            requires
                pow58(6) == 38068692544,
        ;
    }
    assert(weighted_sum(code, 8) == weighted_sum(code, 7) + 2207984167552 * d[7]) by {
        assert(d[7] * pow58(7) == 2207984167552 * d[7]) by (nonlinear_arith)
            requires
                pow58(7) == 2207984167552,
        ;
    }
    assert(weighted_sum(code, 9) == weighted_sum(code, 8) + 128063081718016 * d[8]) by {
        assert(d[8] * pow58(8) == 128063081718016 * d[8]) by (nonlinear_arith)
            requires
                pow58(8) == 128063081718016,
        ;
    }
    assert(weighted_sum(code, 10) == weighted_sum(code, 9) + 7427658739644928 * d[9]) by {
        assert(d[9] * pow58(9) == 7427658739644928 * d[9]) by (nonlinear_arith)
            requires
                pow58(9) == 7427658739644928,
        ;
    }
    assert(v == d[0] + 58 * d[1] + 3364 * d[2] + 195112 * d[3] + 11316496 * d[4] + 656356768
        * d[5] + 38068692544 * d[6] + 2207984167552 * d[7] + 128063081718016 * d[8]
        + 7427658739644928 * d[9]);
    let masked: i64 = (v - ADD_OFFSET) as i64;
    assert(masked == v - ADD_OFFSET);
    assert((masked ^ XOR_MASK) ^ XOR_MASK == masked) by (bit_vector);
    assert(scramble(id) == v);
    assert forall|k: int| 0 <= k < 12 implies short_code(id)[k] == code[k] by {
        if k >= 2 {
            let i = digit_of_slot(k - 2) as int;
            assert(SLOTS@[i] == k - 2);
            assert(digit(v, i as nat) == d[i]);
            assert(is_symbol(code[k]));
        }
    }
    assert(short_code(id) =~= code);
}

} // verus!
