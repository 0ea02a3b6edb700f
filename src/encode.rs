use vstd::prelude::*;

verus! {

/// The digit characters, indexed by their value.
pub open spec fn digit_chars() -> Seq<char> {
    seq!['0', '1', '2', '3', '4', '5', '6', '7', '8', '9', 'a', 'b', 'c', 'd', 'e', 'f']
}

/// The value of a digit character, or `None` for a character that is no lowercase digit.
pub open spec fn digit_value(c: char) -> Option<nat> {
    if exists|d: int| 0 <= d < 16 && digit_chars()[d] == c {
        Some((choose|d: int| 0 <= d < 16 && digit_chars()[d] == c) as nat)
    } else {
        None
    }
}

/// The shortest sequence of digits that writes `n` in `base`, most significant first;
/// zero is the single digit `0`.
pub open spec fn digits_of(n: nat, base: nat) -> Seq<char>
    recommends
        2 <= base <= 16,
    decreases n via digits_of_decreases
{
    if base < 2 || n < base {
        seq![digit_chars()[n as int]]
    } else {
        digits_of(n / base, base).push(digit_chars()[(n % base) as int])
    }
}

#[via_fn]
proof fn digits_of_decreases(n: nat, base: nat) {
    if !(base < 2 || n < base) {
        lemma_quotient_smaller(n, base);
    }
}

proof fn lemma_quotient_smaller(n: nat, base: nat)
    requires
        2 <= base <= n,
    ensures
        n / base < n,
{
    assert(n / base < n) by (nonlinear_arith)
        requires
            2 <= base <= n,
    ;
}

/// The lowercase hexadecimal token of `n`: no prefix, no padding.
pub open spec fn hex_of(n: nat) -> Seq<char> {
    digits_of(n, 16)
}

/// The decimal token of `n`.
pub open spec fn decimal_of(n: nat) -> Seq<char> {
    digits_of(n, 10)
}

/// Reads `s` as a number in `base`, most significant digit first, or `None` where
/// `s` is empty or holds a character that is no digit below `base`.
pub open spec fn parse_digits(s: Seq<char>, base: nat) -> Option<nat>
    decreases s.len(),
{
    if s.len() == 0 {
        None
    } else {
        match digit_value(s.last()) {
            Some(d) => if d < base {
                if s.len() == 1 {
                    Some(d)
                } else {
                    match parse_digits(s.drop_last(), base) {
                        Some(high) => Some(high * base + d),
                        None => None,
                    }
                }
            } else {
                None
            },
            None => None,
        }
    }
}

proof fn lemma_digit_value(d: nat)
    requires
        d < 16,
    ensures
        digit_value(digit_chars()[d as int]) == Some(d),
{
    let c = digit_chars()[d as int];
    assert(0 <= d < 16 && digit_chars()[d as int] == c);
    let e = choose|e: int| 0 <= e < 16 && digit_chars()[e] == c;
    assert(digit_chars()[e] == digit_chars()[d as int]);
    if e != d {
        assert(digit_chars()[e] != digit_chars()[d as int]);
    }
}

/// Writing a number in a base and reading the digits back in that base gives the number.
pub proof fn lemma_digits_round_trip(n: nat, base: nat)
    requires
        2 <= base <= 16,
    ensures
        parse_digits(digits_of(n, base), base) == Some(n),
    decreases n,
{
    if n < base {
        lemma_digit_value(n);
        assert(digits_of(n, base).last() == digit_chars()[n as int]);
    } else {
        let high = digits_of(n / base, base);
        let s = high.push(digit_chars()[(n % base) as int]);
        lemma_quotient_smaller(n, base);
        lemma_digits_round_trip(n / base, base);
        lemma_digit_value(n % base);
        assert(s.drop_last() =~= high);
        assert(s.last() == digit_chars()[(n % base) as int]);
        lemma_digits_len(n / base, base);
        assert(n == (n / base) * base + n % base) by (nonlinear_arith)
            requires
                2 <= base,
        ;
        assert(parse_digits(s, base) == Some((n / base) * base + n % base));
    }
}

proof fn lemma_digits_len(n: nat, base: nat)
    requires
        2 <= base <= 16,
    ensures
        digits_of(n, base).len() >= 1,
    decreases n,
{
    if n >= base {
        lemma_quotient_smaller(n, base);
        lemma_digits_len(n / base, base);
    }
}

/// A hexadecimal token read back as hexadecimal gives the identifier it was made from.
pub proof fn lemma_hex_round_trip(id: u64)
    ensures
        parse_digits(hex_of(id as nat), 16) == Some(id as nat),
{
    lemma_digits_round_trip(id as nat, 16);
}

/// A decimal token read back as decimal gives the number it was made from.
pub proof fn lemma_decimal_round_trip(n: u64)
    ensures
        parse_digits(decimal_of(n as nat), 10) == Some(n as nat),
{
    lemma_digits_round_trip(n as nat, 10);
}

/// The one-character string of digit `d`.
fn digit_str(d: u64) -> (r: &'static str)
    requires
        d < 16,
    ensures
        r@ == seq![digit_chars()[d as int]],
{
    proof {
        reveal_strlit("0123456789abcdef");
    }
    let all = "0123456789abcdef";
    assert(all@ =~= digit_chars());
    let r = all.substring_ascii(d as usize, d as usize + 1);
    assert(r@ =~= seq![digit_chars()[d as int]]);
    r
}

/// Writes `n` in `base` with the fewest digits, lowercase, most significant first.
pub fn digits(n: u64, base: u64) -> (r: String)
    requires
        2 <= base <= 16,
    ensures
        r@ == digits_of(n as nat, base as nat),
    decreases n,
{
    if n < base {
        let mut r = String::new();
        r.append(digit_str(n));
        r
    } else {
        proof {
            lemma_quotient_smaller(n as nat, base as nat);
        }
        let mut r = digits(n / base, base);
        r.append(digit_str(n % base));
        r
    }
}

/// The lowercase hexadecimal token of an identifier: `0` for zero, `ff` for 255.
pub fn hex_token(id: u64) -> (r: String)
    ensures
        r@ == hex_of(id as nat),
{
    digits(id, 16)
}

/// The decimal token of a number.
pub fn decimal_token(n: u64) -> (r: String)
    ensures
        r@ == decimal_of(n as nat),
{
    digits(n, 10)
}

} // verus!
