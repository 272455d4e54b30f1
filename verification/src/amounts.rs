//! Conversion between integer base-unit token amounts and their decimal
//! display form. One token is ten to the `TOKEN_DECIMALS` base units; a
//! legacy precision is kept for the first-generation token.

use vstd::prelude::*;
use vstd::string::*;

verus! {

/// Decimal places of the token: one token is `BASE_UNITS_PER_TOKEN` base units.
pub const TOKEN_DECIMALS: u32 = 11;

/// Decimal places of the legacy first-generation token.
pub const TOKEN_DECIMALS_V1: u32 = 9;

/// Ten to the `TOKEN_DECIMALS`: base units per whole token.
pub const BASE_UNITS_PER_TOKEN: u64 = 100_000_000_000;

/// Ten to the `TOKEN_DECIMALS_V1`: base units per whole legacy token.
pub const BASE_UNITS_PER_TOKEN_V1: u64 = 1_000_000_000;

/// Ten to the `k`.
pub open spec fn pow10(k: nat) -> nat
    decreases k,
{
    if k == 0 {
        1
    } else {
        10 * pow10((k - 1) as nat)
    }
}

/// The scale constants are exactly the powers of ten named by the two
/// precision constants.
pub proof fn lemma_scale_constants()
    ensures
        BASE_UNITS_PER_TOKEN == pow10(TOKEN_DECIMALS as nat),
        BASE_UNITS_PER_TOKEN_V1 == pow10(TOKEN_DECIMALS_V1 as nat),
{
    assert(pow10(0) == 1);
    assert(pow10(1) == 10);
    assert(pow10(2) == 100);
    assert(pow10(3) == 1_000);
    assert(pow10(4) == 10_000);
    assert(pow10(5) == 100_000);
    assert(pow10(6) == 1_000_000);
    assert(pow10(7) == 10_000_000);
    assert(pow10(8) == 100_000_000);
    assert(pow10(9) == 1_000_000_000);
    assert(pow10(10) == 10_000_000_000);
    assert(pow10(11) == 100_000_000_000);
}

/// The character for one decimal digit.
pub open spec fn digit_char(d: nat) -> char {
    if d == 0 {
        '0'
    } else if d == 1 {
        '1'
    } else if d == 2 {
        '2'
    } else if d == 3 {
        '3'
    } else if d == 4 {
        '4'
    } else if d == 5 {
        '5'
    } else if d == 6 {
        '6'
    } else if d == 7 {
        '7'
    } else if d == 8 {
        '8'
    } else {
        '9'
    }
}

/// The decimal digits of `n`, most significant first, with no leading zeros
/// (a single zero for `n == 0`).
pub open spec fn spec_digits(n: nat) -> Seq<char>
    decreases n,
{
    if n < 10 {
        seq![digit_char(n)]
    } else {
        spec_digits(n / 10).push(digit_char(n % 10))
    }
}

/// The low `k` decimal digits of `n`, zero-padded on the left to width `k`.
pub open spec fn spec_padded(n: nat, k: nat) -> Seq<char>
    decreases k,
{
    if k == 0 {
        Seq::empty()
    } else {
        spec_padded(n / 10, (k - 1) as nat).push(digit_char(n % 10))
    }
}

/// `s` with its trailing `'0'` characters removed.
pub open spec fn spec_trim_zeros(s: Seq<char>) -> Seq<char>
    decreases s.len(),
{
    if s.len() == 0 || s.last() != '0' {
        s
    } else {
        spec_trim_zeros(s.drop_last())
    }
}

/// The decimal display of a base-unit amount at the current precision: the
/// whole-token part, then, when the fractional part is not zero, a point and
/// the fractional digits with trailing zeros removed.
pub open spec fn spec_amount_chars(amount: nat) -> Seq<char> {
    let whole = amount / (BASE_UNITS_PER_TOKEN as nat);
    let frac = amount % (BASE_UNITS_PER_TOKEN as nat);
    if frac == 0 {
        spec_digits(whole)
    } else {
        spec_digits(whole) + seq!['.'] + spec_trim_zeros(
            spec_padded(frac, TOKEN_DECIMALS as nat),
        )
    }
}

fn digit_str(d: u64) -> (r: &'static str)
    requires
        d < 10,
    ensures
        r@ == seq![digit_char(d as nat)],
{
    let r: &'static str = if d == 0 {
        "0"
    } else if d == 1 {
        "1"
    } else if d == 2 {
        "2"
    } else if d == 3 {
        "3"
    } else if d == 4 {
        "4"
    } else if d == 5 {
        "5"
    } else if d == 6 {
        "6"
    } else if d == 7 {
        "7"
    } else if d == 8 {
        "8"
    } else {
        "9"
    };
    proof {
        reveal_strlit("0");
        reveal_strlit("1");
        reveal_strlit("2");
        reveal_strlit("3");
        reveal_strlit("4");
        reveal_strlit("5");
        reveal_strlit("6");
        reveal_strlit("7");
        reveal_strlit("8");
        reveal_strlit("9");
    }
    r
}

fn push_digits(n: u64, out: &mut String)
    ensures
        final(out)@ == old(out)@ + spec_digits(n as nat),
    decreases n,
{
    if n < 10 {
        out.append(digit_str(n));
    } else {
        push_digits(n / 10, out);
        out.append(digit_str(n % 10));
        assert(spec_digits(n as nat) == spec_digits((n / 10) as nat) + seq![
            digit_char((n % 10) as nat),
        ]);
    }
}

fn push_padded(n: u64, k: u64, out: &mut String)
    ensures
        final(out)@ == old(out)@ + spec_padded(n as nat, k as nat),
    decreases k,
{
    if k > 0 {
        push_padded(n / 10, k - 1, out);
        out.append(digit_str(n % 10));
        assert(spec_padded(n as nat, k as nat) == spec_padded((n / 10) as nat, (k - 1) as nat)
            + seq![digit_char((n % 10) as nat)]);
    }
}

proof fn lemma_padded_len(n: nat, k: nat)
    ensures
        spec_padded(n, k).len() == k,
    decreases k,
{
    if k > 0 {
        lemma_padded_len(n / 10, (k - 1) as nat);
    }
}

proof fn lemma_trim_padded_step(n: nat, k: nat)
    requires
        k >= 1,
        n % 10 == 0,
    ensures
        spec_trim_zeros(spec_padded(n, k)) == spec_trim_zeros(spec_padded(n / 10, (k - 1) as nat)),
{
    let s = spec_padded(n, k);
    lemma_padded_len(n, k);
    assert(s.last() == '0');
    assert(s.drop_last() =~= spec_padded(n / 10, (k - 1) as nat));
}

proof fn lemma_trim_padded_done(n: nat, k: nat)
    requires
        k >= 1,
        n % 10 != 0,
    ensures
        spec_trim_zeros(spec_padded(n, k)) == spec_padded(n, k),
{
    lemma_padded_len(n, k);
    assert(spec_padded(n, k).last() == digit_char(n % 10));
    assert(digit_char(n % 10) != '0');
}

/// The decimal display string of a base-unit amount at the current precision.
pub fn amount_u64_to_string(amount: u64) -> (r: String)
    ensures
        r@ == spec_amount_chars(amount as nat),
{
    let whole: u64 = amount / BASE_UNITS_PER_TOKEN;
    let frac: u64 = amount % BASE_UNITS_PER_TOKEN;
    let mut out = String::new();
    push_digits(whole, &mut out);
    if frac > 0 {
        out.append(".");
        proof {
            reveal_strlit(".");
            lemma_scale_constants();
        }
        let ghost full: Seq<char> = spec_padded(frac as nat, TOKEN_DECIMALS as nat);
        let mut f: u64 = frac;
        let mut k: u64 = 11;
        while f % 10 == 0
            invariant
                1 <= k <= 11,
                f > 0,
                (f as nat) < pow10(k as nat),
                spec_trim_zeros(spec_padded(f as nat, k as nat)) == spec_trim_zeros(full),
            decreases k,
        {
            proof {
                assert(pow10(0) == 1);
                assert(pow10(1) == 10);
                if k == 1 {
                    assert(f < 10);
                    assert(false);
                }
                lemma_trim_padded_step(f as nat, k as nat);
                assert(pow10(k as nat) == 10 * pow10((k - 1) as nat));
                assert(f == 10 * (f / 10) + f % 10);
                assert(((f / 10) as nat) < pow10((k - 1) as nat));
                assert(f / 10 > 0);
            }
            f = f / 10;
            k = k - 1;
        }
        proof {
            lemma_trim_padded_done(f as nat, k as nat);
        }
        push_padded(f, k, &mut out);
    }
    out
}

/// One whole token in base units displays as exactly "1": the precision
/// constant controls the scale exactly.
pub proof fn lemma_one_token_string()
    ensures
        spec_amount_chars(BASE_UNITS_PER_TOKEN as nat) == seq!['1'],
{
    let b = BASE_UNITS_PER_TOKEN as nat;
    assert(b / b == 1);
    assert(b % b == 0);
    assert(spec_digits(1) == seq![digit_char(1)]);
}

} // verus!
