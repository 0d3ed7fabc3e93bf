use vstd::prelude::*;

verus! {

/// The character of the decimal digit `d`.
pub open spec fn digit_char(d: int) -> char
    recommends
        0 <= d < 10,
{
    ((d + 48) as u8) as char
}

/// The decimal numeral of `n`: its digits, most significant first, with no
/// leading zero.
pub open spec fn decimal(n: nat) -> Seq<char>
    decreases n,
{
    if n < 10 {
        seq![digit_char(n as int)]
    } else {
        decimal(n / 10).push(digit_char((n % 10) as int))
    }
}

/// The numeral of the integer `n`, with a leading `-` when it is negative.
pub open spec fn signed_decimal(n: int) -> Seq<char> {
    if n < 0 {
        seq!['-'] + decimal((-n) as nat)
    } else {
        decimal(n as nat)
    }
}

/// The numeral of `m` thousandths written with exactly three decimals, as in
/// `-1.250` for `m == -1250`.
pub open spec fn fixed3(m: int) -> Seq<char> {
    let a: nat = if m < 0 {
        (-m) as nat
    } else {
        m as nat
    };
    let sign: Seq<char> = if m < 0 {
        seq!['-']
    } else {
        seq![]
    };
    let r = (a % 1000) as int;
    sign + decimal(a / 1000) + seq![
        '.',
        digit_char(r / 100),
        digit_char((r / 10) % 10),
        digit_char(r % 10),
    ]
}

fn digit(d: u64) -> (c: char)
    requires
        d < 10,
    ensures
        c == digit_char(d as int),
{
    (d as u8 + 48u8) as char
}

/// Appends the decimal numeral of `n` to `out`.
pub fn push_decimal(out: &mut Vec<char>, n: u64)
    ensures
        final(out)@ == old(out)@ + decimal(n as nat),
    decreases n,
{
    if n >= 10 {
        push_decimal(out, n / 10);
    }
    out.push(digit(n % 10));
    proof {
        assert(final(out)@ =~= old(out)@ + decimal(n as nat));
    }
}

/// The magnitude of `n`, without overflow at `i64::MIN`.
pub fn magnitude(n: i64) -> (r: u64)
    ensures
        r == if n < 0 {
            -n
        } else {
            n as int
        },
{
    if n < 0 {
        ((-(n + 1)) as u64) + 1
    } else {
        n as u64
    }
}

/// Appends the numeral of `n`, signed, to `out`.
pub fn push_signed_decimal(out: &mut Vec<char>, n: i64)
    ensures
        final(out)@ == old(out)@ + signed_decimal(n as int),
{
    if n < 0 {
        out.push('-');
    }
    push_decimal(out, magnitude(n));
    proof {
        assert(final(out)@ =~= old(out)@ + signed_decimal(n as int));
    }
}

/// Appends the numeral of `m` thousandths, with three decimals, to `out`.
pub fn push_fixed3(out: &mut Vec<char>, m: i64)
    ensures
        final(out)@ == old(out)@ + fixed3(m as int),
{
    let a = magnitude(m);
    if m < 0 {
        out.push('-');
    }
    push_decimal(out, a / 1000);
    let r = a % 1000;
    out.push('.');
    out.push(digit(r / 100));
    out.push(digit((r / 10) % 10));
    out.push(digit(r % 10));
    proof {
        assert(final(out)@ =~= old(out)@ + fixed3(m as int));
    }
}

/// Relies on `String`'s `FromIterator<char>`: collecting characters yields a
/// string of exactly those characters, in order.
#[verifier::external_body]
pub fn string_from_chars(chars: &Vec<char>) -> (r: String)
    ensures
        r@ == chars@,
{
    chars.iter().collect()
}

} // verus!
