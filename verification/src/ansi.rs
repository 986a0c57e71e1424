//! The text of ANSI "select graphic rendition" (SGR) sequences.
//!
//! Every sequence this crate emits has the shape `ESC [ params m`, where
//! `params` is a list of decimal numbers separated by `;`. This module is the
//! mathematical model of that text, together with the executable helpers that
//! build it and the lemmas that tell two sequences apart.

use vstd::prelude::*;

verus! {

/// The character of the decimal digit `d`, meaningful for `d < 10`.
pub open spec fn digit(d: nat) -> char {
    (d + 48) as char
}

/// The decimal numeral of `n`, without leading zeros.
pub open spec fn decimal(n: nat) -> Seq<char>
    decreases n,
{
    if n < 10 {
        seq![digit(n)]
    } else {
        decimal(n / 10).push(digit(n % 10))
    }
}

/// The decimal numeral of the integer `n`: a minus sign before the numeral
/// of its magnitude where it is negative.
pub open spec fn signed_decimal(n: int) -> Seq<char> {
    if n < 0 {
        seq!['-'] + decimal((-n) as nat)
    } else {
        decimal(n as nat)
    }
}

/// The numeral of `n` in exactly three digits, zero-padded on the left;
/// meaningful for `n < 1000`.
pub open spec fn padded3(n: nat) -> Seq<char> {
    seq![digit(n / 100), digit((n / 10) % 10), digit(n % 10)]
}

/// Two parameter lists joined into one, separated by `;`.
pub open spec fn join(first: Seq<char>, second: Seq<char>) -> Seq<char> {
    first + seq![';'] + second
}

/// The complete escape sequence that carries `params`: `ESC [ params m`.
pub open spec fn sgr(params: Seq<char>) -> Seq<char> {
    seq!['\x1b', '['] + params + seq!['m']
}

/// `ESC[0m`: switches every attribute back to the terminal's default.
pub open spec fn reset_all() -> Seq<char> {
    sgr(decimal(0))
}

/// `ESC[39m`: switches the foreground back to the terminal's default.
pub open spec fn reset_fg() -> Seq<char> {
    sgr(decimal(39))
}

/// `ESC[49m`: switches the background back to the terminal's default.
pub open spec fn reset_bg() -> Seq<char> {
    sgr(decimal(49))
}

/// A numeral ends in the digit of its last place.
pub proof fn lemma_decimal_last(n: nat)
    ensures
        decimal(n).len() >= 1,
        decimal(n).last() == digit(n % 10),
        n >= 10 ==> decimal(n).drop_last() == decimal(n / 10),
    decreases n,
{
    if n >= 10 {
        lemma_decimal_last(n / 10);
        assert(decimal(n).drop_last() =~= decimal(n / 10));
    }
}

/// A numeral has one digit exactly when the number is below ten.
pub proof fn lemma_decimal_len(n: nat)
    ensures
        decimal(n).len() == 1 <==> n < 10,
    decreases n,
{
    if n >= 10 {
        lemma_decimal_last(n / 10);
    }
}

/// Different numbers have different numerals.
pub proof fn lemma_decimal_injective(a: nat, b: nat)
    requires
        decimal(a) == decimal(b),
    ensures
        a == b,
    decreases a,
{
    lemma_decimal_last(a);
    lemma_decimal_last(b);
    lemma_decimal_len(a);
    lemma_decimal_len(b);
    assert(a % 10 == b % 10);
    if a >= 10 {
        lemma_decimal_injective(a / 10, b / 10);
    }
}

/// Different parameter lists give different escape sequences.
pub proof fn lemma_sgr_injective(a: Seq<char>, b: Seq<char>)
    requires
        sgr(a) == sgr(b),
    ensures
        a == b,
{
    assert(sgr(a).len() == a.len() + 3);
    assert(sgr(b).len() == b.len() + 3);
    assert forall|i: int| 0 <= i < a.len() implies a[i] == b[i] by {
        assert(sgr(a)[i + 2] == a[i]);
        assert(sgr(b)[i + 2] == b[i]);
    }
    assert(a =~= b);
}

/// The one-character text of the decimal digit `d`.
pub fn digit_str(d: u8) -> (s: &'static str)
    requires
        d < 10,
    ensures
        s@ == seq![digit(d as nat)],
{
    proof {
        reveal_strlit("0");
        reveal_strlit("1");
        reveal_strlit("2");
        reveal_strlit("3");
        reveal_strlit("4");
        reveal_strlit("5");
        reveal_strlit("6");
        reveal_strlit("7");
        reveal_strlit("8");
        reveal_strlit("9");
    }
    let s = match d {
        0 => "0",
        1 => "1",
        2 => "2",
        3 => "3",
        4 => "4",
        5 => "5",
        6 => "6",
        7 => "7",
        8 => "8",
        _ => "9",
    };
    assert(s@ =~= seq![digit(d as nat)]);
    s
}

/// Appends the decimal numeral of `n`, without leading zeros.
pub fn push_number(out: &mut String, n: u64)
    ensures
        final(out)@ == old(out)@ + decimal(n as nat),
    decreases n,
{
    if n >= 10 {
        push_number(out, n / 10);
    }
    out.append(digit_str((n % 10) as u8));
    assert(out@ =~= old(out)@ + decimal(n as nat));
}

/// Appends the decimal numeral of the byte `n`, without leading zeros.
pub fn push_decimal(out: &mut String, n: u8)
    ensures
        final(out)@ == old(out)@ + decimal(n as nat),
{
    push_number(out, n as u64);
}

/// Appends the decimal numeral of the integer `n`.
pub fn push_signed(out: &mut String, n: i64)
    ensures
        final(out)@ == old(out)@ + signed_decimal(n as int),
{
    if n < 0 {
        proof {
            reveal_strlit("-");
        }
        out.append("-");
        let magnitude: u64 = (-(n + 1)) as u64 + 1;
        push_number(out, magnitude);
        assert(out@ =~= old(out)@ + signed_decimal(n as int));
    } else {
        push_number(out, n as u64);
    }
}

/// Appends `;`, the separator of two parameters.
pub fn push_separator(out: &mut String)
    ensures
        final(out)@ == old(out)@ + seq![';'],
{
    proof {
        reveal_strlit(";");
    }
    out.append(";");
    assert(out@ =~= old(out)@ + seq![';']);
}

/// Appends the complete escape sequence that carries `params`.
pub fn push_sgr(out: &mut String, params: &str)
    ensures
        final(out)@ == old(out)@ + sgr(params@),
{
    proof {
        reveal_strlit("\x1b[");
        reveal_strlit("m");
    }
    out.append("\x1b[");
    out.append(params);
    out.append("m");
    assert(out@ =~= old(out)@ + sgr(params@));
}

/// Appends the escape sequence whose only parameter is the number `code`.
pub fn push_code(out: &mut String, code: u8)
    ensures
        final(out)@ == old(out)@ + sgr(decimal(code as nat)),
{
    proof {
        reveal_strlit("\x1b[");
        reveal_strlit("m");
    }
    out.append("\x1b[");
    push_decimal(out, code);
    out.append("m");
    assert(out@ =~= old(out)@ + sgr(decimal(code as nat)));
}

/// The numeral of `n` as text of its own.
pub fn decimal_string(n: u8) -> (s: String)
    ensures
        s@ == decimal(n as nat),
{
    let mut s = String::new();
    push_decimal(&mut s, n);
    assert(s@ =~= decimal(n as nat));
    s
}

/// The complete escape sequence that carries `params`, as text of its own.
pub fn sgr_string(params: &str) -> (s: String)
    ensures
        s@ == sgr(params@),
{
    let mut s = String::new();
    push_sgr(&mut s, params);
    assert(s@ =~= sgr(params@));
    s
}

} // verus!
