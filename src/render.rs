//! Formatting of a single progress frame: decimal numbers, repeated
//! characters, the percentage bar and the bracketed marker line.
use vstd::prelude::*;

verus! {

/// The character `'0'` + `d` for a decimal digit `d`.
pub open spec fn digit_char(d: nat) -> char {
    ((48 + d) as u8) as char
}

/// Decimal representation of `n`, without leading zeros.
pub open spec fn decimal(n: nat) -> Seq<char>
    decreases n,
{
    if n < 10 {
        seq![digit_char(n)]
    } else {
        decimal(n / 10).push(digit_char(n % 10))
    }
}

/// `n` copies of `c`.
pub open spec fn repeat(c: char, n: nat) -> Seq<char> {
    Seq::new(n, |i: int| c)
}

/// `s` right-aligned in a field of `width` characters.
pub open spec fn pad_left(s: Seq<char>, width: nat) -> Seq<char> {
    if s.len() < width {
        repeat(' ', (width - s.len()) as nat) + s
    } else {
        s
    }
}

/// The percentage `100 * count / total` rounded to the nearest integer,
/// ties to even; a zero total counts as complete.
pub open spec fn percent(count: nat, total: nat) -> nat {
    if total == 0 {
        100
    } else {
        let q = 100 * count / total;
        let r = 100 * count % total;
        if 2 * r > total || (2 * r == total && q % 2 == 1) {
            q + 1
        } else {
            q
        }
    }
}

/// Filled segments of a bar of `width` segments, each worth `100 / width`
/// percent, clamped to the width; a zero total fills the bar.
pub open spec fn filled_segments(count: nat, total: nat, width: nat) -> nat {
    if total == 0 || count * width / total >= width {
        width
    } else {
        count * width / total
    }
}

/// Blank markers after `count` filled ones in a line of `total`, never negative.
pub open spec fn blank_count(count: nat, total: nat) -> nat {
    if count < total {
        (total - count) as nat
    } else {
        0
    }
}

/// `Iterations: {count}`.
pub open spec fn counter_frame(count: nat) -> Seq<char> {
    "Iterations: "@ + decimal(count)
}

/// A line of `count` markers.
pub open spec fn marker_frame(count: nat) -> Seq<char> {
    repeat('#', count)
}

/// `{pct:>3}% |{filled}{unfilled}| {count}/{total}`.
pub open spec fn bar_frame(
    count: nat,
    total: nat,
    filled: char,
    unfilled: char,
    width: nat,
) -> Seq<char> {
    let k = filled_segments(count, total, width);
    pad_left(decimal(percent(count, total)), 3) + "% |"@ + repeat(filled, k) + repeat(
        unfilled,
        (width - k) as nat,
    ) + "| "@ + decimal(count) + "/"@ + decimal(total)
}

/// `{open}{'#' x count}{' ' x (total - count)}{close}`.
pub open spec fn bracket_frame(count: nat, total: nat, open: char, close: char) -> Seq<char> {
    seq![open] + repeat('#', count) + repeat(' ', blank_count(count, total)) + seq![close]
}

/// Relies on String::push: appends one character.
#[verifier::external_body]
fn push_char(s: &mut String, c: char)
    ensures
        final(s)@ == old(s)@.push(c),
{
    s.push(c);
}

/// Appends `n` copies of `c`.
pub fn push_repeat(s: &mut String, c: char, n: usize)
    ensures
        final(s)@ == old(s)@ + repeat(c, n as nat),
{
    let mut i: usize = 0;
    while i < n
        invariant
            i <= n,
            s@ == old(s)@ + repeat(c, i as nat),
        decreases n - i,
    {
        push_char(s, c);
        i = i + 1;
        assert(s@ =~= old(s)@ + repeat(c, i as nat));
    }
}

/// Appends the decimal representation of `n`.
pub fn push_decimal(s: &mut String, n: u128)
    ensures
        final(s)@ == old(s)@ + decimal(n as nat),
    decreases n,
{
    if n >= 10 {
        push_decimal(s, n / 10);
    }
    let d: u8 = (n % 10) as u8;
    push_char(s, (48u8 + d) as char);
    assert(s@ =~= old(s)@ + decimal(n as nat));
}

/// Computes `percent(count, total)`.
pub fn percent_of(count: usize, total: usize) -> (r: u128)
    ensures
        r as nat == percent(count as nat, total as nat),
{
    if total == 0 {
        return 100;
    }
    let num: u128 = 100 * (count as u128);
    let q: u128 = num / (total as u128);
    let rem: u128 = num % (total as u128);
    assert(q <= num) by (nonlinear_arith)
        requires q == num / (total as u128), total >= 1;
    if 2 * rem > total as u128 || (2 * rem == total as u128 && q % 2 == 1) {
        q + 1
    } else {
        q
    }
}

/// Computes `filled_segments(count, total, width)`.
pub fn filled_of(count: usize, total: usize, width: usize) -> (r: usize)
    ensures
        r as nat == filled_segments(count as nat, total as nat, width as nat),
        r <= width,
{
    if total == 0 {
        return width;
    }
    assert((count as int) * (width as int) <= usize::MAX * usize::MAX) by (nonlinear_arith)
        requires
            count <= usize::MAX,
            width <= usize::MAX,
    ;
    assert(usize::MAX * usize::MAX <= u128::MAX) by (nonlinear_arith)
        requires
            usize::MAX <= u64::MAX,
    ;
    let prod: u128 = (count as u128) * (width as u128);
    let k: u128 = prod / (total as u128);
    if k >= width as u128 {
        width
    } else {
        k as usize
    }
}

/// The counter line `Iterations: {count}`.
pub fn counter_line(count: usize) -> (r: String)
    ensures
        r@ == counter_frame(count as nat),
{
    let mut s = "Iterations: ".to_owned();
    push_decimal(&mut s, count as u128);
    s
}

/// A line of `count` markers.
pub fn marker_line(count: usize) -> (r: String)
    ensures
        r@ == marker_frame(count as nat),
{
    let mut s = String::new();
    push_repeat(&mut s, '#', count);
    assert(s@ =~= marker_frame(count as nat));
    s
}

/// The percentage bar for `count` of `total`.
pub fn bar_line(count: usize, total: usize, filled: char, unfilled: char, width: usize) -> (r: String)
    ensures
        r@ == bar_frame(count as nat, total as nat, filled, unfilled, width as nat),
{
    let pct = percent_of(count, total);
    let k = filled_of(count, total, width);
    let mut s = String::new();
    if pct < 10 {
        push_repeat(&mut s, ' ', 2);
    } else if pct < 100 {
        push_repeat(&mut s, ' ', 1);
    }
    push_decimal(&mut s, pct);
    proof { lemma_decimal_len(pct as nat); }
    assert(s@ =~= pad_left(decimal(pct as nat), 3));
    s.append("% |");
    push_repeat(&mut s, filled, k);
    push_repeat(&mut s, unfilled, width - k);
    s.append("| ");
    push_decimal(&mut s, count as u128);
    s.append("/");
    push_decimal(&mut s, total as u128);
    s
}

/// The bracketed marker line for `count` of `total`.
pub fn bracket_line(count: usize, total: usize, open: char, close: char) -> (r: String)
    ensures
        r@ == bracket_frame(count as nat, total as nat, open, close),
{
    let mut s = String::new();
    push_char(&mut s, open);
    push_repeat(&mut s, '#', count);
    let blanks: usize = if count < total { total - count } else { 0 };
    push_repeat(&mut s, ' ', blanks);
    push_char(&mut s, close);
    assert(s@ =~= bracket_frame(count as nat, total as nat, open, close));
    s
}

/// One digit below ten, two below a hundred, three or more from there.
proof fn lemma_decimal_len(n: nat)
    ensures
        n < 10 ==> decimal(n).len() == 1,
        10 <= n < 100 ==> decimal(n).len() == 2,
        n >= 100 ==> decimal(n).len() >= 3,
    decreases n,
{
    if n >= 10 {
        lemma_decimal_len(n / 10);
    }
}

} // verus!
