//! Rendering numbers as decimal text, with the fixed-width padding the
//! disassembly format calls for.

use vstd::prelude::*;

verus! {

/// The decimal digit character for `d` (0 through 9).
pub open spec fn digit_char(d: int) -> char {
    if d == 0 {
        '0'
    } else if d == 1 {
        '1'
    } else if d == 2 {
        '2'
    } else if d == 3 {
        '3'
    } else if d == 4 {
        '4'
    } else if d == 5 {
        '5'
    } else if d == 6 {
        '6'
    } else if d == 7 {
        '7'
    } else if d == 8 {
        '8'
    } else {
        '9'
    }
}

/// The decimal rendering of `n`, most significant digit first, with no sign
/// and no leading zero except for `n == 0` itself.
pub open spec fn dec(n: nat) -> Seq<char>
    decreases n,
{
    if n < 10 {
        seq![digit_char(n as int)]
    } else {
        dec(n / 10).push(digit_char((n % 10) as int))
    }
}

/// `s` padded on the left with `fill` up to `width` characters; a rendering
/// that is already wide enough is kept whole.
pub open spec fn pad_left(s: Seq<char>, fill: char, width: nat) -> Seq<char> {
    if s.len() >= width {
        s
    } else {
        Seq::new((width - s.len()) as nat, |i: int| fill) + s
    }
}

/// `s` padded on the right with `fill` up to `width` characters.
pub open spec fn pad_right(s: Seq<char>, fill: char, width: nat) -> Seq<char> {
    if s.len() >= width {
        s
    } else {
        s + Seq::new((width - s.len()) as nat, |i: int| fill)
    }
}

/// The decimal rendering of `n` has at most `n + 1` digits (a crude bound,
/// enough to keep digit counting inside `usize`).
proof fn lemma_dec_len_bound(n: nat)
    ensures
        dec(n).len() <= n + 1,
    decreases n,
{
    if n >= 10 {
        lemma_dec_len_bound(n / 10);
    }
}

/// The number of digits in the decimal rendering of `n`.
fn dec_len(n: usize) -> (r: usize)
    ensures
        r == dec(n as nat).len(),
    decreases n,
{
    if n < 10 {
        1
    } else {
        proof {
            lemma_dec_len_bound((n / 10) as nat);
        }
        1 + dec_len(n / 10)
    }
}

/// Appends the digit character for `d`.
fn push_digit(out: &mut String, d: usize)
    requires
        d < 10,
    ensures
        final(out)@ == old(out)@ + seq![digit_char(d as int)],
{
    let s: &str = match d {
        0 => "0",
        1 => "1",
        2 => "2",
        3 => "3",
        4 => "4",
        5 => "5",
        6 => "6",
        7 => "7",
        8 => "8",
        _ => "9",
    };
    proof {
        reveal_strlit("0");
        reveal_strlit("1");
        reveal_strlit("2");
        reveal_strlit("3");
        reveal_strlit("4");
        reveal_strlit("5");
        reveal_strlit("6");
        reveal_strlit("7");
        reveal_strlit("8");
        reveal_strlit("9");
        assert(s@ =~= seq![digit_char(d as int)]);
    }
    out.append(s);
}

/// Appends the decimal rendering of `n`.
pub fn push_dec(out: &mut String, n: usize)
    ensures
        final(out)@ == old(out)@ + dec(n as nat),
    decreases n,
{
    if n < 10 {
        push_digit(out, n);
    } else {
        push_dec(out, n / 10);
        push_digit(out, n % 10);
        assert(out@ =~= old(out)@ + dec(n as nat));
    }
}

/// Appends the decimal rendering of `n`, padded on the left with `fill`
/// (a space or a zero) to at least `width` characters.
pub fn push_dec_padded(out: &mut String, n: usize, width: usize, fill: char)
    requires
        fill == ' ' || fill == '0',
    ensures
        final(out)@ == old(out)@ + pad_left(dec(n as nat), fill, width as nat),
{
    let digits = dec_len(n);
    let mut k: usize = digits;
    while k < width
        invariant
            digits <= k,
            digits == dec(n as nat).len(),
            k <= width || k == digits,
            fill == ' ' || fill == '0',
            out@ == old(out)@ + Seq::new((k - digits) as nat, |i: int| fill),
        decreases width - k,
    {
        if fill == ' ' {
            proof {
                reveal_strlit(" ");
            }
            out.append(" ");
        } else {
            proof {
                reveal_strlit("0");
            }
            out.append("0");
        }
        k = k + 1;
        assert(out@ =~= old(out)@ + Seq::new((k - digits) as nat, |i: int| fill));
    }
    push_dec(out, n);
    assert(out@ =~= old(out)@ + pad_left(dec(n as nat), fill, width as nat));
}

/// Appends `s`, padded on the right with spaces to at least `width`
/// characters.
pub fn push_str_padded(out: &mut String, s: &str, width: usize)
    ensures
        final(out)@ == old(out)@ + pad_right(s@, ' ', width as nat),
{
    out.append(s);
    let chars = s.unicode_len();
    let mut k: usize = chars;
    while k < width
        invariant
            chars <= k,
            chars == s@.len(),
            k <= width || k == chars,
            out@ == old(out)@ + s@ + Seq::new((k - chars) as nat, |i: int| ' '),
        decreases width - k,
    {
        proof {
            reveal_strlit(" ");
        }
        out.append(" ");
        k = k + 1;
        assert(out@ =~= old(out)@ + s@ + Seq::new((k - chars) as nat, |i: int| ' '));
    }
    assert(out@ =~= old(out)@ + pad_right(s@, ' ', width as nat));
}

} // verus!
