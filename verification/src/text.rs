//! Building of source text: joining fragments and hexadecimal numbers.

use vstd::prelude::*;

verus! {

/// The fragments of `parts` in order, with `sep` between each two neighbours.
pub open spec fn joined(parts: Seq<Seq<char>>, sep: Seq<char>) -> Seq<char>
    decreases parts.len(),
{
    if parts.len() == 0 {
        Seq::empty()
    } else if parts.len() == 1 {
        parts[0]
    } else {
        joined(parts.drop_last(), sep) + sep + parts.last()
    }
}

/// Joins the fragments of `parts` with `sep` between each two neighbours.
pub fn join(parts: &Vec<String>, sep: &str) -> (res: String)
    ensures
        res@ == joined(parts.deep_view(), sep@),
{
    let mut res = String::new();
    let n: usize = parts.len();
    let ghost all = parts.deep_view();
    let mut i: usize = 0;
    while i < n
        invariant
            n == parts@.len(),
            all == parts.deep_view(),
            i <= n,
            res@ == joined(all.take(i as int), sep@),
        decreases n - i,
    {
        assert(all.take(i + 1).drop_last() =~= all.take(i as int));
        if i > 0 {
            res.append(sep);
        }
        res.append(parts[i].as_str());
        i = i + 1;
    }
    assert(all.take(n as int) =~= all);
    res
}

/// The digit of `d` (below sixteen) in upper-case hexadecimal.
pub open spec fn hex_digit_text(d: nat) -> Seq<char> {
    if d == 0 { "0"@ } else if d == 1 { "1"@ } else if d == 2 { "2"@ } else if d == 3 { "3"@ }
    else if d == 4 { "4"@ } else if d == 5 { "5"@ } else if d == 6 { "6"@ } else if d == 7 { "7"@ }
    else if d == 8 { "8"@ } else if d == 9 { "9"@ } else if d == 10 { "A"@ } else if d == 11 { "B"@ }
    else if d == 12 { "C"@ } else if d == 13 { "D"@ } else if d == 14 { "E"@ } else { "F"@ }
}

/// `n` in upper-case hexadecimal without leading zeros, as `{:X}` prints it.
pub open spec fn upper_hex(n: nat) -> Seq<char>
    decreases n,
{
    if n < 16 {
        hex_digit_text(n)
    } else {
        upper_hex(n / 16) + hex_digit_text(n % 16)
    }
}

fn hex_digit(d: u64) -> (res: &'static str)
    requires
        d < 16,
    ensures
        res@ == hex_digit_text(d as nat),
{
    if d == 0 { "0" } else if d == 1 { "1" } else if d == 2 { "2" } else if d == 3 { "3" }
    else if d == 4 { "4" } else if d == 5 { "5" } else if d == 6 { "6" } else if d == 7 { "7" }
    else if d == 8 { "8" } else if d == 9 { "9" } else if d == 10 { "A" } else if d == 11 { "B" }
    else if d == 12 { "C" } else if d == 13 { "D" } else if d == 14 { "E" } else { "F" }
}

/// Formats `n` in upper-case hexadecimal without leading zeros.
pub fn to_upper_hex(n: u64) -> (res: String)
    ensures
        res@ == upper_hex(n as nat),
{
    let mut rest: u64 = n;
    let mut res = String::new();
    while rest >= 16
        invariant
            upper_hex(n as nat) == upper_hex(rest as nat) + res@,
        decreases rest,
    {
        let digit = hex_digit(rest % 16);
        res = digit.to_owned().concat(res.as_str());
        assert(upper_hex(rest as nat) == upper_hex((rest / 16) as nat) + hex_digit_text((rest % 16) as nat));
        rest = rest / 16;
    }
    let res = hex_digit(rest).to_owned().concat(res.as_str());
    res
}

} // verus!

verus! {

/// Whether `s` is the text `lit`.
pub fn text_is(s: &String, lit: &str) -> (res: bool)
    ensures
        res == (s@ == lit@),
{
    *s == lit.to_owned()
}

} // verus!
