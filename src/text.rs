//! Rendering of integers and of `{}` templates to text.

use vstd::prelude::*;

verus! {

/// The ASCII digit for `d`, where `d < 10`.
pub open spec fn digit_char(d: nat) -> char {
    if d == 0 { '0' }
    else if d == 1 { '1' }
    else if d == 2 { '2' }
    else if d == 3 { '3' }
    else if d == 4 { '4' }
    else if d == 5 { '5' }
    else if d == 6 { '6' }
    else if d == 7 { '7' }
    else if d == 8 { '8' }
    else { '9' }
}

/// The decimal digits of `n`, most significant first, without leading zeros.
pub open spec fn decimal(n: nat) -> Seq<char>
    decreases n,
{
    if n < 10 {
        seq![digit_char(n)]
    } else {
        decimal(n / 10).push(digit_char(n % 10))
    }
}

/// The decimal text of a signed integer: a minus sign before the digits of
/// its magnitude when it is negative.
pub open spec fn signed_decimal(n: int) -> Seq<char> {
    if n < 0 {
        seq!['-'] + decimal((-n) as nat)
    } else {
        decimal(n as nat)
    }
}

fn digit_str(d: u64) -> (r: &'static str)
    requires
        d < 10,
    ensures
        r@ == seq![digit_char(d as nat)],
{
    proof {
        reveal_strlit("0");
        reveal_strlit("1");
        reveal_strlit("2");
        reveal_strlit("3");
        reveal_strlit("4");
        reveal_strlit("5");
        reveal_strlit("6");
        reveal_strlit("7");
        reveal_strlit("8");
        reveal_strlit("9");
    }
    if d == 0 { "0" }
    else if d == 1 { "1" }
    else if d == 2 { "2" }
    else if d == 3 { "3" }
    else if d == 4 { "4" }
    else if d == 5 { "5" }
    else if d == 6 { "6" }
    else if d == 7 { "7" }
    else if d == 8 { "8" }
    else { "9" }
}

/// Appends the decimal digits of `n` to `out`.
pub fn push_decimal(out: &mut String, n: u64)
    ensures
        final(out)@ == old(out)@ + decimal(n as nat),
    decreases n,
{
    if n >= 10 {
        push_decimal(out, n / 10);
    }
    out.append(digit_str(n % 10));
    assert(final(out)@ =~= old(out)@ + decimal(n as nat));
}

/// Appends the decimal text of the signed integer `n` to `out`.
pub fn push_signed(out: &mut String, n: i64)
    ensures
        final(out)@ == old(out)@ + signed_decimal(n as int),
{
    if n < 0 {
        proof {
            reveal_strlit("-");
        }
        out.append("-");
        let magnitude: u64 = ((-(n + 1)) as u64) + 1;
        push_decimal(out, magnitude);
        assert(final(out)@ =~= old(out)@ + signed_decimal(n as int));
    } else {
        push_decimal(out, n as u64);
    }
}

/// `t` with each `{}` replaced, left to right, by the next text of `args`.
/// A `{}` found once `args` is used up is kept as it is; texts left over
/// when `t` ends are not used.
pub open spec fn fill(t: Seq<char>, args: Seq<Seq<char>>) -> Seq<char>
    decreases t.len(),
{
    if t.len() == 0 {
        seq![]
    } else if t.len() >= 2 && t[0] == '{' && t[1] == '}' && args.len() > 0 {
        args[0] + fill(t.skip(2), args.skip(1))
    } else {
        seq![t[0]] + fill(t.skip(1), args)
    }
}

/// Fills `template` with `args` as `fill` describes.
pub fn fill_template(template: &str, args: &Vec<String>) -> (r: String)
    ensures
        r@ == fill(template@, args@.map_values(|a: String| a@)),
{
    let ghost t = template@;
    let ghost views = args@.map_values(|a: String| a@);
    let n = template.unicode_len();
    let mut out = String::new();
    let mut i: usize = 0;
    let mut start: usize = 0;
    let mut k: usize = 0;
    proof {
        assert(t.skip(0) =~= t);
        assert(views.skip(0) =~= views);
        assert(out@ + t.subrange(0, 0) =~= Seq::<char>::empty());
    }
    while i < n
        invariant
            n == t.len(),
            t == template@,
            views == args@.map_values(|a: String| a@),
            start <= i <= n,
            k <= args@.len(),
            out@ + t.subrange(start as int, i as int) + fill(t.skip(i as int), views.skip(k as int))
                == fill(t, views),
        decreases n - i,
    {
        let ghost rest = t.skip(i as int);
        let ghost more = views.skip(k as int);
        if i + 1 < n && k < args.len() && template.get_char(i) == '{' && template.get_char(i + 1)
            == '}' {
            out.append(template.substring_char(start, i));
            out.append(args[k].as_str());
            proof {
                assert(rest.skip(2) =~= t.skip(i + 2));
                assert(more.skip(1) =~= views.skip(k + 1));
                assert(more[0] == args@[k as int]@);
                assert(t.subrange(i + 2, i + 2) =~= Seq::<char>::empty());
                assert(fill(rest, more) == more[0] + fill(rest.skip(2), more.skip(1)));
            }
            i = i + 2;
            k = k + 1;
            start = i;
            proof {
                assert(out@ + t.subrange(start as int, i as int) + fill(t.skip(i as int), views.skip(k as int))
                    =~= out@ + fill(t.skip(i as int), views.skip(k as int)));
            }
        } else {
            proof {
                assert(rest.skip(1) =~= t.skip(i + 1));
                assert(fill(rest, more) == seq![t[i as int]] + fill(rest.skip(1), more));
                assert(t.subrange(start as int, i + 1) =~= t.subrange(start as int, i as int) + seq![t[i as int]]);
            }
            i = i + 1;
        }
    }
    out.append(template.substring_char(start, n));
    proof {
        assert(t.skip(n as int) =~= Seq::<char>::empty());
        assert(fill(t.skip(n as int), views.skip(k as int)) == Seq::<char>::empty());
    }
    assert(out@ =~= fill(t, views));
    out
}

} // verus!
