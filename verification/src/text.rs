//! Text as sequences of characters: joining, and decimal numerals.

use vstd::prelude::*;
use vstd::string::StringExecFns;

verus! {

/// The parts of `parts`, in order, with `sep` between each neighbouring pair.
pub open spec fn join(parts: Seq<Seq<char>>, sep: Seq<char>) -> Seq<char>
    decreases parts.len(),
{
    if parts.len() == 0 {
        Seq::empty()
    } else if parts.len() == 1 {
        parts[0]
    } else {
        join(parts.drop_last(), sep) + sep + parts.last()
    }
}

/// Joins the strings of `parts` with `sep` between neighbours.
pub fn join_strings(parts: &Vec<String>, sep: &str) -> (out: String)
    ensures
        out@ == join(parts.deep_view(), sep@),
{
    let mut out = String::new();
    let mut i: usize = 0;
    while i < parts.len()
        invariant
            i <= parts.len(),
            out@ == join(parts.deep_view().take(i as int), sep@),
        decreases parts.len() - i,
    {
        proof {
            let next = parts.deep_view().take(i + 1);
            assert(next.drop_last() =~= parts.deep_view().take(i as int));
            assert(next.last() == parts[i as int]@);
        }
        if i > 0 {
            out.append(sep);
        }
        out.append(parts[i].as_str());
        i += 1;
    }
    proof {
        assert(parts.deep_view().take(parts.len() as int) =~= parts.deep_view());
    }
    out
}

/// Appends each string of `parts` to `out`, in order.
pub fn append_all(out: &mut String, parts: &Vec<String>)
    ensures
        final(out)@ == old(out)@ + parts.deep_view().flatten(),
{
    let ghost start = out@;
    let mut i: usize = 0;
    proof {
        assert(parts.deep_view().take(0) =~= Seq::<Seq<char>>::empty());
    }
    while i < parts.len()
        invariant
            i <= parts.len(),
            out@ == start + parts.deep_view().take(i as int).flatten(),
        decreases parts.len() - i,
    {
        proof {
            let done = parts.deep_view().take(i as int);
            assert(parts.deep_view().take(i + 1) =~= done.push(parts[i as int]@));
            done.lemma_flatten_push(parts[i as int]@);
        }
        out.append(parts[i].as_str());
        i += 1;
    }
    proof {
        assert(parts.deep_view().take(parts.len() as int) =~= parts.deep_view());
    }
}

/// Whether `needle` stands in `text` at place `at`.
pub open spec fn occurs_at(needle: Seq<char>, text: Seq<char>, at: int) -> bool {
    0 <= at && at + needle.len() <= text.len() && text.subrange(at, at + needle.len()) == needle
}

/// Whether `needle` occurs in `text`, as a run of neighbouring characters.
pub open spec fn occurs_in(needle: Seq<char>, text: Seq<char>) -> bool {
    exists|at: int| occurs_at(needle, text, at)
}

/// A needle that begins `</` occurs behind a prefix that begins `<`, goes
/// on with another character than `/` and holds no second `<`, where it
/// occurs in what follows the prefix, and nowhere else.
pub proof fn lemma_occurs_behind_prefix(needle: Seq<char>, prefix: Seq<char>, rest: Seq<char>)
    requires
        needle.len() >= 2,
        needle[0] == '<',
        needle[1] == '/',
        prefix.len() >= 2,
        prefix[1] != '/',
        forall|k: int| 1 <= k < prefix.len() ==> prefix[k] != '<',
    ensures
        occurs_in(needle, prefix + rest) <==> occurs_in(needle, rest),
{
    let text = prefix + rest;
    let n = needle.len() as int;
    let p = prefix.len() as int;
    if occurs_in(needle, text) {
        let at = choose|at: int| occurs_at(needle, text, at);
        assert(text.subrange(at, at + n)[0] == needle[0]);
        assert(text.subrange(at, at + n)[1] == needle[1]);
        assert(at >= p);
        assert(rest.subrange(at - p, at - p + n) =~= text.subrange(at, at + n));
        assert(occurs_at(needle, rest, at - p));
    }
    if occurs_in(needle, rest) {
        let at = choose|at: int| occurs_at(needle, rest, at);
        assert(text.subrange(at + p, at + p + n) =~= rest.subrange(at, at + n));
        assert(occurs_at(needle, text, at + p));
    }
}

/// A needle occurs before a suffix whose first character it does not hold
/// and which does not hold the needle's first character, where it occurs in
/// what stands before the suffix, and nowhere else.
pub proof fn lemma_occurs_before_suffix(needle: Seq<char>, body: Seq<char>, suffix: Seq<char>)
    requires
        needle.len() >= 1,
        suffix.len() >= 1,
        forall|k: int| 0 <= k < needle.len() ==> needle[k] != suffix[0],
        forall|k: int| 0 <= k < suffix.len() ==> suffix[k] != needle[0],
    ensures
        occurs_in(needle, body + suffix) <==> occurs_in(needle, body),
{
    let text = body + suffix;
    let n = needle.len() as int;
    let b = body.len() as int;
    if occurs_in(needle, text) {
        let at = choose|at: int| occurs_at(needle, text, at);
        assert(text.subrange(at, at + n)[0] == needle[0]);
        assert(at < b);
        if at + n > b {
            assert(text.subrange(at, at + n)[b - at] == needle[b - at]);
        }
        assert(body.subrange(at, at + n) =~= text.subrange(at, at + n));
        assert(occurs_at(needle, body, at));
    }
    if occurs_in(needle, body) {
        let at = choose|at: int| occurs_at(needle, body, at);
        assert(text.subrange(at, at + n) =~= body.subrange(at, at + n));
        assert(occurs_at(needle, text, at));
    }
}

/// Moves the strings of `more` to the end of `out`, in order.
pub fn extend_strings(out: &mut Vec<String>, more: Vec<String>)
    ensures
        final(out).deep_view() == old(out).deep_view() + more.deep_view(),
{
    let mut more = more;
    let ghost moved = more.deep_view();
    out.append(&mut more);
    assert(out.deep_view() =~= old(out).deep_view() + moved);
}

/// The character that stands for a digit.
pub open spec fn digit(d: int) -> char {
    if d == 0 {
        '0'
    } else if d == 1 {
        '1'
    } else if d == 2 {
        '2'
    } else if d == 3 {
        '3'
    } else if d == 4 {
        '4'
    } else if d == 5 {
        '5'
    } else if d == 6 {
        '6'
    } else if d == 7 {
        '7'
    } else if d == 8 {
        '8'
    } else {
        '9'
    }
}

/// The decimal numeral of a natural number, without leading zeros.
pub open spec fn decimal_nat(n: nat) -> Seq<char>
    decreases n,
{
    if n < 10 {
        seq![digit(n as int)]
    } else {
        decimal_nat(n / 10).push(digit((n % 10) as int))
    }
}

/// The decimal numeral of an integer: a minus sign before the digits of a
/// negative one.
pub open spec fn decimal(n: int) -> Seq<char> {
    if n < 0 {
        seq!['-'] + decimal_nat((-n) as nat)
    } else {
        decimal_nat(n as nat)
    }
}

/// The one-character literal of a digit.
fn digit_str(d: u32) -> (s: &'static str)
    requires
        d < 10,
    ensures
        s@ == seq![digit(d as int)],
{
    proof {
        reveal_strlit("0");
        reveal_strlit("1");
        reveal_strlit("2");
        reveal_strlit("3");
        reveal_strlit("4");
        reveal_strlit("5");
        reveal_strlit("6");
        reveal_strlit("7");
        reveal_strlit("8");
        reveal_strlit("9");
    }
    let s = if d == 0 {
        "0"
    } else if d == 1 {
        "1"
    } else if d == 2 {
        "2"
    } else if d == 3 {
        "3"
    } else if d == 4 {
        "4"
    } else if d == 5 {
        "5"
    } else if d == 6 {
        "6"
    } else if d == 7 {
        "7"
    } else if d == 8 {
        "8"
    } else {
        "9"
    };
    assert(s@ =~= seq![digit(d as int)]);
    s
}

/// Appends the decimal numeral of `n` to `out`.
fn append_decimal_nat(out: &mut String, n: u32)
    ensures
        final(out)@ == old(out)@ + decimal_nat(n as nat),
    decreases n,
{
    let ghost start = out@;
    if n >= 10 {
        append_decimal_nat(out, n / 10);
    }
    out.append(digit_str(n % 10));
    assert(out@ =~= start + decimal_nat(n as nat));
}

/// The decimal numeral of `n`.
pub fn decimal_string(n: i16) -> (out: String)
    ensures
        out@ == decimal(n as int),
{
    let mut out = String::new();
    if n < 0 {
        proof {
            reveal_strlit("-");
        }
        out.append("-");
        append_decimal_nat(&mut out, (-(n as i32)) as u32);
    } else {
        append_decimal_nat(&mut out, n as u32);
    }
    assert(out@ =~= decimal(n as int));
    out
}

} // verus!
