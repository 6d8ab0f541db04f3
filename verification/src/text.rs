//! Text helpers: decimal rendering of integers and joining of pieces.

use vstd::prelude::*;

verus! {

/// The character of a decimal digit.
pub open spec fn digit_char(d: int) -> char
    recommends
        0 <= d < 10,
{
    ('0' as int + d) as char
}

/// Decimal digits of a natural number, most significant first, without padding.
pub open spec fn nat_decimal(n: nat) -> Seq<char>
    decreases n,
{
    if n < 10 {
        seq![digit_char(n as int)]
    } else {
        nat_decimal(n / 10).push(digit_char((n % 10) as int))
    }
}

/// Decimal rendering of an integer, as `Display` writes it: a leading `-`
/// for negative values, no `+` for positive ones.
pub open spec fn int_decimal(i: int) -> Seq<char> {
    if i < 0 {
        seq!['-'] + nat_decimal((-i) as nat)
    } else {
        nat_decimal(i as nat)
    }
}

/// Pieces joined with a separator between each two neighbours.
pub open spec fn join(parts: Seq<Seq<char>>, sep: Seq<char>) -> Seq<char>
    decreases parts.len(),
{
    if parts.len() == 0 {
        Seq::empty()
    } else if parts.len() == 1 {
        parts[0]
    } else {
        join(parts.drop_last(), sep) + sep + parts.last()
    }
}

fn digit_str(d: u32) -> (s: &'static str)
    requires
        d < 10,
    ensures
        s@ == seq![digit_char(d as int)],
{
    proof {
        reveal_strlit("0");
        reveal_strlit("1");
        reveal_strlit("2");
        reveal_strlit("3");
        reveal_strlit("4");
        reveal_strlit("5");
        reveal_strlit("6");
        reveal_strlit("7");
        reveal_strlit("8");
        reveal_strlit("9");
    }
    match d {
        0 => "0",
        1 => "1",
        2 => "2",
        3 => "3",
        4 => "4",
        5 => "5",
        6 => "6",
        7 => "7",
        8 => "8",
        _ => "9",
    }
}

/// Appends the decimal digits of `n`.
pub fn push_decimal(out: &mut String, n: u32)
    ensures
        final(out)@ == old(out)@ + nat_decimal(n as nat),
    decreases n,
{
    if n >= 10 {
        push_decimal(out, n / 10);
        out.append(digit_str(n % 10));
        assert(old(out)@ + nat_decimal(n as nat) =~= old(out)@ + nat_decimal((n / 10) as nat)
            + seq![digit_char((n % 10) as int)]);
    } else {
        out.append(digit_str(n % 10));
        assert(old(out)@ + nat_decimal(n as nat) =~= old(out)@ + seq![digit_char((n % 10) as int)]);
    }
}

/// The decimal rendering of an `i32`, as `i32::to_string` gives it.
pub fn i32_to_string(v: i32) -> (s: String)
    ensures
        s@ == int_decimal(v as int),
{
    let mut out = String::new();
    if v < 0 {
        out.append("-");
        proof {
            reveal_strlit("-");
        }
        let magnitude: u32 = (0i64 - (v as i64)) as u32;
        push_decimal(&mut out, magnitude);
    } else {
        push_decimal(&mut out, v as u32);
    }
    out
}

/// The decimal rendering of a `usize`-sized count, as `to_string` gives it.
pub fn usize_to_string(v: usize) -> (s: String)
    ensures
        s@ == nat_decimal(v as nat),
    decreases v,
{
    let mut out = String::new();
    if v >= 10 {
        out = usize_to_string(v / 10);
    }
    let d: u32 = (v % 10) as u32;
    out.append(digit_str(d));
    proof {
        assert(nat_decimal(v as nat) =~= if v >= 10 {
            nat_decimal((v / 10) as nat).push(digit_char((v % 10) as int))
        } else {
            seq![digit_char(v as int)]
        });
    }
    out
}

/// Joins owned strings with a separator, as `Vec<String>::join` does.
pub fn join_strings(parts: &Vec<String>, sep: &str) -> (s: String)
    ensures
        s@ == join(parts@.map_values(|p: String| p@), sep@),
{
    let ghost views = parts@.map_values(|p: String| p@);
    let mut out = String::new();
    let mut i: usize = 0;
    while i < parts.len()
        invariant
            0 <= i <= parts.len(),
            views == parts@.map_values(|p: String| p@),
            out@ == join(views.take(i as int), sep@),
        decreases parts.len() - i,
    {
        if i > 0 {
            out.append(sep);
        }
        out.append(parts[i].as_str());
        proof {
            assert(views.take(i + 1).drop_last() =~= views.take(i as int));
            assert(views.take(i + 1).last() == parts@[i as int]@);
            if i == 0 {
                assert(views.take(1) =~= seq![parts@[0]@]);
            }
        }
        i = i + 1;
    }
    proof {
        assert(views.take(parts.len() as int) =~= views);
    }
    out
}

/// The text of an optional string.
pub open spec fn opt_view(o: Option<String>) -> Option<Seq<char>> {
    match o {
        Some(s) => Some(s@),
        None => None,
    }
}

/// Compares two optional strings by their text.
pub fn opt_string_eq(a: &Option<String>, b: &Option<String>) -> (r: bool)
    ensures
        r == (opt_view(*a) == opt_view(*b)),
{
    match (a, b) {
        (Some(x), Some(y)) => *x == *y,
        (None, None) => true,
        _ => false,
    }
}

/// A copy of an optional string.
pub fn clone_opt_string(a: &Option<String>) -> (r: Option<String>)
    ensures
        r == *a,
{
    match a {
        Some(x) => Some(x.clone()),
        None => None,
    }
}

/// The text before the first occurrence of a separator, or all of it.
pub open spec fn before_sep(s: Seq<char>, sep: char) -> Seq<char>
    decreases s.len(),
{
    if s.len() == 0 {
        s
    } else if s[0] == sep {
        Seq::empty()
    } else {
        seq![s[0]] + before_sep(s.drop_first(), sep)
    }
}

/// The text after the first occurrence of a separator, or nothing.
pub open spec fn after_sep(s: Seq<char>, sep: char) -> Seq<char>
    decreases s.len(),
{
    if s.len() == 0 {
        s
    } else if s[0] == sep {
        s.drop_first()
    } else {
        after_sep(s.drop_first(), sep)
    }
}

proof fn lemma_split_at_first(s: Seq<char>, sep: char, k: int)
    requires
        0 <= k <= s.len(),
        forall|j: int| 0 <= j < k ==> s[j] != sep,
    ensures
        k < s.len() && s[k] == sep ==> before_sep(s, sep) == s.take(k) && after_sep(s, sep)
            == s.skip(k + 1),
        k == s.len() ==> before_sep(s, sep) == s && after_sep(s, sep) == Seq::<char>::empty(),
    decreases k,
{
    if k > 0 {
        lemma_split_at_first(s.drop_first(), sep, k - 1);
        assert(s.take(k) =~= seq![s[0]] + s.drop_first().take(k - 1));
        if k < s.len() {
            assert(s.skip(k + 1) =~= s.drop_first().skip(k));
        }
        assert(s =~= seq![s[0]] + s.drop_first());
    } else {
        if s.len() == 0 {
            assert(s.take(0) =~= s);
        } else {
            assert(s.take(0) =~= Seq::<char>::empty());
            assert(s.skip(1) =~= s.drop_first());
        }
    }
}

/// Whether a text holds a character.
pub fn contains_char(s: &str, c: char) -> (r: bool)
    ensures
        r == s@.contains(c),
{
    let n = s.unicode_len();
    let mut i: usize = 0;
    while i < n
        invariant
            n == s@.len(),
            0 <= i <= n,
            forall|j: int| 0 <= j < i ==> s@[j] != c,
        decreases n - i,
    {
        if s.get_char(i) == c {
            return true;
        }
        i = i + 1;
    }
    false
}

/// Splits a text at the first occurrence of a separator: the text before it
/// and the text after it (all and nothing when the separator is absent).
pub fn split_once_char(s: &str, sep: char) -> (r: (String, String))
    ensures
        r.0@ == before_sep(s@, sep),
        r.1@ == after_sep(s@, sep),
{
    let n = s.unicode_len();
    let mut i: usize = 0;
    while i < n
        invariant
            n == s@.len(),
            0 <= i <= n,
            forall|j: int| 0 <= j < i ==> s@[j] != sep,
        decreases n - i,
    {
        if s.get_char(i) == sep {
            proof {
                lemma_split_at_first(s@, sep, i as int);
            }
            let head = String::from_str(s.substring_char(0, i));
            let tail = String::from_str(s.substring_char(i + 1, n));
            assert(s@.subrange(0, i as int) =~= s@.take(i as int));
            assert(s@.subrange(i + 1, n as int) =~= s@.skip(i + 1));
            return (head, tail);
        }
        i = i + 1;
    }
    proof {
        lemma_split_at_first(s@, sep, n as int);
    }
    (String::from_str(s), String::new())
}

} // verus!
