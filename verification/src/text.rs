//! Text-building utilities for rendering generated code fragments:
//! decimal rendering of indices and separator-joined lists.

use vstd::prelude::*;

verus! {

/// The decimal digit character for `d`.
pub open spec fn dec_digit(d: nat) -> char {
    if d == 0 {
        '0'
    } else if d == 1 {
        '1'
    } else if d == 2 {
        '2'
    } else if d == 3 {
        '3'
    } else if d == 4 {
        '4'
    } else if d == 5 {
        '5'
    } else if d == 6 {
        '6'
    } else if d == 7 {
        '7'
    } else if d == 8 {
        '8'
    } else {
        '9'
    }
}

/// The decimal representation of `n`, most significant digit first,
/// without leading zeros (except for `n == 0` itself).
pub open spec fn dec_rep(n: nat) -> Seq<char>
    decreases n,
{
    if n < 10 {
        seq![dec_digit(n)]
    } else {
        dec_rep(n / 10) + seq![dec_digit(n % 10)]
    }
}

/// `parts` joined by `sep`, in order, with no leading or trailing
/// separator.
pub open spec fn joined(parts: Seq<Seq<char>>, sep: Seq<char>) -> Seq<char>
    decreases parts.len(),
{
    if parts.len() == 0 {
        Seq::empty()
    } else if parts.len() == 1 {
        parts[0]
    } else {
        joined(parts.drop_last(), sep) + sep + parts.last()
    }
}

/// The views of a sequence of strings, in order.
pub open spec fn views_of(parts: Seq<String>) -> Seq<Seq<char>> {
    parts.map_values(|p: String| p@)
}

/// Taking one more element of a sequence appends exactly that element.
pub proof fn lemma_take_one_more<A>(s: Seq<A>, i: int)
    requires
        0 <= i < s.len(),
    ensures
        s.take(i + 1).drop_last() == s.take(i),
        s.take(i + 1).last() == s[i],
{
    assert(s.take(i + 1).drop_last() =~= s.take(i));
}

fn dec_digit_str(d: usize) -> (r: &'static str)
    requires
        d < 10,
    ensures
        r@ == seq![dec_digit(d as nat)],
{
    proof {
        reveal_strlit("0");
        reveal_strlit("1");
        reveal_strlit("2");
        reveal_strlit("3");
        reveal_strlit("4");
        reveal_strlit("5");
        reveal_strlit("6");
        reveal_strlit("7");
        reveal_strlit("8");
        reveal_strlit("9");
    }
    match d {
        0 => "0",
        1 => "1",
        2 => "2",
        3 => "3",
        4 => "4",
        5 => "5",
        6 => "6",
        7 => "7",
        8 => "8",
        _ => "9",
    }
}

/// Renders `n` in decimal.
pub fn usize_to_dec(n: usize) -> (r: String)
    ensures
        r@ == dec_rep(n as nat),
    decreases n,
{
    if n < 10 {
        String::from_str(dec_digit_str(n))
    } else {
        let mut r = usize_to_dec(n / 10);
        r.append(dec_digit_str(n % 10));
        r
    }
}

/// Copies a list of strings, preserving order and contents.
pub fn clone_strings(parts: &Vec<String>) -> (r: Vec<String>)
    ensures
        r@ == parts@,
{
    let mut r: Vec<String> = Vec::new();
    let mut i: usize = 0;
    while i < parts.len()
        invariant
            0 <= i <= parts.len(),
            r@ == parts@.take(i as int),
        decreases parts.len() - i,
    {
        r.push(parts[i].clone());
        proof {
            assert(parts@.take(i + 1) =~= parts@.take(i as int).push(parts@[i as int]));
        }
        i = i + 1;
    }
    proof {
        assert(parts@.take(parts@.len() as int) =~= parts@);
    }
    r
}

/// Joins the strings of `parts` with the separator `sep`.
pub fn join_strings(parts: &Vec<String>, sep: &str) -> (r: String)
    ensures
        r@ == joined(views_of(parts@), sep@),
{
    let ghost all: Seq<Seq<char>> = views_of(parts@);
    if parts.len() == 0 {
        let r = String::new();
        assert(r@ =~= joined(all, sep@));
        return r;
    }
    let mut r = parts[0].clone();
    assert(all.take(1) =~= seq![parts@[0]@]);
    let mut i: usize = 1;
    while i < parts.len()
        invariant
            1 <= i <= parts.len(),
            all == views_of(parts@),
            all.len() == parts.len(),
            r@ == joined(all.take(i as int), sep@),
        decreases parts.len() - i,
    {
        r.append(sep);
        r.append(parts[i].as_str());
        proof {
            lemma_take_one_more(all, i as int);
        }
        i = i + 1;
    }
    assert(all.take(parts.len() as int) =~= all);
    r
}

} // verus!
