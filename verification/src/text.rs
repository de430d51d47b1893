//! Small verified text-building utilities: appending single characters,
//! rendering unsigned numbers in decimal, joining parts with a separator,
//! and trimming trailing whitespace.

use vstd::prelude::*;

verus! {

/// Relies on `String::push` from std: appends the given `char` to the end of
/// this `String`.
pub assume_specification[ String::push ](s: &mut String, c: char)
    ensures
        final(s)@ == old(s)@.push(c),
;

/// Relies on `String::pop` from std: removes the last character from the
/// string buffer and returns it, or `None` if the string is empty.
pub assume_specification[ String::pop ](s: &mut String) -> (r: Option<char>)
    ensures
        old(s)@.len() == 0 ==> r is None && final(s)@ == old(s)@,
        old(s)@.len() > 0 ==> r == Some(old(s)@.last()) && final(s)@ == old(s)@.drop_last(),
;

/// The character for a single decimal digit.
pub open spec fn digit_char(d: nat) -> char {
    ((48 + d % 10) as u8) as char
}

/// The decimal digits of `n`, most significant first, with no sign and no
/// leading zeros (except for `n == 0`, which is the single digit `0`).
pub open spec fn spec_decimal(n: nat) -> Seq<char>
    decreases n,
{
    if n < 10 {
        seq![digit_char(n)]
    } else {
        spec_decimal(n / 10).push(digit_char(n % 10))
    }
}

/// Appends the decimal form of `n` to `s`.
pub fn push_decimal_u32(s: &mut String, n: u32)
    ensures
        final(s)@ == old(s)@ + spec_decimal(n as nat),
    decreases n,
{
    if n >= 10 {
        push_decimal_u32(s, n / 10);
    }
    let d: u8 = (n % 10) as u8 + 48;
    s.push(d as char);
    proof {
        assert(d as char == digit_char((n % 10) as nat));
        if n < 10 {
            assert(old(s)@.push(d as char) =~= old(s)@ + spec_decimal(n as nat));
        } else {
            assert((old(s)@ + spec_decimal((n / 10) as nat)).push(d as char)
                =~= old(s)@ + spec_decimal(n as nat));
        }
    }
}

/// Concatenates two text fragments.
pub fn concat2(a: &str, b: &str) -> (r: String)
    ensures
        r@ == a@ + b@,
{
    let mut r = String::from_str(a);
    r.append(b);
    r
}

/// The parts concatenated, with `sep` between consecutive parts and nothing
/// before the first or after the last.
pub open spec fn join_with(parts: Seq<Seq<char>>, sep: Seq<char>) -> Seq<char>
    decreases parts.len(),
{
    if parts.len() == 0 {
        Seq::empty()
    } else if parts.len() == 1 {
        parts[0]
    } else {
        parts[0] + sep + join_with(parts.drop_first(), sep)
    }
}

/// Appending one more part extends the joined text by a separator (when the
/// text was not empty) and the part.
pub proof fn lemma_join_with_push(parts: Seq<Seq<char>>, sep: Seq<char>, p: Seq<char>)
    ensures
        join_with(parts.push(p), sep) == if parts.len() == 0 {
            p
        } else {
            join_with(parts, sep) + sep + p
        },
    decreases parts.len(),
{
    if parts.len() == 0 {
        assert(parts.push(p).len() == 1);
        assert(parts.push(p)[0] == p);
    } else if parts.len() == 1 {
        assert(parts.push(p).drop_first() =~= seq![p]);
        assert(seq![p].len() == 1 && seq![p][0] == p);
        assert(join_with(seq![p], sep) == p);
        assert(parts.push(p)[0] == parts[0]);
        assert(join_with(parts.push(p), sep) == parts[0] + sep + p);
    } else {
        assert(parts.push(p).drop_first() =~= parts.drop_first().push(p));
        lemma_join_with_push(parts.drop_first(), sep, p);
        assert(parts[0] + sep + (join_with(parts.drop_first(), sep) + sep + p)
            =~= (parts[0] + sep + join_with(parts.drop_first(), sep)) + sep + p);
    }
}

/// Joins the given parts with `sep` between consecutive parts.
pub fn join_strings(parts: &Vec<String>, sep: &str) -> (r: String)
    ensures
        r@ == join_with(parts@.map_values(|p: String| p@), sep@),
{
    let ghost vs = parts@.map_values(|p: String| p@);
    let mut r = String::new();
    let mut i: usize = 0;
    while i < parts.len()
        invariant
            i <= parts.len(),
            vs == parts@.map_values(|p: String| p@),
            r@ == join_with(vs.take(i as int), sep@),
        decreases parts.len() - i,
    {
        if i > 0 {
            r.append(sep);
        }
        r.append(parts[i].as_str());
        proof {
            assert(vs.take(i as int).push(vs[i as int]) =~= vs.take(i + 1));
            lemma_join_with_push(vs.take(i as int), sep@, vs[i as int]);
        }
        i = i + 1;
    }
    proof {
        assert(vs.take(parts.len() as int) =~= vs);
    }
    r
}

/// The whitespace characters that can end a generated document.
pub open spec fn is_ws_char(c: char) -> bool {
    c == ' ' || c == '\t' || c == '\n' || c == '\r'
}

/// `s` with every trailing whitespace character removed.
pub open spec fn spec_trim_trailing(s: Seq<char>) -> Seq<char>
    decreases s.len(),
{
    if s.len() > 0 && is_ws_char(s.last()) {
        spec_trim_trailing(s.drop_last())
    } else {
        s
    }
}

/// Removes every trailing whitespace character from `s`.
pub fn trim_trailing(s: &mut String)
    ensures
        final(s)@ == spec_trim_trailing(old(s)@),
    decreases old(s)@.len(),
{
    let c = s.pop();
    match c {
        None => {},
        Some(c) => {
            if c == ' ' || c == '\t' || c == '\n' || c == '\r' {
                trim_trailing(s);
            } else {
                s.push(c);
                proof {
                    assert(old(s)@.drop_last().push(c) =~= old(s)@);
                }
            }
        }
    }
}

} // verus!
