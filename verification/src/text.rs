//! Strings as character sequences: the vocabulary in which argument vectors
//! and captured output are specified.

use vstd::prelude::*;
use vstd::string::*;

verus! {

/// The character sequences of a list of strings, in order.
pub open spec fn texts(v: Seq<String>) -> Seq<Seq<char>> {
    Seq::new(v.len(), |i: int| v[i]@)
}

/// The character sequence of an optional string.
pub open spec fn opt_text(s: Option<String>) -> Option<Seq<char>> {
    match s {
        Some(s) => Some(s@),
        None => None,
    }
}

/// `texts` distributes over `push`.
pub proof fn lemma_texts_push(v: Seq<String>, s: String)
    ensures
        texts(v.push(s)) == texts(v).push(s@),
{
}

/// Whether `c` has the Unicode property White_Space.
pub open spec fn is_whitespace(c: char) -> bool {
    let u = c as u32;
    ||| 0x09 <= u <= 0x0d
    ||| u == 0x20
    ||| u == 0x85
    ||| u == 0xa0
    ||| u == 0x1680
    ||| 0x2000 <= u <= 0x200a
    ||| u == 0x2028
    ||| u == 0x2029
    ||| u == 0x202f
    ||| u == 0x205f
    ||| u == 0x3000
}

/// `s` without its leading whitespace.
pub open spec fn trim_start(s: Seq<char>) -> Seq<char>
    decreases s.len(),
{
    if s.len() > 0 && is_whitespace(s.first()) {
        trim_start(s.drop_first())
    } else {
        s
    }
}

/// `s` without its trailing whitespace.
pub open spec fn trim_end(s: Seq<char>) -> Seq<char>
    decreases s.len(),
{
    if s.len() > 0 && is_whitespace(s.last()) {
        trim_end(s.drop_last())
    } else {
        s
    }
}

/// `s` without leading and trailing whitespace.
pub open spec fn trimmed(s: Seq<char>) -> Seq<char> {
    trim_end(trim_start(s))
}

/// The decimal digit for `d`, which is below ten.
pub open spec fn digit(d: nat) -> char {
    if d == 0 {
        '0'
    } else if d == 1 {
        '1'
    } else if d == 2 {
        '2'
    } else if d == 3 {
        '3'
    } else if d == 4 {
        '4'
    } else if d == 5 {
        '5'
    } else if d == 6 {
        '6'
    } else if d == 7 {
        '7'
    } else if d == 8 {
        '8'
    } else {
        '9'
    }
}

/// The decimal numeral of `n`: most significant digit first, no leading zero
/// except for zero itself.
pub open spec fn decimal(n: nat) -> Seq<char>
    decreases n,
{
    if n < 10 {
        seq![digit(n)]
    } else {
        decimal(n / 10).push(digit(n % 10))
    }
}

/// Whether `c` has the Unicode property White_Space.
pub fn is_space(c: char) -> (r: bool)
    ensures
        r == is_whitespace(c),
{
    let u = c as u32;
    (0x09 <= u && u <= 0x0d) || u == 0x20 || u == 0x85 || u == 0xa0 || u == 0x1680 || (0x2000 <= u
        && u <= 0x200a) || u == 0x2028 || u == 0x2029 || u == 0x202f || u == 0x205f || u == 0x3000
}

/// Whether the two strings hold the same characters.
pub fn same_text(a: &str, b: &str) -> (r: bool)
    ensures
        r == (a@ == b@),
{
    let a = String::from_str(a);
    let b = String::from_str(b);
    a == b
}

/// The part of `s` that is left once leading and trailing whitespace is
/// removed.
pub fn trim(s: &str) -> (r: &str)
    ensures
        r@ == trimmed(s@),
{
    let n = s.unicode_len();
    let mut start: usize = 0;
    assert(s@.subrange(0, n as int) =~= s@);
    while start < n && is_space(s.get_char(start))
        invariant
            start <= n == s@.len(),
            trim_start(s@) == trim_start(s@.subrange(start as int, n as int)),
        decreases n - start,
    {
        assert(s@.subrange(start as int, n as int).drop_first() =~= s@.subrange(
            start + 1,
            n as int,
        ));
        start += 1;
    }
    let mut end: usize = n;
    while end > start && is_space(s.get_char(end - 1))
        invariant
            start <= end <= n == s@.len(),
            trim_end(s@.subrange(start as int, n as int)) == trim_end(
                s@.subrange(start as int, end as int),
            ),
        decreases end,
    {
        assert(s@.subrange(start as int, end as int).drop_last() =~= s@.subrange(
            start as int,
            end - 1,
        ));
        end -= 1;
    }
    s.substring_char(start, end)
}

/// Appends a copy of `s` to `v`.
pub(crate) fn push_text(v: &mut Vec<String>, s: &str)
    ensures
        texts(final(v)@) == texts(old(v)@).push(s@),
{
    let owned = String::from_str(s);
    proof {
        lemma_texts_push(v@, owned);
    }
    v.push(owned);
}

/// Appends copies of all of `more` to `v`.
pub(crate) fn push_texts(v: &mut Vec<String>, more: &[String])
    ensures
        texts(final(v)@) == texts(old(v)@) + texts(more@),
{
    let mut i: usize = 0;
    while i < more.len()
        invariant
            0 <= i <= more@.len(),
            texts(v@) == texts(old(v)@) + texts(more@.subrange(0, i as int)),
        decreases more@.len() - i,
    {
        let item = more[i].clone();
        proof {
            lemma_texts_push(v@, item);
            assert(texts(more@.subrange(0, i + 1)) =~= texts(more@.subrange(0, i as int)).push(
                more@[i as int]@,
            ));
        }
        v.push(item);
        i += 1;
    }
}

/// The one-character string for the digit `d`.
fn digit_str(d: u32) -> (r: &'static str)
    requires
        d < 10,
    ensures
        r@ == seq![digit(d as nat)],
{
    proof {
        reveal_strlit("0");
        reveal_strlit("1");
        reveal_strlit("2");
        reveal_strlit("3");
        reveal_strlit("4");
        reveal_strlit("5");
        reveal_strlit("6");
        reveal_strlit("7");
        reveal_strlit("8");
        reveal_strlit("9");
    }
    let r = if d == 0 {
        "0"
    } else if d == 1 {
        "1"
    } else if d == 2 {
        "2"
    } else if d == 3 {
        "3"
    } else if d == 4 {
        "4"
    } else if d == 5 {
        "5"
    } else if d == 6 {
        "6"
    } else if d == 7 {
        "7"
    } else if d == 8 {
        "8"
    } else {
        "9"
    };
    r
}

/// Renders `n` as a decimal numeral.
pub fn decimal_string(n: u32) -> (r: String)
    ensures
        r@ == decimal(n as nat),
{
    let mut rest: u32 = n / 10;
    let mut out: String = String::from_str(digit_str(n % 10));
    while rest > 0
        invariant
            decimal(n as nat) == (if rest == 0 {
                Seq::<char>::empty()
            } else {
                decimal(rest as nat)
            }) + out@,
        decreases rest,
    {
        let head = String::from_str(digit_str(rest % 10));
        out = head.concat(out.as_str());
        rest = rest / 10;
    }
    out
}

} // verus!
