//! Text primitives shared by the resolution engine: character access, joining,
//! decimal rendering, index parsing and identifier normalisation.
//!
//! Every string is modelled by its sequence of characters.

use vstd::prelude::*;
use vstd::string::*;

verus! {

/// Trusted: `String::push` appends exactly one character at the end.
pub assume_specification[ String::push ](s: &mut String, c: char)
    ensures
        final(s)@ == old(s)@.push(c),
;

/// Trusted: two string slices compare equal exactly when they hold the same
/// characters in the same order.
pub assume_specification[ <str as PartialEq>::eq ](a: &str, b: &str) -> (r: bool)
    ensures
        r == (a@ == b@),
;

/// The lower-case form of a text as `str::to_lowercase` computes it (the
/// Unicode `Lowercase` mapping, which may change the number of characters).
pub uninterp spec fn lowercase(s: Seq<char>) -> Seq<char>;

/// Trusted: `str::to_lowercase` is a function of the characters of its
/// argument alone; its result is named `lowercase`.
pub assume_specification[ str::to_lowercase ](s: &str) -> (r: String)
    ensures
        r@ == lowercase(s@),
;

/// The characters of `s`, in order.
pub fn chars_of(s: &str) -> (v: Vec<char>)
    ensures
        v@ == s@,
{
    let mut v: Vec<char> = Vec::new();
    for c in it: s.chars()
        invariant
            it.seq() == s@,
            v@ == s@.take(it.index() as int),
    {
        v.push(c);
    }
    v
}

/// The text made of `chars[from..to]`.
pub fn text_of(chars: &Vec<char>, from: usize, to: usize) -> (s: String)
    requires
        from <= to <= chars.len(),
    ensures
        s@ == chars@.subrange(from as int, to as int),
{
    let mut s = String::new();
    let mut i: usize = from;
    while i < to
        invariant
            from <= i <= to <= chars.len(),
            s@ == chars@.subrange(from as int, i as int),
        decreases to - i,
    {
        s.push(chars[i]);
        i += 1;
    }
    s
}

/// A fresh copy of `s`.
pub fn copy_text(s: &str) -> (r: String)
    ensures
        r@ == s@,
{
    s.to_owned()
}

/// `s` with every hyphen taken out.
pub open spec fn without_hyphens(s: Seq<char>) -> Seq<char> {
    s.filter(|c: char| c != '-')
}

/// Removes every `'-'` from `s`, keeping the other characters in order.
pub fn strip_hyphens(s: &str) -> (r: String)
    ensures
        r@ == without_hyphens(s@),
{
    let mut r = String::new();
    let ghost keep = |c: char| c != '-';
    proof {
        reveal(Seq::filter);
    }
    for c in it: s.chars()
        invariant
            it.seq() == s@,
            keep == (|c: char| c != '-'),
            r@ == s@.take(it.index() as int).filter(keep),
    {
        proof {
            reveal(Seq::filter);
            let i = it.index() as int;
            assert(s@.take(i + 1).drop_last() == s@.take(i));
            assert(s@.take(i + 1).last() == c);
        }
        if c != '-' {
            r.push(c);
        }
    }
    proof {
        assert(s@.take(s@.len() as int) == s@);
    }
    r
}

/// The short form of a GUID: hyphens stripped, then lower-cased.
pub open spec fn short_guid_of(guid: Seq<char>) -> Seq<char> {
    lowercase(without_hyphens(guid))
}

/// Normalises a GUID to the short identifier by which entities are linked.
pub fn short_guid(guid: &str) -> (r: String)
    ensures
        r@ == short_guid_of(guid@),
{
    let stripped = strip_hyphens(guid);
    stripped.as_str().to_lowercase()
}

/// `parts` joined with `sep` between neighbours.
pub open spec fn joined(parts: Seq<Seq<char>>, sep: Seq<char>) -> Seq<char>
    decreases parts.len(),
{
    if parts.len() == 0 {
        Seq::empty()
    } else if parts.len() == 1 {
        parts[0]
    } else {
        joined(parts.drop_last(), sep) + sep + parts.last()
    }
}

/// Joins `parts` with `sep` between neighbours.
pub fn join(parts: &Vec<String>, sep: &str) -> (r: String)
    ensures
        r@ == joined(parts.deep_view(), sep@),
{
    let mut r = String::new();
    let mut i: usize = 0;
    while i < parts.len()
        invariant
            i <= parts.len(),
            r@ == joined(parts.deep_view().take(i as int), sep@),
        decreases parts.len() - i,
    {
        proof {
            let p = parts.deep_view();
            assert(p.take(i + 1).drop_last() == p.take(i as int));
            assert(p.take(i + 1).last() == parts@[i as int]@);
            assert(p.take(i as int).len() == i);
            if i == 1 {
                assert(p.take(1).drop_last() == Seq::<Seq<char>>::empty());
            }
        }
        if i > 0 {
            r.append(sep);
        }
        r.append(parts[i].as_str());
        i += 1;
    }
    proof {
        assert(parts.deep_view().take(parts.len() as int) == parts.deep_view());
    }
    r
}

/// The character that writes the decimal digit `d`.
pub open spec fn digit_char(d: int) -> char {
    if d == 0 {
        '0'
    } else if d == 1 {
        '1'
    } else if d == 2 {
        '2'
    } else if d == 3 {
        '3'
    } else if d == 4 {
        '4'
    } else if d == 5 {
        '5'
    } else if d == 6 {
        '6'
    } else if d == 7 {
        '7'
    } else if d == 8 {
        '8'
    } else {
        '9'
    }
}

/// The decimal digits of `n`, most significant first, without leading zeros.
pub open spec fn decimal_nat(n: nat) -> Seq<char>
    decreases n,
{
    if n < 10 {
        seq![digit_char(n as int)]
    } else {
        decimal_nat(n / 10).push(digit_char((n % 10) as int))
    }
}

/// The decimal rendering of `n`: a minus sign for negative numbers, then the
/// digits of the magnitude.
pub open spec fn decimal(n: int) -> Seq<char> {
    if n < 0 {
        seq!['-'] + decimal_nat((-n) as nat)
    } else {
        decimal_nat(n as nat)
    }
}

fn digit_of(d: u64) -> (c: char)
    requires
        d < 10,
    ensures
        c == digit_char(d as int),
{
    if d == 0 {
        '0'
    } else if d == 1 {
        '1'
    } else if d == 2 {
        '2'
    } else if d == 3 {
        '3'
    } else if d == 4 {
        '4'
    } else if d == 5 {
        '5'
    } else if d == 6 {
        '6'
    } else if d == 7 {
        '7'
    } else if d == 8 {
        '8'
    } else {
        '9'
    }
}

/// Appends the decimal rendering of `n` to `out`.
pub fn push_decimal(out: &mut String, n: i64)
    ensures
        final(out)@ == old(out)@ + decimal(n as int),
{
    let magnitude: u64 = if n < 0 {
        out.push('-');
        (-(n as i128)) as u64
    } else {
        n as u64
    };
    let ghost head = out@;
    // Digits below the leading one, least significant first.
    let mut low: Vec<char> = Vec::new();
    let mut m: u64 = magnitude;
    while m >= 10
        invariant
            decimal_nat(magnitude as nat) == decimal_nat(m as nat) + low@.reverse(),
        decreases m,
    {
        let d = digit_of(m % 10);
        proof {
            assert(low@.push(d).reverse() == seq![d] + low@.reverse());
            assert(decimal_nat(m as nat) == decimal_nat((m / 10) as nat).push(d));
            assert(decimal_nat((m / 10) as nat).push(d) + low@.reverse() == decimal_nat(
                (m / 10) as nat,
            ) + (seq![d] + low@.reverse()));
        }
        low.push(d);
        m = m / 10;
    }
    out.push(digit_of(m));
    let mut k: usize = low.len();
    while k > 0
        invariant
            k <= low.len(),
            m < 10,
            out@ == head + decimal_nat(m as nat) + low@.reverse().take(low.len() - k),
        decreases k,
    {
        k -= 1;
        proof {
            let rev = low@.reverse();
            let j = low.len() - k - 1;
            assert(rev.take(j + 1) == rev.take(j).push(rev[j]));
            assert(rev[j] == low@[k as int]);
        }
        out.push(low[k]);
    }
    proof {
        let rev = low@.reverse();
        assert(rev.take(low.len() as int) == rev);
        assert(head + decimal_nat(m as nat) + rev == head + (decimal_nat(m as nat) + rev));
    }
}

/// Whether `c` is one of the ten ASCII digits.
pub open spec fn is_digit(c: char) -> bool {
    '0' <= c <= '9'
}

/// The value of the ASCII digit `c`.
pub open spec fn digit_value(c: char) -> nat {
    (c as int - '0' as int) as nat
}

/// The number that the digits of `s` write in base ten (0 for the empty text).
pub open spec fn digits_value(s: Seq<char>) -> nat
    decreases s.len(),
{
    if s.len() == 0 {
        0
    } else {
        digits_value(s.drop_last()) * 10 + digit_value(s.last())
    }
}

/// Whether every character of `s` is an ASCII digit.
pub open spec fn all_digits(s: Seq<char>) -> bool {
    forall|i: int| 0 <= i < s.len() ==> is_digit(#[trigger] s[i])
}

/// The index that a text of digits writes: one or more ASCII digits whose
/// value fits the machine's index type. Anything else is no index.
pub open spec fn digits_index(body: Seq<char>) -> Option<nat> {
    if body.len() > 0 && all_digits(body) && digits_value(body) <= usize::MAX {
        Some(digits_value(body))
    } else {
        None
    }
}

/// The index that `s` writes: an optional `+`, then digits.
pub open spec fn parsed_index(s: Seq<char>) -> Option<nat> {
    if s.len() > 0 && s[0] == '+' {
        digits_index(s.drop_first())
    } else {
        digits_index(s)
    }
}

/// A text of digits is worth at least as much as any of its prefixes.
proof fn lemma_digits_value_prefix(s: Seq<char>, k: int)
    requires
        0 <= k <= s.len(),
    ensures
        digits_value(s.take(k)) <= digits_value(s),
    decreases s.len(),
{
    if k == s.len() {
        assert(s.take(k) == s);
    } else {
        lemma_digits_value_prefix(s.drop_last(), k);
        assert(s.drop_last().take(k) == s.take(k));
    }
}

/// Reads `chars[from..]` as an index.
pub fn parse_index(chars: &Vec<char>, from: usize) -> (r: Option<usize>)
    requires
        from <= chars.len(),
    ensures
        match parsed_index(chars@.subrange(from as int, chars.len() as int)) {
            Some(n) => r == Some(n as usize),
            None => r is None,
        },
{
    let ghost s = chars@.subrange(from as int, chars.len() as int);
    let start: usize = if from < chars.len() && chars[from] == '+' {
        from + 1
    } else {
        from
    };
    let ghost body = chars@.subrange(start as int, chars.len() as int);
    proof {
        if start == from {
            assert(body == s);
        } else {
            assert(body == s.drop_first());
        }
    }
    if start == chars.len() {
        return None;
    }
    let mut acc: usize = 0;
    let mut i: usize = start;
    while i < chars.len()
        invariant
            from <= start <= i <= chars.len(),
            start < chars.len(),
            body == chars@.subrange(start as int, chars.len() as int),
            parsed_index(chars@.subrange(from as int, chars.len() as int)) == digits_index(body),
            all_digits(body.take(i - start)),
            acc == digits_value(body.take(i - start)),
        decreases chars.len() - i,
    {
        let c = chars[i];
        let ghost prefix = body.take(i - start);
        let ghost next = body.take(i - start + 1);
        proof {
            assert(next.drop_last() == prefix);
            assert(next.last() == c);
            assert(body[i - start] == c);
        }
        if !(c >= '0' && c <= '9') {
            proof {
                assert(!is_digit(body[i - start]));
            }
            return None;
        }
        let d: usize = (c as u32 - '0' as u32) as usize;
        proof {
            assert(d == digit_value(c));
            assert(digits_value(next) == digits_value(prefix) * 10 + digit_value(c));
        }
        if acc > (usize::MAX - d) / 10 {
            proof {
                assert(acc * 10 + d > usize::MAX);
                lemma_digits_value_prefix(body, i - start + 1);
            }
            return None;
        }
        acc = acc * 10 + d;
        i += 1;
        proof {
            assert forall|j: int| 0 <= j < next.len() implies is_digit(#[trigger] next[j]) by {
                if j < prefix.len() {
                    assert(next[j] == prefix[j]);
                }
            }
        }
    }
    proof {
        assert(body.take(body.len() as int) == body);
    }
    Some(acc)
}

/// The position of the last `c` in `s`, or -1 where `s` holds none.
pub open spec fn last_position(s: Seq<char>, c: char) -> int
    decreases s.len(),
{
    if s.len() == 0 {
        -1
    } else if s.last() == c {
        s.len() - 1
    } else {
        last_position(s.drop_last(), c)
    }
}

/// Finds the last `c` in `chars`.
pub fn find_last(chars: &Vec<char>, c: char) -> (r: Option<usize>)
    ensures
        match r {
            Some(k) => k == last_position(chars@, c),
            None => last_position(chars@, c) == -1,
        },
{
    let mut i: usize = chars.len();
    proof {
        assert(chars@.take(i as int) == chars@);
    }
    while i > 0
        invariant
            i <= chars.len(),
            last_position(chars@, c) == last_position(chars@.take(i as int), c),
        decreases i,
    {
        proof {
            assert(chars@.take(i as int).drop_last() == chars@.take(i - 1));
            assert(chars@.take(i as int).last() == chars@[i - 1]);
        }
        i -= 1;
        if chars[i] == c {
            return Some(i);
        }
    }
    None
}

} // verus!
