//! Small verified helpers on strings: equality, decimal numbers, splitting
//! and padding. The rest of the crate states its contracts over `Seq<char>`
//! views, and these helpers are the executable counterparts.

use vstd::prelude::*;
use vstd::string::StrSliceExecFns;

verus! {

/// Compares two string slices by their character sequences.
pub fn str_eq_check(a: &str, b: &str) -> (r: bool)
    ensures
        r == (a@ == b@),
{
    let alen = a.unicode_len();
    let blen = b.unicode_len();
    if alen != blen {
        return false;
    }
    let mut i: usize = 0;
    while i < alen
        invariant
            i <= alen,
            alen == a@.len(),
            alen == b@.len(),
            forall|j: int| 0 <= j < i ==> a@[j] == b@[j],
        decreases alen - i,
    {
        if a.get_char(i) != b.get_char(i) {
            return false;
        }
        i = i + 1;
    }
    proof {
        assert(a@ =~= b@);
    }
    true
}

/// Relies on std's String::push: appends one character at the end of the
/// string.
#[verifier::external_body]
pub(crate) fn push_char(s: &mut String, c: char)
    ensures
        final(s)@ == old(s)@.push(c),
{
    s.push(c)
}

pub open spec fn is_digit_char(c: char) -> bool {
    48 <= c as u32 <= 57
}

pub open spec fn digit_val(c: char) -> nat {
    if is_digit_char(c) {
        (c as u32 - 48) as nat
    } else {
        0
    }
}

/// The value of a sequence of decimal digits, most significant first.
pub open spec fn digits_val(s: Seq<char>) -> nat
    decreases s.len(),
{
    if s.len() == 0 {
        0
    } else {
        digits_val(s.drop_last()) * 10 + digit_val(s.last())
    }
}

pub open spec fn all_digits(s: Seq<char>) -> bool {
    forall|i: int| 0 <= i < s.len() ==> is_digit_char(s[i])
}

/// The digit part of an unsigned decimal literal: everything after an
/// optional leading plus sign.
pub open spec fn uint_digits_of(s: Seq<char>) -> Seq<char> {
    if s.len() > 0 && s[0] == '+' {
        s.drop_first()
    } else {
        s
    }
}

pub open spec fn is_uint_str(s: Seq<char>) -> bool {
    uint_digits_of(s).len() > 0 && all_digits(uint_digits_of(s))
}

/// What `parse_usize` returns: the value of the digits when the text is a
/// well-formed unsigned decimal that fits in usize, and nothing otherwise.
pub open spec fn spec_parse_usize(s: Seq<char>) -> Option<usize> {
    if is_uint_str(s) && digits_val(uint_digits_of(s)) <= usize::MAX {
        Some(digits_val(uint_digits_of(s)) as usize)
    } else {
        None
    }
}

proof fn lemma_digits_val_take_mono(s: Seq<char>, i: int)
    requires
        0 <= i <= s.len(),
    ensures
        digits_val(s.take(i)) <= digits_val(s),
    decreases s.len() - i,
{
    if i == s.len() {
        assert(s.take(i) =~= s);
    } else {
        assert(s.take(i + 1).drop_last() =~= s.take(i));
        assert(s.take(i + 1).last() == s[i]);
        assert(digits_val(s.take(i)) * 10 >= digits_val(s.take(i)));
        lemma_digits_val_take_mono(s, i + 1);
    }
}

/// Parses an unsigned decimal integer, with an optional leading plus sign,
/// exactly as the contract's spec function describes: any other character,
/// an empty digit part, or a value over usize::MAX yields None.
pub fn parse_usize(s: &str) -> (r: Option<usize>)
    ensures
        r == spec_parse_usize(s@),
{
    let n = s.unicode_len();
    let mut start: usize = 0;
    if n > 0 && s.get_char(0) == '+' {
        start = 1;
    }
    proof {
        assert(uint_digits_of(s@) =~= s@.skip(start as int));
    }
    if start == n {
        return None;
    }
    let ghost d = uint_digits_of(s@);
    let mut acc: usize = 0;
    let mut i: usize = start;
    while i < n
        invariant
            start <= i <= n,
            n == s@.len(),
            d == s@.skip(start as int),
            d == uint_digits_of(s@),
            all_digits(s@.subrange(start as int, i as int)),
            acc == digits_val(s@.subrange(start as int, i as int)),
        decreases n - i,
    {
        let c = s.get_char(i);
        let cv = c as u32;
        proof {
            assert(d[i - start] == s@[i as int]);
        }
        if cv < 48 || cv > 57 {
            proof {
                assert(!is_digit_char(d[i - start]));
                assert(!all_digits(d));
            }
            return None;
        }
        let dv = (cv - 48) as usize;
        let ghost prefix = s@.subrange(start as int, i as int);
        let ghost prefix1 = s@.subrange(start as int, i + 1);
        proof {
            assert(prefix1.drop_last() =~= prefix);
            assert(prefix1.last() == s@[i as int]);
            assert(dv == digit_val(s@[i as int]));
            assert(digits_val(prefix1) == digits_val(prefix) * 10 + digit_val(s@[i as int]));
        }
        let next = match acc.checked_mul(10) {
            Some(p) => p.checked_add(dv),
            None => None,
        };
        match next {
            Some(v) => {
                acc = v;
            },
            None => {
                proof {
                    assert(digits_val(prefix1) > usize::MAX);
                    if all_digits(d) {
                        assert(prefix1 =~= d.take(i + 1 - start));
                        lemma_digits_val_take_mono(d, i + 1 - start);
                        assert(digits_val(d) > usize::MAX);
                    }
                }
                return None;
            },
        }
        i = i + 1;
    }
    proof {
        assert(s@.subrange(start as int, n as int) =~= d);
    }
    Some(acc)
}

pub open spec fn digit_to_char(d: nat) -> char {
    if d == 0 {
        '0'
    } else if d == 1 {
        '1'
    } else if d == 2 {
        '2'
    } else if d == 3 {
        '3'
    } else if d == 4 {
        '4'
    } else if d == 5 {
        '5'
    } else if d == 6 {
        '6'
    } else if d == 7 {
        '7'
    } else if d == 8 {
        '8'
    } else {
        '9'
    }
}

/// The decimal rendering of a natural number, without padding.
pub open spec fn nat_to_digits(n: nat) -> Seq<char>
    decreases n,
{
    if n < 10 {
        seq![digit_to_char(n)]
    } else {
        nat_to_digits(n / 10).push(digit_to_char(n % 10))
    }
}

fn digit_char(d: usize) -> (c: char)
    requires
        d < 10,
    ensures
        c == digit_to_char(d as nat),
{
    if d == 0 {
        '0'
    } else if d == 1 {
        '1'
    } else if d == 2 {
        '2'
    } else if d == 3 {
        '3'
    } else if d == 4 {
        '4'
    } else if d == 5 {
        '5'
    } else if d == 6 {
        '6'
    } else if d == 7 {
        '7'
    } else if d == 8 {
        '8'
    } else {
        '9'
    }
}

/// Renders a number in decimal; the mirror of `parse_usize` on digit
/// sequences.
pub fn usize_to_string(n: usize) -> (r: String)
    ensures
        r@ == nat_to_digits(n as nat),
    decreases n,
{
    if n < 10 {
        let mut s = String::new();
        push_char(&mut s, digit_char(n));
        s
    } else {
        let mut s = usize_to_string(n / 10);
        push_char(&mut s, digit_char(n % 10));
        s
    }
}

/// How `str::split` with a one-character separator divides a string: empty
/// pieces are kept, and an empty string is one empty piece.
pub open spec fn spec_split(s: Seq<char>, sep: char) -> Seq<Seq<char>>
    decreases s.len(),
{
    if s.len() == 0 {
        seq![Seq::<char>::empty()]
    } else if s[0] == sep {
        seq![Seq::<char>::empty()].add(spec_split(s.drop_first(), sep))
    } else {
        let rest = spec_split(s.drop_first(), sep);
        seq![seq![s[0]].add(rest[0])].add(rest.drop_first())
    }
}

pub proof fn lemma_split_len(s: Seq<char>, sep: char)
    ensures
        spec_split(s, sep).len() >= 1,
    decreases s.len(),
{
    if s.len() > 0 {
        lemma_split_len(s.drop_first(), sep);
    }
}

proof fn lemma_split_push_sep(s: Seq<char>, sep: char)
    ensures
        spec_split(s.push(sep), sep) == spec_split(s, sep).push(Seq::<char>::empty()),
    decreases s.len(),
{
    let p = s.push(sep);
    if s.len() == 0 {
        assert(p.drop_first() =~= Seq::<char>::empty());
        assert(p[0] == sep);
        assert(spec_split(p.drop_first(), sep) =~~= seq![Seq::<char>::empty()]);
        assert(spec_split(p, sep) =~~= spec_split(s, sep).push(Seq::<char>::empty()));
    } else {
        assert(p.drop_first() =~= s.drop_first().push(sep));
        lemma_split_push_sep(s.drop_first(), sep);
        lemma_split_len(s.drop_first(), sep);
        let r = spec_split(s.drop_first(), sep);
        let r1 = spec_split(s.drop_first().push(sep), sep);
        assert(r1 == r.push(Seq::<char>::empty()));
        if s[0] == sep {
            assert(spec_split(p, sep) =~~= spec_split(s, sep).push(Seq::<char>::empty()));
        } else {
            assert(p[0] == s[0]);
            assert(r1[0] == r[0]);
            assert(r1.drop_first() =~~= r.drop_first().push(Seq::<char>::empty()));
            assert(spec_split(p, sep) =~~= spec_split(s, sep).push(Seq::<char>::empty()));
        }
    }
}

proof fn lemma_split_push_char(s: Seq<char>, sep: char, c: char)
    requires
        c != sep,
    ensures
        spec_split(s.push(c), sep) == spec_split(s, sep).update(
            spec_split(s, sep).len() - 1,
            spec_split(s, sep).last().push(c),
        ),
    decreases s.len(),
{
    let p = s.push(c);
    lemma_split_len(s, sep);
    if s.len() == 0 {
        assert(p.drop_first() =~= Seq::<char>::empty());
        assert(p[0] == c);
        assert(spec_split(p.drop_first(), sep) =~~= seq![Seq::<char>::empty()]);
        assert(seq![p[0]].add(Seq::<char>::empty()) =~= seq![c]);
        assert(spec_split(p, sep) =~~= spec_split(s, sep).update(
            spec_split(s, sep).len() - 1,
            spec_split(s, sep).last().push(c),
        ));
    } else {
        assert(p.drop_first() =~= s.drop_first().push(c));
        lemma_split_push_char(s.drop_first(), sep, c);
        lemma_split_len(s.drop_first(), sep);
        let r = spec_split(s.drop_first(), sep);
        let r1 = spec_split(s.drop_first().push(c), sep);
        assert(r1 == r.update(r.len() - 1, r.last().push(c)));
        if s[0] == sep {
            assert(spec_split(p, sep) =~~= spec_split(s, sep).update(
                spec_split(s, sep).len() - 1,
                spec_split(s, sep).last().push(c),
            ));
        } else {
            assert(p[0] == s[0]);
            if r.len() == 1 {
                assert(r1[0] == r[0].push(c));
                assert(spec_split(p, sep) =~~= spec_split(s, sep).update(
                    spec_split(s, sep).len() - 1,
                    spec_split(s, sep).last().push(c),
                ));
            } else {
                assert(r1[0] == r[0]);
                assert(r1.drop_first() =~~= r.drop_first().update(
                    r.drop_first().len() - 1,
                    r.drop_first().last().push(c),
                ));
                assert(spec_split(p, sep) =~~= spec_split(s, sep).update(
                    spec_split(s, sep).len() - 1,
                    spec_split(s, sep).last().push(c),
                ));
            }
        }
    }
}

/// Splits a string on a separator character, keeping empty pieces, exactly
/// as `spec_split` describes.
pub fn split_char(s: &str, sep: char) -> (r: Vec<String>)
    ensures
        r@.map_values(|p: String| p@) == spec_split(s@, sep),
{
    let n = s.unicode_len();
    let mut pieces: Vec<String> = Vec::new();
    let mut cur: String = String::new();
    let mut i: usize = 0;
    while i < n
        invariant
            i <= n,
            n == s@.len(),
            pieces@.map_values(|p: String| p@).push(cur@) == spec_split(s@.take(i as int), sep),
        decreases n - i,
    {
        let c = s.get_char(i);
        let ghost prefix = s@.take(i as int);
        let ghost prefix1 = s@.take(i + 1);
        proof {
            assert(prefix1 =~= prefix.push(s@[i as int]));
            lemma_split_len(prefix, sep);
        }
        if c == sep {
            proof {
                lemma_split_push_sep(prefix, sep);
            }
            let finished = cur;
            cur = String::new();
            pieces.push(finished);
            proof {
                assert(pieces@.map_values(|p: String| p@).push(cur@) =~~= spec_split(
                    prefix1,
                    sep,
                ));
            }
        } else {
            proof {
                lemma_split_push_char(prefix, sep, c);
            }
            push_char(&mut cur, c);
            proof {
                assert(pieces@.map_values(|p: String| p@).push(cur@) =~~= spec_split(
                    prefix1,
                    sep,
                ));
            }
        }
        i = i + 1;
    }
    proof {
        assert(s@.take(n as int) =~= s@);
    }
    pieces.push(cur);
    proof {
        assert(pieces@.map_values(|p: String| p@) =~~= spec_split(s@, sep));
    }
    pieces
}

/// What follows the first occurrence of a character, if the character
/// occurs at all: the tail of `str::split_once`.
pub open spec fn spec_after_first(s: Seq<char>, c: char) -> Option<Seq<char>>
    decreases s.len(),
{
    if s.len() == 0 {
        None
    } else if s[0] == c {
        Some(s.drop_first())
    } else {
        spec_after_first(s.drop_first(), c)
    }
}

/// Returns the part of the string after the first occurrence of `c`, or
/// None when `c` does not occur.
pub fn after_first_char<'a>(s: &'a str, c: char) -> (r: Option<&'a str>)
    ensures
        match r {
            Some(t) => spec_after_first(s@, c) == Some(t@),
            None => spec_after_first(s@, c) is None,
        },
{
    let n = s.unicode_len();
    let mut i: usize = 0;
    proof {
        assert(s@.skip(0) =~= s@);
    }
    while i < n
        invariant
            i <= n,
            n == s@.len(),
            spec_after_first(s@, c) == spec_after_first(s@.skip(i as int), c),
        decreases n - i,
    {
        let ch = s.get_char(i);
        proof {
            assert(s@.skip(i as int)[0] == s@[i as int]);
        }
        if ch == c {
            let t = s.substring_char(i + 1, n);
            proof {
                assert(s@.skip(i as int).drop_first() =~= s@.subrange(i + 1, n as int));
            }
            return Some(t);
        }
        proof {
            assert(s@.skip(i as int).drop_first() =~= s@.skip(i + 1));
        }
        i = i + 1;
    }
    proof {
        assert(s@.skip(n as int).len() == 0);
    }
    None
}

/// How `str::split_once` divides a string around the first occurrence of a
/// multi-character separator.
pub open spec fn spec_split_once_at(s: Seq<char>, sep: Seq<char>) -> Option<(Seq<char>, Seq<char>)>
    decreases s.len(),
{
    if s.len() < sep.len() {
        None
    } else if s.take(sep.len() as int) == sep {
        Some((Seq::<char>::empty(), s.skip(sep.len() as int)))
    } else if s.len() == 0 {
        None
    } else {
        match spec_split_once_at(s.drop_first(), sep) {
            Some(p) => Some((seq![s[0]].add(p.0), p.1)),
            None => None,
        }
    }
}

proof fn lemma_split_once_step(s: Seq<char>, sep: Seq<char>)
    requires
        s.len() >= 1,
        s.len() < sep.len() || s.take(sep.len() as int) != sep,
    ensures
        spec_split_once_at(s, sep) == (match spec_split_once_at(s.drop_first(), sep) {
            Some(p) => Some((seq![s[0]].add(p.0), p.1)),
            None => None::<(Seq<char>, Seq<char>)>,
        }),
{
    if s.len() < sep.len() {
        assert(s.drop_first().len() < sep.len());
    }
}

/// Splits a string around the first occurrence of `sep`, as
/// `spec_split_once_at` describes; None when `sep` does not occur.
pub fn split_once_str<'a>(s: &'a str, sep: &str) -> (r: Option<(&'a str, &'a str)>)
    requires
        sep@.len() >= 1,
    ensures
        match r {
            Some(p) => spec_split_once_at(s@, sep@) == Some((p.0@, p.1@)),
            None => spec_split_once_at(s@, sep@) is None,
        },
{
    let n = s.unicode_len();
    let m = sep.unicode_len();
    let mut i: usize = 0;
    proof {
        assert(s@.skip(0) =~= s@);
        assert(s@.take(0) =~= Seq::<char>::empty());
        if spec_split_once_at(s@, sep@) is Some {
            let p = spec_split_once_at(s@, sep@)->0;
            assert(s@.take(0).add(p.0) =~= p.0);
        }
    }
    while m <= n - i
        invariant
            i <= n,
            n == s@.len(),
            m == sep@.len(),
            m >= 1,
            spec_split_once_at(s@, sep@) == (match spec_split_once_at(s@.skip(i as int), sep@) {
                Some(p) => Some((s@.take(i as int).add(p.0), p.1)),
                None => None::<(Seq<char>, Seq<char>)>,
            }),
        decreases n - i,
    {
        let window = s.substring_char(i, i + m);
        let ghost tail = s@.skip(i as int);
        proof {
            assert(window@ =~= tail.take(m as int));
        }
        if str_eq_check(window, sep) {
            let left = s.substring_char(0, i);
            let right = s.substring_char(i + m, n);
            proof {
                assert(tail.skip(m as int) =~= s@.subrange(i + m, n as int));
                assert(left@ =~= s@.take(i as int));
                assert(s@.take(i as int).add(Seq::<char>::empty()) =~= s@.take(i as int));
            }
            return Some((left, right));
        }
        proof {
            lemma_split_once_step(tail, sep@);
            assert(tail.drop_first() =~= s@.skip(i + 1));
            assert(tail[0] == s@[i as int]);
            if spec_split_once_at(s@.skip(i + 1), sep@) is Some {
                let p = spec_split_once_at(s@.skip(i + 1), sep@)->0;
                assert(s@.take(i as int).add(seq![s@[i as int]].add(p.0)) =~= s@.take(i + 1).add(
                    p.0,
                ));
            }
        }
        i = i + 1;
    }
    proof {
        assert(s@.skip(i as int).len() < m);
    }
    None
}

pub open spec fn spec_starts_with(s: Seq<char>, p: Seq<char>) -> bool {
    s.len() >= p.len() && s.take(p.len() as int) == p
}

/// Whether `s` begins with the prefix `p`.
pub fn starts_with_check(s: &str, p: &str) -> (r: bool)
    ensures
        r == spec_starts_with(s@, p@),
{
    let n = s.unicode_len();
    let m = p.unicode_len();
    if n < m {
        return false;
    }
    let head = s.substring_char(0, m);
    proof {
        assert(head@ =~= s@.take(m as int));
    }
    str_eq_check(head, p)
}

/// A string padded on the left with `c` up to width `w`; a string already
/// that wide is unchanged.
pub open spec fn spec_pad_left(s: Seq<char>, c: char, w: nat) -> Seq<char> {
    if s.len() >= w {
        s
    } else {
        Seq::new((w - s.len()) as nat, |i| c).add(s)
    }
}

/// Left-pads a string with a fill character up to the given width.
pub fn pad_left(s: &str, c: char, w: usize) -> (r: String)
    ensures
        r@ == spec_pad_left(s@, c, w as nat),
{
    let n = s.unicode_len();
    let mut out = String::new();
    if n < w {
        let mut j: usize = 0;
        while j < w - n
            invariant
                n < w,
                n == s@.len(),
                j <= w - n,
                out@ =~= Seq::new(j as nat, |i| c),
            decreases w - n - j,
        {
            push_char(&mut out, c);
            proof {
                assert(out@ =~= Seq::new((j + 1) as nat, |i| c));
            }
            j = j + 1;
        }
    }
    out.append(s);
    proof {
        assert(out@ =~= spec_pad_left(s@, c, w as nat));
    }
    out
}

} // verus!
