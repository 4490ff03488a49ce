//! Character-sequence utilities shared by the library: decimal rendering,
//! substring search, replacement and splitting, each with its specification.

use vstd::prelude::*;
use vstd::utf8::encode_utf8;

verus! {

/// `String::push` appends one character at the end of the string
/// (std documentation: "Appends the given char to the end of this String").
pub assume_specification[ String::push ](s: &mut String, ch: char)
    ensures
        final(s)@ == old(s)@.push(ch),
;

/// The characters of a string, in order.
pub fn chars_of(s: &str) -> (r: Vec<char>)
    ensures
        r@ == s@,
{
    let n = s.unicode_len();
    let mut r: Vec<char> = Vec::new();
    let mut i: usize = 0;
    while i < n
        invariant
            n == s@.len(),
            i <= n,
            r@ == s@.subrange(0, i as int),
        decreases n - i,
    {
        let c = s.get_char(i);
        r.push(c);
        i = i + 1;
    }
    r
}

/// Appends the given characters to a string.
pub fn push_chars(s: &mut String, v: &Vec<char>)
    ensures
        final(s)@ == old(s)@ + v@,
{
    let mut i: usize = 0;
    while i < v.len()
        invariant
            i <= v.len(),
            s@ == old(s)@ + v@.subrange(0, i as int),
        decreases v.len() - i,
    {
        s.push(v[i]);
        i = i + 1;
    }
}

/// A string holding exactly the given characters.
pub fn string_of(v: &Vec<char>) -> (s: String)
    ensures
        s@ == v@,
{
    let mut s = String::new();
    push_chars(&mut s, v);
    s
}

/// The decimal digit character for a value below ten.
pub open spec fn digit_char(d: nat) -> char {
    if d == 0 { '0' }
    else if d == 1 { '1' }
    else if d == 2 { '2' }
    else if d == 3 { '3' }
    else if d == 4 { '4' }
    else if d == 5 { '5' }
    else if d == 6 { '6' }
    else if d == 7 { '7' }
    else if d == 8 { '8' }
    else { '9' }
}

/// Decimal rendering of a natural number, without leading zeros.
pub open spec fn dec(n: nat) -> Seq<char>
    decreases n,
{
    if n < 10 {
        seq![digit_char(n)]
    } else {
        dec(n / 10).push(digit_char(n % 10))
    }
}

/// Decimal rendering left-padded with zeros to at least `width` characters.
pub open spec fn dec_padded(n: nat, width: nat) -> Seq<char> {
    let d = dec(n);
    if d.len() >= width {
        d
    } else {
        Seq::new((width - d.len()) as nat, |i: int| '0') + d
    }
}

fn digit(d: u128) -> (c: char)
    requires
        d < 10,
    ensures
        c == digit_char(d as nat),
{
    if d == 0 { '0' }
    else if d == 1 { '1' }
    else if d == 2 { '2' }
    else if d == 3 { '3' }
    else if d == 4 { '4' }
    else if d == 5 { '5' }
    else if d == 6 { '6' }
    else if d == 7 { '7' }
    else if d == 8 { '8' }
    else { '9' }
}

/// Appends the decimal rendering of `n`.
pub fn push_dec(s: &mut String, n: u128)
    ensures
        final(s)@ == old(s)@ + dec(n as nat),
    decreases n,
{
    if n >= 10 {
        push_dec(s, n / 10);
    }
    let c = digit(n % 10);
    s.push(c);
    proof {
        if n >= 10 {
            assert(dec(n as nat) == dec((n / 10) as nat).push(digit_char((n % 10) as nat)));
        } else {
            assert(dec(n as nat) == seq![digit_char(n as nat)]);
        }
    }
}

pub proof fn lemma_dec_len_pos(n: nat)
    ensures
        dec(n).len() >= 1,
    decreases n,
{
    if n >= 10 {
        lemma_dec_len_pos(n / 10);
    }
}

/// Appends the decimal rendering of `n`, zero-padded to `width` characters.
pub fn push_dec_padded(s: &mut String, n: u128, width: usize)
    ensures
        final(s)@ == old(s)@ + dec_padded(n as nat, width as nat),
{
    let mut d = String::new();
    push_dec(&mut d, n);
    let dv = chars_of(d.as_str());
    if dv.len() < width {
        let pad = width - dv.len();
        let mut i: usize = 0;
        let ghost start = s@;
        while i < pad
            invariant
                i <= pad,
                s@ == start + Seq::new(i as nat, |k: int| '0'),
            decreases pad - i,
        {
            s.push('0');
            i = i + 1;
            assert(s@ =~= start + Seq::new(i as nat, |k: int| '0'));
        }
    }
    push_chars(s, &dv);
    assert(s@ =~= old(s)@ + dec_padded(n as nat, width as nat));
}

/// A character of a rendered number: a decimal digit or a sign.
pub open spec fn is_number_char(c: char) -> bool {
    ('0' <= c && c <= '9') || c == '+' || c == '-'
}

/// Every character of `s` belongs to a rendered number.
pub open spec fn all_number_chars(s: Seq<char>) -> bool {
    forall|i: int| 0 <= i < s.len() ==> is_number_char(#[trigger] s[i])
}

/// Decimal renderings, padded or not, are made of digits and are not empty.
pub proof fn lemma_dec_number_chars(n: nat, width: nat)
    ensures
        all_number_chars(dec(n)),
        all_number_chars(dec_padded(n, width)),
        dec_padded(n, width).len() >= 1,
    decreases n,
{
    if n >= 10 {
        lemma_dec_number_chars(n / 10, width);
        assert(all_number_chars(dec(n))) by {
            let d = dec(n / 10);
            assert(dec(n) == d.push(digit_char(n % 10)));
            assert forall|i: int| 0 <= i < dec(n).len() implies is_number_char(#[trigger] dec(n)[i]) by {
                if i < d.len() {
                    assert(dec(n)[i] == d[i]);
                }
            }
        }
    }
    lemma_dec_len_pos(n);
    let d = dec(n);
    if d.len() < width {
        let z = Seq::new((width - d.len()) as nat, |i: int| '0');
        assert(dec_padded(n, width) == z + d);
        assert forall|i: int| 0 <= i < dec_padded(n, width).len() implies is_number_char(#[trigger] dec_padded(n, width)[i]) by {
            if i >= z.len() {
                assert(dec_padded(n, width)[i] == d[i - z.len()]);
            }
        }
    }
}

/// A text made of number characters shares no character with a pattern
/// that has none.
pub proof fn lemma_number_text_shares_no_char(rep: Seq<char>, pat: Seq<char>)
    requires
        all_number_chars(rep),
        forall|j: int| 0 <= j < pat.len() ==> !is_number_char(#[trigger] pat[j]),
    ensures
        shares_no_char(rep, pat),
{
    assert forall|i: int| 0 <= i < rep.len() implies !pat.contains(#[trigger] rep[i]) by {
        if pat.contains(rep[i]) {
            let j = choose|j: int| 0 <= j < pat.len() && pat[j] == rep[i];
            assert(is_number_char(rep[i]));
        }
    }
}

/// `pat` occurs in `s` starting at position `i`.
pub open spec fn occurs_at(s: Seq<char>, pat: Seq<char>, i: int) -> bool {
    0 <= i && i + pat.len() <= s.len() && s.subrange(i, i + pat.len()) == pat
}

/// `pat` occurs somewhere in `s` (as `str::contains` decides).
pub open spec fn contains_seq(s: Seq<char>, pat: Seq<char>) -> bool {
    exists|i: int| occurs_at(s, pat, i)
}

/// Whether `pat` occurs in `s` at position `i`.
pub fn occurs_at_exec(s: &Vec<char>, pat: &Vec<char>, i: usize) -> (r: bool)
    ensures
        r == occurs_at(s@, pat@, i as int),
{
    if i > s.len() || pat.len() > s.len() - i {
        return false;
    }
    let mut k: usize = 0;
    while k < pat.len()
        invariant
            i + pat.len() <= s.len(),
            k <= pat.len(),
            forall|j: int| 0 <= j < k ==> s@[i + j] == pat@[j],
        decreases pat.len() - k,
    {
        if s[i + k] != pat[k] {
            assert(s@.subrange(i as int, i + pat.len())[k as int] != pat@[k as int]);
            return false;
        }
        k = k + 1;
    }
    assert(s@.subrange(i as int, i + pat.len()) =~= pat@);
    true
}

/// Whether `pat` occurs in `s`.
pub fn contains_exec(s: &Vec<char>, pat: &Vec<char>) -> (r: bool)
    ensures
        r == contains_seq(s@, pat@),
{
    let mut i: usize = 0;
    while i < s.len()
        invariant
            i <= s.len(),
            forall|j: int| 0 <= j < i ==> !occurs_at(s@, pat@, j),
        decreases s.len() - i,
    {
        if occurs_at_exec(s, pat, i) {
            return true;
        }
        i = i + 1;
    }
    occurs_at_exec(s, pat, i)
}

/// Whether the character `c` occurs in `s`.
pub fn has_char(s: &Vec<char>, c: char) -> (r: bool)
    ensures
        r == s@.contains(c),
{
    let mut i: usize = 0;
    while i < s.len()
        invariant
            i <= s.len(),
            forall|j: int| 0 <= j < i ==> s@[j] != c,
        decreases s.len() - i,
    {
        if s[i] == c {
            return true;
        }
        i = i + 1;
    }
    false
}

/// Replaces every non-overlapping occurrence of `pat`, scanning from the
/// left, by `rep` (the behaviour of `str::replace` for a non-empty pattern).
pub open spec fn replace_all(s: Seq<char>, pat: Seq<char>, rep: Seq<char>) -> Seq<char>
    decreases s.len(),
{
    if pat.len() == 0 || s.len() == 0 {
        s
    } else if occurs_at(s, pat, 0) {
        rep + replace_all(s.subrange(pat.len() as int, s.len() as int), pat, rep)
    } else {
        seq![s[0]] + replace_all(s.drop_first(), pat, rep)
    }
}

/// No character of `rep` occurs in `pat`.
pub open spec fn shares_no_char(rep: Seq<char>, pat: Seq<char>) -> bool {
    forall|i: int| 0 <= i < rep.len() ==> !pat.contains(#[trigger] rep[i])
}

/// While the output of a replacement shows only characters of `p`, and
/// `rep` has none of them, it is still the input unchanged (a replacement
/// would show a character of `rep`).
proof fn lemma_replace_all_prefix(t: Seq<char>, pat: Seq<char>, rep: Seq<char>, p: Seq<char>, k: int)
    requires
        pat.len() > 0,
        rep.len() > 0,
        shares_no_char(rep, p),
        0 <= k <= replace_all(t, pat, rep).len(),
        forall|j: int| 0 <= j < k ==> p.contains(#[trigger] replace_all(t, pat, rep)[j]),
    ensures
        k <= t.len(),
        replace_all(t, pat, rep).subrange(0, k) == t.subrange(0, k),
    decreases t.len(),
{
    let r = replace_all(t, pat, rep);
    if k == 0 {
        assert(r.subrange(0, 0) =~= t.subrange(0, 0));
    } else if t.len() == 0 {
    } else if occurs_at(t, pat, 0) {
        assert(r[0] == rep[0]);
        assert(p.contains(r[0]));
        assert(!p.contains(rep[0]));
    } else {
        let t2 = t.drop_first();
        let r2 = replace_all(t2, pat, rep);
        assert(r == seq![t[0]] + r2);
        assert forall|j: int| 0 <= j < k - 1 implies p.contains(#[trigger] r2[j]) by {
            assert(r[j + 1] == r2[j]);
        }
        lemma_replace_all_prefix(t2, pat, rep, p, k - 1);
        assert(r.subrange(0, k) =~= seq![t[0]] + r2.subrange(0, k - 1));
        assert(t.subrange(0, k) =~= seq![t[0]] + t2.subrange(0, k - 1));
    }
}

/// A text without `p` keeps none after another pattern is replaced by a
/// non-empty text that has no character of `p`.
#[verifier::rlimit(40)]
pub proof fn law_replace_all_creates_no_pattern(s: Seq<char>, q: Seq<char>, rep: Seq<char>, p: Seq<char>)
    requires
        q.len() > 0,
        p.len() > 0,
        rep.len() > 0,
        shares_no_char(rep, p),
        !contains_seq(s, p),
    ensures
        !contains_seq(replace_all(s, q, rep), p),
    decreases s.len(),
{
    let r = replace_all(s, q, rep);
    if s.len() == 0 {
        assert forall|i: int| !occurs_at(r, p, i) by {}
    } else if occurs_at(s, q, 0) {
        let rest = s.subrange(q.len() as int, s.len() as int);
        let r2 = replace_all(rest, q, rep);
        assert forall|i: int| !occurs_at(rest, p, i) by {
            if occurs_at(rest, p, i) {
                assert(rest.subrange(i, i + p.len()) =~= s.subrange(i + q.len(), i + q.len() + p.len()));
                assert(occurs_at(s, p, i + q.len()));
            }
        }
        law_replace_all_creates_no_pattern(rest, q, rep, p);
        assert(r == rep + r2);
        assert forall|i: int| !occurs_at(r, p, i) by {
            if occurs_at(r, p, i) {
                if i < rep.len() {
                    assert(r.subrange(i, i + p.len())[0] == p[0]);
                    assert(r[i] == rep[i]);
                    assert(p.contains(p[0]));
                } else {
                    assert(r.subrange(i, i + p.len()) =~= r2.subrange(i - rep.len(), i - rep.len() + p.len()));
                    assert(occurs_at(r2, p, i - rep.len()));
                }
            }
        }
    } else {
        let t = s.drop_first();
        let r2 = replace_all(t, q, rep);
        assert forall|i: int| !occurs_at(t, p, i) by {
            if occurs_at(t, p, i) {
                assert(t.subrange(i, i + p.len()) =~= s.subrange(i + 1, i + 1 + p.len()));
                assert(occurs_at(s, p, i + 1));
            }
        }
        law_replace_all_creates_no_pattern(t, q, rep, p);
        assert(r == seq![s[0]] + r2);
        assert forall|i: int| !occurs_at(r, p, i) by {
            if occurs_at(r, p, i) {
                if i >= 1 {
                    assert(r.subrange(i, i + p.len()) =~= r2.subrange(i - 1, i - 1 + p.len()));
                    assert(occurs_at(r2, p, i - 1));
                } else {
                    let k = p.len() - 1;
                    assert forall|j: int| 0 <= j < k implies p.contains(#[trigger] r2[j]) by {
                        assert(r.subrange(0, p.len() as int)[j + 1] == p[j + 1]);
                        assert(r[j + 1] == r2[j]);
                        assert(p.contains(p[j + 1]));
                    }
                    lemma_replace_all_prefix(t, q, rep, p, k);
                    assert(s.subrange(0, p.len() as int) =~= seq![s[0]] + t.subrange(0, k));
                    assert(r.subrange(0, p.len() as int) =~= seq![s[0]] + r2.subrange(0, k));
                    assert(occurs_at(s, p, 0));
                }
            }
        }
    }
}

/// Replacing every occurrence leaves none: when `rep` is not empty and has
/// no character of `pat`, the result of `replace_all` holds no occurrence
/// of `pat` (so no tag survives its substitution, however often it occurs).
pub proof fn law_replace_all_leaves_no_pattern(s: Seq<char>, pat: Seq<char>, rep: Seq<char>)
    requires
        pat.len() > 0,
        rep.len() > 0,
        shares_no_char(rep, pat),
    ensures
        !contains_seq(replace_all(s, pat, rep), pat),
    decreases s.len(),
{
    let r = replace_all(s, pat, rep);
    if s.len() == 0 {
        assert forall|i: int| !occurs_at(r, pat, i) by {}
    } else if occurs_at(s, pat, 0) {
        let rest = s.subrange(pat.len() as int, s.len() as int);
        let r2 = replace_all(rest, pat, rep);
        law_replace_all_leaves_no_pattern(rest, pat, rep);
        assert(r == rep + r2);
        assert forall|i: int| !occurs_at(r, pat, i) by {
            if occurs_at(r, pat, i) {
                if i < rep.len() {
                    assert(r.subrange(i, i + pat.len())[0] == pat[0]);
                    assert(r[i] == rep[i]);
                    assert(pat.contains(pat[0]));
                } else {
                    assert(r.subrange(i, i + pat.len()) =~= r2.subrange(i - rep.len(), i - rep.len() + pat.len()));
                    assert(occurs_at(r2, pat, i - rep.len()));
                }
            }
        }
    } else {
        let t = s.drop_first();
        let r2 = replace_all(t, pat, rep);
        law_replace_all_leaves_no_pattern(t, pat, rep);
        assert(r == seq![s[0]] + r2);
        assert forall|i: int| !occurs_at(r, pat, i) by {
            if occurs_at(r, pat, i) {
                if i >= 1 {
                    assert(r.subrange(i, i + pat.len()) =~= r2.subrange(i - 1, i - 1 + pat.len()));
                    assert(occurs_at(r2, pat, i - 1));
                } else {
                    let k = pat.len() - 1;
                    assert forall|j: int| 0 <= j < k implies pat.contains(#[trigger] r2[j]) by {
                        assert(r.subrange(0, pat.len() as int)[j + 1] == pat[j + 1]);
                        assert(r[j + 1] == r2[j]);
                        assert(pat.contains(pat[j + 1]));
                    }
                    lemma_replace_all_prefix(t, pat, rep, pat, k);
                    assert(s.subrange(0, pat.len() as int) =~= seq![s[0]] + t.subrange(0, k));
                    assert(r.subrange(0, pat.len() as int) =~= seq![s[0]] + r2.subrange(0, k));
                    assert(occurs_at(s, pat, 0));
                }
            }
        }
    }
}

/// Replaces every occurrence of `pat` in `s` by `rep`.
pub fn replace_all_exec(s: &Vec<char>, pat: &Vec<char>, rep: &Vec<char>) -> (r: Vec<char>)
    requires
        pat.len() > 0,
    ensures
        r@ == replace_all(s@, pat@, rep@),
{
    let mut r: Vec<char> = Vec::new();
    let mut i: usize = 0;
    assert(s@.subrange(0, s.len() as int) =~= s@);
    while i < s.len()
        invariant
            pat.len() > 0,
            i <= s.len(),
            r@ + replace_all(s@.subrange(i as int, s.len() as int), pat@, rep@)
                == replace_all(s@, pat@, rep@),
        decreases s.len() - i,
    {
        let ghost rest = s@.subrange(i as int, s.len() as int);
        if occurs_at_exec(s, pat, i) {
            assert(occurs_at(rest, pat@, 0)) by {
                assert(rest.subrange(0, pat.len() as int) =~= s@.subrange(i as int, i + pat.len()));
            }
            assert(rest.subrange(pat.len() as int, rest.len() as int)
                =~= s@.subrange(i + pat.len(), s.len() as int));
            let mut k: usize = 0;
            let ghost r0 = r@;
            while k < rep.len()
                invariant
                    k <= rep.len(),
                    r@ == r0 + rep@.subrange(0, k as int),
                decreases rep.len() - k,
            {
                r.push(rep[k]);
                k = k + 1;
            }
            assert(r@ =~= r0 + rep@);
            assert(r0 + replace_all(rest, pat@, rep@) == r0 + (rep@ + replace_all(
                s@.subrange(i + pat.len(), s.len() as int), pat@, rep@)));
            assert(r@ + replace_all(s@.subrange(i + pat.len(), s.len() as int), pat@, rep@)
                =~= r0 + (rep@ + replace_all(s@.subrange(i + pat.len(), s.len() as int), pat@, rep@)));
            i = i + pat.len();
        } else {
            assert(!occurs_at(rest, pat@, 0)) by {
                if occurs_at(rest, pat@, 0) {
                    assert(rest.subrange(0, pat.len() as int) =~= s@.subrange(i as int, i + pat.len()));
                }
            }
            assert(rest.drop_first() =~= s@.subrange(i + 1, s.len() as int));
            let ghost r0 = r@;
            r.push(s[i]);
            assert(r@ + replace_all(s@.subrange(i + 1, s.len() as int), pat@, rep@)
                =~= r0 + (seq![rest[0]] + replace_all(rest.drop_first(), pat@, rep@)));
            i = i + 1;
        }
    }
    assert(s@.subrange(i as int, s.len() as int) =~= Seq::<char>::empty());
    assert(r@ + Seq::<char>::empty() =~= r@);
    r
}

/// `c` separates path segments: `/`, and also `\` when `backslash` is set.
pub open spec fn is_sep(c: char, backslash: bool) -> bool {
    c == '/' || (backslash && c == '\\')
}

/// The segments of `s` between separators, as `str::split` yields them
/// (always at least one segment; adjacent separators give empty segments).
pub open spec fn split_on(s: Seq<char>, backslash: bool) -> Seq<Seq<char>>
    decreases s.len(),
{
    if s.len() == 0 {
        seq![Seq::<char>::empty()]
    } else {
        let init = split_on(s.drop_last(), backslash);
        if is_sep(s.last(), backslash) {
            init.push(Seq::<char>::empty())
        } else {
            init.update(init.len() - 1, init.last().push(s.last()))
        }
    }
}

pub proof fn lemma_split_on_nonempty(s: Seq<char>, backslash: bool)
    ensures
        split_on(s, backslash).len() >= 1,
    decreases s.len(),
{
    if s.len() > 0 {
        lemma_split_on_nonempty(s.drop_last(), backslash);
    }
}

/// No segment of a split holds a separator.
pub proof fn lemma_split_on_segments_have_no_sep(s: Seq<char>, backslash: bool)
    ensures
        forall|k: int, j: int|
            0 <= k < split_on(s, backslash).len() && 0 <= j < split_on(s, backslash)[k].len()
                ==> !is_sep(#[trigger] split_on(s, backslash)[k][j], backslash),
    decreases s.len(),
{
    if s.len() > 0 {
        lemma_split_on_segments_have_no_sep(s.drop_last(), backslash);
        lemma_split_on_nonempty(s.drop_last(), backslash);
    }
}

/// Every character of a segment is a character of the split string.
pub proof fn lemma_split_on_chars_from_source(s: Seq<char>, backslash: bool)
    ensures
        forall|k: int, j: int|
            0 <= k < split_on(s, backslash).len() && 0 <= j < split_on(s, backslash)[k].len()
                ==> s.contains(#[trigger] split_on(s, backslash)[k][j]),
    decreases s.len(),
{
    if s.len() > 0 {
        lemma_split_on_chars_from_source(s.drop_last(), backslash);
        lemma_split_on_nonempty(s.drop_last(), backslash);
        let init = split_on(s.drop_last(), backslash);
        assert forall|k: int, j: int|
            0 <= k < split_on(s, backslash).len() && 0 <= j < split_on(s, backslash)[k].len()
                implies s.contains(#[trigger] split_on(s, backslash)[k][j]) by {
            let c = split_on(s, backslash)[k][j];
            if k < init.len() - 1 || (k == init.len() - 1 && j < init[k].len()) {
                assert(init[k][j] == c);
                assert(s.drop_last().contains(c));
                let w = choose|w: int| 0 <= w < s.drop_last().len() && s.drop_last()[w] == c;
                assert(s[w] == c);
            } else {
                assert(c == s.last());
                assert(s[s.len() - 1] == c);
            }
        }
    }
}

/// Splits `s` at separators (`/`, and `\` when `backslash` is set).
pub fn split_exec(s: &Vec<char>, backslash: bool) -> (r: Vec<Vec<char>>)
    ensures
        r.len() == split_on(s@, backslash).len(),
        forall|k: int| 0 <= k < r.len() ==> #[trigger] r[k]@ == split_on(s@, backslash)[k],
{
    let mut done: Vec<Vec<char>> = Vec::new();
    let mut cur: Vec<char> = Vec::new();
    let mut i: usize = 0;
    while i < s.len()
        invariant
            i <= s.len(),
            done.len() + 1 == split_on(s@.subrange(0, i as int), backslash).len(),
            forall|k: int| 0 <= k < done.len() ==> #[trigger] done[k]@ == split_on(s@.subrange(0, i as int), backslash)[k],
            cur@ == split_on(s@.subrange(0, i as int), backslash).last(),
        decreases s.len() - i,
    {
        let ghost pre = s@.subrange(0, i as int);
        let ghost nxt = s@.subrange(0, i + 1);
        assert(nxt.drop_last() =~= pre);
        assert(nxt.last() == s@[i as int]);
        proof { lemma_split_on_nonempty(pre, backslash); }
        let c = s[i];
        if c == '/' || (backslash && c == '\\') {
            let finished = cur;
            done.push(finished);
            cur = Vec::new();
            assert(cur@ =~= Seq::<char>::empty());
        } else {
            cur.push(c);
        }
        i = i + 1;
    }
    assert(s@.subrange(0, s.len() as int) =~= s@);
    proof { lemma_split_on_nonempty(s@, backslash); }
    done.push(cur);
    done
}

/// Some segment of `s` (split as by `split_on`) is exactly `..`.
pub open spec fn has_dotdot_segment(s: Seq<char>, backslash: bool) -> bool {
    exists|k: int| 0 <= k < split_on(s, backslash).len()
        && #[trigger] split_on(s, backslash)[k] == seq!['.', '.']
}

/// Whether `v` is exactly `..`.
pub fn is_dotdot(v: &Vec<char>) -> (r: bool)
    ensures
        r == (v@ == seq!['.', '.']),
{
    let r = v.len() == 2 && v[0] == '.' && v[1] == '.';
    proof {
        if v.len() == 2 && v[0] == '.' && v[1] == '.' {
            assert(v@ =~= seq!['.', '.']);
        }
    }
    r
}

/// Whether `v` is exactly `.`.
pub fn is_dot(v: &Vec<char>) -> (r: bool)
    ensures
        r == (v@ == seq!['.']),
{
    let r = v.len() == 1 && v[0] == '.';
    proof {
        if v.len() == 1 && v[0] == '.' {
            assert(v@ =~= seq!['.']);
        }
    }
    r
}

/// Whether some segment of `s` is exactly `..`.
pub fn has_dotdot_segment_exec(s: &Vec<char>, backslash: bool) -> (r: bool)
    ensures
        r == has_dotdot_segment(s@, backslash),
{
    let segs = split_exec(s, backslash);
    let mut k: usize = 0;
    while k < segs.len()
        invariant
            k <= segs.len(),
            segs.len() == split_on(s@, backslash).len(),
            forall|j: int| 0 <= j < segs.len() ==> #[trigger] segs[j]@ == split_on(s@, backslash)[j],
            forall|j: int| 0 <= j < k ==> split_on(s@, backslash)[j] != seq!['.', '.'],
        decreases segs.len() - k,
    {
        if is_dotdot(&segs[k]) {
            assert(split_on(s@, backslash)[k as int] == seq!['.', '.']);
            return true;
        }
        k = k + 1;
    }
    false
}

/// Number of bytes in the UTF-8 encoding of one character.
pub open spec fn utf8_width(c: char) -> nat {
    if (c as u32) <= 0x7f {
        1
    } else if (c as u32) <= 0x7ff {
        2
    } else if (c as u32) <= 0xffff && !(0xd800 <= (c as u32) && (c as u32) <= 0xdfff) {
        3
    } else {
        4
    }
}

proof fn lemma_encode_utf8_len_step(s: Seq<char>)
    requires
        s.len() > 0,
    ensures
        encode_utf8(s).len() == utf8_width(s[0]) + encode_utf8(s.drop_first()).len(),
{
    let v = s[0] as u32;
    assert(encode_utf8(s) == vstd::utf8::encode_scalar(v) + encode_utf8(s.drop_first()));
    assert(vstd::utf8::encode_scalar(v).len() == utf8_width(s[0]));
}

/// Length in bytes of the UTF-8 encoding of the given characters
/// (what `str::len` reports for the string they form).
pub fn utf8_len_exec(v: &Vec<char>) -> (n: u128)
    ensures
        n == encode_utf8(v@).len(),
{
    let mut i = v.len();
    let mut n: u128 = 0;
    assert(v@.subrange(i as int, v.len() as int) =~= Seq::<char>::empty());
    while i > 0
        invariant
            i <= v.len(),
            n == encode_utf8(v@.subrange(i as int, v.len() as int)).len(),
            n <= 4 * (v.len() - i),
        decreases i,
    {
        let c = v[i - 1];
        let w: u128 = if (c as u32) <= 0x7f {
            1
        } else if (c as u32) <= 0x7ff {
            2
        } else if (c as u32) <= 0xffff && !(0xd800 <= (c as u32) && (c as u32) <= 0xdfff) {
            3
        } else {
            4
        };
        proof {
            let t = v@.subrange(i - 1, v.len() as int);
            lemma_encode_utf8_len_step(t);
            assert(t.drop_first() =~= v@.subrange(i as int, v.len() as int));
            assert(t[0] == c);
        }
        n = n + w;
        i = i - 1;
    }
    assert(v@.subrange(0, v.len() as int) =~= v@);
    n
}

/// Lexicographic order on characters (the order of `String`, since UTF-8
/// preserves the order of code points).
pub open spec fn lex_lt(a: Seq<char>, b: Seq<char>) -> bool
    decreases a.len(),
{
    if a.len() == 0 {
        b.len() > 0
    } else if b.len() == 0 {
        false
    } else if a[0] != b[0] {
        a[0] < b[0]
    } else {
        lex_lt(a.drop_first(), b.drop_first())
    }
}

/// The lexicographic order is transitive.
pub proof fn lemma_lex_lt_trans(a: Seq<char>, b: Seq<char>, c: Seq<char>)
    requires
        lex_lt(a, b),
        lex_lt(b, c),
    ensures
        lex_lt(a, c),
    decreases a.len(),
{
    if a.len() > 0 && b.len() > 0 && c.len() > 0 && a[0] == b[0] && b[0] == c[0] {
        lemma_lex_lt_trans(a.drop_first(), b.drop_first(), c.drop_first());
    }
}

/// No sequence comes before itself.
pub proof fn lemma_lex_lt_irrefl(a: Seq<char>)
    ensures
        !lex_lt(a, a),
    decreases a.len(),
{
    if a.len() > 0 {
        lemma_lex_lt_irrefl(a.drop_first());
    }
}

/// Of two different sequences, one comes before the other.
pub proof fn lemma_lex_lt_total(a: Seq<char>, b: Seq<char>)
    ensures
        a == b || lex_lt(a, b) || lex_lt(b, a),
    decreases a.len(),
{
    if a.len() > 0 && b.len() > 0 && a[0] == b[0] {
        lemma_lex_lt_total(a.drop_first(), b.drop_first());
        if a.drop_first() == b.drop_first() {
            assert(a =~= seq![a[0]] + a.drop_first());
            assert(b =~= seq![b[0]] + b.drop_first());
        }
    } else if a.len() == 0 && b.len() == 0 {
        assert(a =~= b);
    }
}

/// Whether `a` comes strictly before `b` lexicographically.
pub fn lex_lt_exec(a: &Vec<char>, b: &Vec<char>) -> (r: bool)
    ensures
        r == lex_lt(a@, b@),
{
    let mut i: usize = 0;
    assert(a@.subrange(0, a.len() as int) =~= a@);
    assert(b@.subrange(0, b.len() as int) =~= b@);
    while i < a.len() && i < b.len() && a[i] == b[i]
        invariant
            i <= a.len(),
            i <= b.len(),
            lex_lt(a@, b@) == lex_lt(a@.subrange(i as int, a.len() as int), b@.subrange(i as int, b.len() as int)),
        decreases a.len() - i,
    {
        assert(a@.subrange(i as int, a.len() as int).drop_first() =~= a@.subrange(i + 1, a.len() as int));
        assert(b@.subrange(i as int, b.len() as int).drop_first() =~= b@.subrange(i + 1, b.len() as int));
        i = i + 1;
    }
    proof {
        assert(a@.subrange(0, a.len() as int) =~= a@);
        assert(b@.subrange(0, b.len() as int) =~= b@);
    }
    if i == a.len() {
        i < b.len()
    } else if i == b.len() {
        false
    } else {
        a[i] < b[i]
    }
}

/// Whether two character vectors are equal.
pub fn vec_eq(a: &Vec<char>, b: &Vec<char>) -> (r: bool)
    ensures
        r == (a@ == b@),
{
    if a.len() != b.len() {
        return false;
    }
    let mut i: usize = 0;
    while i < a.len()
        invariant
            a.len() == b.len(),
            i <= a.len(),
            forall|j: int| 0 <= j < i ==> a@[j] == b@[j],
        decreases a.len() - i,
    {
        if a[i] != b[i] {
            return false;
        }
        i = i + 1;
    }
    assert(a@ =~= b@);
    true
}

} // verus!
