//! Path wrappers for source and destination files, and the sanitisation of
//! strings that are shown in a terminal or used as file names.

use vstd::prelude::*;
use crate::text::{chars_of, push_chars, string_of, split_on, split_exec, is_dot, is_dotdot};

verus! {

/// A control character: general category Cc, i.e. U+0000..=U+001F and
/// U+007F..=U+009F (what `char::is_control` decides).
pub open spec fn is_control(c: char) -> bool {
    c <= '\u{1f}' || ('\u{7f}' <= c && c <= '\u{9f}')
}

/// Whether `c` is a control character.
pub fn is_control_exec(c: char) -> (r: bool)
    ensures
        r == is_control(c),
{
    c <= '\u{1f}' || ('\u{7f}' <= c && c <= '\u{9f}')
}

/// The characters Windows refuses in file names: `< > : " / \ | ? *`.
pub open spec fn is_restricted(c: char) -> bool {
    c == '<' || c == '>' || c == ':' || c == '"' || c == '/' || c == '\\' || c == '|'
        || c == '?' || c == '*'
}

/// A character that `sanitize_filename` replaces.
pub open spec fn is_bad_filename_char(c: char) -> bool {
    is_control(c) || is_restricted(c)
}

fn is_bad_filename_char_exec(c: char) -> (r: bool)
    ensures
        r == is_bad_filename_char(c),
{
    is_control_exec(c) || c == '<' || c == '>' || c == ':' || c == '"' || c == '/' || c == '\\'
        || c == '|' || c == '?' || c == '*'
}

/// `s` with every control character replaced by `?`.
pub open spec fn sanitized(s: Seq<char>) -> Seq<char> {
    s.map_values(|c: char| if is_control(c) { '?' } else { c })
}

/// Replaces control characters (escape sequences, newlines, tabs, ...) by `?`
/// so that the string can be shown in a terminal without side effects.
pub fn sanitize_str(s: &str) -> (r: String)
    ensures
        r@ == sanitized(s@),
{
    let v = chars_of(s);
    let mut out = String::new();
    let mut i: usize = 0;
    while i < v.len()
        invariant
            i <= v.len(),
            out@ == sanitized(v@.subrange(0, i as int)),
        decreases v.len() - i,
    {
        let c = v[i];
        if is_control_exec(c) {
            out.push('?');
        } else {
            out.push(c);
        }
        assert(sanitized(v@.subrange(0, i + 1)) =~= sanitized(v@.subrange(0, i as int)).push(
            if is_control(c) { '?' } else { c },
        ));
        i = i + 1;
    }
    assert(v@.subrange(0, v.len() as int) =~= v@);
    out
}

/// `sanitize_str` leaves no control character, keeps the length, keeps every
/// other character, and changes nothing in a string that has no control
/// character (so applying it twice gives the same as applying it once).
pub proof fn law_sanitize_str(s: Seq<char>)
    ensures
        sanitized(s).len() == s.len(),
        forall|i: int| 0 <= i < s.len() ==> !is_control(#[trigger] sanitized(s)[i]),
        forall|i: int| 0 <= i < s.len() && !is_control(s[i]) ==> #[trigger] sanitized(s)[i] == s[i],
        (forall|i: int| 0 <= i < s.len() ==> !is_control(#[trigger] s[i])) ==> sanitized(s) == s,
        sanitized(sanitized(s)) == sanitized(s),
{
    assert(sanitized(sanitized(s)) =~= sanitized(s));
    if forall|i: int| 0 <= i < s.len() ==> !is_control(#[trigger] s[i]) {
        assert(sanitized(s) =~= s);
    }
}

/// `s` with every character that is a control character or one that Windows
/// refuses in file names replaced by `_`.
pub open spec fn replace_bad_chars(s: Seq<char>) -> Seq<char> {
    s.map_values(|c: char| if is_bad_filename_char(c) { '_' } else { c })
}

/// `s` without its trailing spaces and dots.
pub open spec fn trim_end_dots_spaces(s: Seq<char>) -> Seq<char>
    decreases s.len(),
{
    if s.len() > 0 && (s.last() == ' ' || s.last() == '.') {
        trim_end_dots_spaces(s.drop_last())
    } else {
        s
    }
}

/// ASCII upper-casing of one character.
pub open spec fn ascii_upper(c: char) -> char {
    if 'a' <= c && c <= 'z' { ((c as u32) - 32) as char } else { c }
}

fn ascii_upper_exec(c: char) -> (r: char)
    ensures
        r == ascii_upper(c),
{
    if 'a' <= c && c <= 'z' {
        let b = (c as u32) as u8;
        (b - 32) as char
    } else {
        c
    }
}

/// The part of `s` before its first `.` (all of `s` if it has none).
pub open spec fn stem(s: Seq<char>) -> Seq<char>
    decreases s.len(),
{
    if s.len() == 0 || s[0] == '.' {
        Seq::<char>::empty()
    } else {
        seq![s[0]] + stem(s.drop_first())
    }
}

/// An upper-case device name that Windows reserves: CON, PRN, AUX, NUL,
/// COM1..COM9, LPT1..LPT9.
pub open spec fn is_reserved_device(t: Seq<char>) -> bool {
    ||| (t.len() == 3 && (
            (t[0] == 'C' && t[1] == 'O' && t[2] == 'N')
            || (t[0] == 'P' && t[1] == 'R' && t[2] == 'N')
            || (t[0] == 'A' && t[1] == 'U' && t[2] == 'X')
            || (t[0] == 'N' && t[1] == 'U' && t[2] == 'L')))
    ||| (t.len() == 4 && (
            (t[0] == 'C' && t[1] == 'O' && t[2] == 'M')
            || (t[0] == 'L' && t[1] == 'P' && t[2] == 'T'))
        && '1' <= t[3] && t[3] <= '9')
}

/// The name (without extension, ignoring ASCII case) is a reserved device name.
pub open spec fn is_windows_reserved_name(s: Seq<char>) -> bool {
    is_reserved_device(stem(s).map_values(|c: char| ascii_upper(c)))
}

/// Whether `s`, up to its first `.` and ignoring ASCII case, is a Windows
/// device name (CON, PRN, AUX, NUL, COM1-9, LPT1-9).
pub fn is_windows_reserved(s: &str) -> (r: bool)
    ensures
        r == is_windows_reserved_name(s@),
{
    let v = chars_of(s);
    reserved_chars(&v)
}

fn reserved_chars(s: &Vec<char>) -> (r: bool)
    ensures
        r == is_windows_reserved_name(s@),
{
    let mut up: Vec<char> = Vec::new();
    let mut i: usize = 0;
    while i < s.len() && s[i] != '.'
        invariant
            i <= s.len(),
            forall|j: int| 0 <= j < i ==> s@[j] != '.',
            up@ == s@.subrange(0, i as int).map_values(|c: char| ascii_upper(c)),
        decreases s.len() - i,
    {
        let u = ascii_upper_exec(s[i]);
        up.push(u);
        assert(s@.subrange(0, i + 1).map_values(|c: char| ascii_upper(c)) =~= s@.subrange(
            0,
            i as int,
        ).map_values(|c: char| ascii_upper(c)).push(u));
        i = i + 1;
    }
    proof { lemma_stem_prefix(s@, i as int); }
    let r3 = up.len() == 3 && (
        (up[0] == 'C' && up[1] == 'O' && up[2] == 'N')
        || (up[0] == 'P' && up[1] == 'R' && up[2] == 'N')
        || (up[0] == 'A' && up[1] == 'U' && up[2] == 'X')
        || (up[0] == 'N' && up[1] == 'U' && up[2] == 'L'));
    let r4 = up.len() == 4 && (
        (up[0] == 'C' && up[1] == 'O' && up[2] == 'M')
        || (up[0] == 'L' && up[1] == 'P' && up[2] == 'T')) && '1' <= up[3] && up[3] <= '9';
    r3 || r4
}

proof fn lemma_stem_prefix(s: Seq<char>, i: int)
    requires
        0 <= i <= s.len(),
        forall|j: int| 0 <= j < i ==> s[j] != '.',
        i == s.len() || s[i] == '.',
    ensures
        stem(s) == s.subrange(0, i),
    decreases s.len(),
{
    if s.len() == 0 || s[0] == '.' {
        assert(s.subrange(0, i) =~= Seq::<char>::empty());
    } else {
        lemma_stem_prefix(s.drop_first(), i - 1);
        assert(seq![s[0]] + s.drop_first().subrange(0, i - 1) =~= s.subrange(0, i));
    }
}

/// The file name that `sanitize_filename` produces for `s`.
pub open spec fn sanitized_filename(s: Seq<char>) -> Seq<char> {
    let t = trim_end_dots_spaces(replace_bad_chars(s));
    if t.len() == 0 {
        seq!['_']
    } else if is_windows_reserved_name(t) {
        seq!['_'] + t
    } else {
        t
    }
}

/// A file name every platform accepts: not empty, no control character and
/// none of `< > : " / \ | ? *`, no trailing space or dot, and no reserved
/// Windows device name before its first dot.
pub open spec fn is_portable_filename(s: Seq<char>) -> bool {
    &&& s.len() > 0
    &&& forall|i: int| 0 <= i < s.len() ==> !is_bad_filename_char(#[trigger] s[i])
    &&& s.last() != ' ' && s.last() != '.'
    &&& !is_windows_reserved_name(s)
}

proof fn lemma_trim_end_prefix(s: Seq<char>)
    ensures
        trim_end_dots_spaces(s).len() <= s.len(),
        trim_end_dots_spaces(s) == s.subrange(0, trim_end_dots_spaces(s).len() as int),
        trim_end_dots_spaces(s).len() > 0 ==> trim_end_dots_spaces(s).last() != ' '
            && trim_end_dots_spaces(s).last() != '.',
    decreases s.len(),
{
    if s.len() > 0 && (s.last() == ' ' || s.last() == '.') {
        lemma_trim_end_prefix(s.drop_last());
        let t = trim_end_dots_spaces(s.drop_last());
        assert(s.drop_last().subrange(0, t.len() as int) =~= s.subrange(0, t.len() as int));
    } else {
        assert(s.subrange(0, s.len() as int) =~= s);
    }
}

proof fn lemma_trim_end_noop(s: Seq<char>)
    requires
        s.len() == 0 || (s.last() != ' ' && s.last() != '.'),
    ensures
        trim_end_dots_spaces(s) == s,
{
}

/// Replaces characters that are control characters or that Windows refuses
/// (`< > : " / \ | ? *`) by `_`, drops trailing spaces and dots, gives `_`
/// for a name that ends up empty, and prefixes `_` to a name whose part
/// before the first dot is a reserved Windows device name.
pub fn sanitize_filename(s: &str) -> (r: String)
    ensures
        r@ == sanitized_filename(s@),
{
    let v = chars_of(s);
    let is_reserved = reserved_chars(&v);
    let mut needs_char_replacement = false;
    let mut i: usize = 0;
    while i < v.len()
        invariant
            i <= v.len(),
            needs_char_replacement == exists|j: int| 0 <= j < i && is_bad_filename_char(#[trigger] v@[j]),
        decreases v.len() - i,
    {
        if is_bad_filename_char_exec(v[i]) {
            needs_char_replacement = true;
        }
        i = i + 1;
    }
    let needs_trimming = v.len() > 0 && (v[v.len() - 1] == ' ' || v[v.len() - 1] == '.');
    let is_empty = v.len() == 0;
    if !needs_char_replacement && !needs_trimming && !is_empty && !is_reserved {
        proof {
            assert(replace_bad_chars(v@) =~= v@);
            lemma_trim_end_noop(v@);
        }
        return String::from_str(s);
    }
    let mut replaced: Vec<char> = Vec::new();
    let mut i: usize = 0;
    while i < v.len()
        invariant
            i <= v.len(),
            replaced@ == replace_bad_chars(v@.subrange(0, i as int)),
        decreases v.len() - i,
    {
        let c = v[i];
        if is_bad_filename_char_exec(c) {
            replaced.push('_');
        } else {
            replaced.push(c);
        }
        assert(replace_bad_chars(v@.subrange(0, i + 1)) =~= replace_bad_chars(
            v@.subrange(0, i as int),
        ).push(if is_bad_filename_char(c) { '_' } else { c }));
        i = i + 1;
    }
    assert(v@.subrange(0, v.len() as int) =~= v@);
    let mut keep = replaced.len();
    assert(replaced@.subrange(0, keep as int) =~= replaced@);
    while keep > 0 && (replaced[keep - 1] == ' ' || replaced[keep - 1] == '.')
        invariant
            keep <= replaced.len(),
            trim_end_dots_spaces(replaced@.subrange(0, keep as int)) == trim_end_dots_spaces(
                replaced@,
            ),
        decreases keep,
    {
        assert(replaced@.subrange(0, keep as int).drop_last() =~= replaced@.subrange(0, keep - 1));
        keep = keep - 1;
    }
    proof {
        let p = replaced@.subrange(0, keep as int);
        lemma_trim_end_noop(p);
    }
    replaced.truncate(keep);
    if replaced.len() == 0 {
        let mut out = String::new();
        out.push('_');
        assert(out@ =~= seq!['_']);
        return out;
    }
    if reserved_chars(&replaced) {
        let mut out = String::new();
        out.push('_');
        push_chars(&mut out, &replaced);
        assert(out@ =~= seq!['_'] + replaced@);
        return out;
    }
    string_of(&replaced)
}

/// Every output of `sanitize_filename` is a portable file name, a portable
/// file name is returned unchanged, and sanitising twice gives the same as
/// sanitising once.
pub proof fn law_sanitize_filename(s: Seq<char>)
    ensures
        is_portable_filename(sanitized_filename(s)),
        is_portable_filename(s) ==> sanitized_filename(s) == s,
        sanitized_filename(sanitized_filename(s)) == sanitized_filename(s),
{
    let rb = replace_bad_chars(s);
    let t = trim_end_dots_spaces(rb);
    lemma_trim_end_prefix(rb);
    assert forall|i: int| 0 <= i < t.len() implies !is_bad_filename_char(#[trigger] t[i]) by {
        assert(t[i] == rb.subrange(0, t.len() as int)[i]);
    }
    let out = sanitized_filename(s);
    if t.len() == 0 {
        assert(out =~= seq!['_']);
        assert(stem(out) =~= seq!['_']) by {
            assert(out.drop_first() =~= Seq::<char>::empty());
            assert(stem(Seq::<char>::empty()) == Seq::<char>::empty());
        }
        assert(stem(out).map_values(|c: char| ascii_upper(c)) =~= seq!['_']);
    } else if is_windows_reserved_name(t) {
        assert(out == seq!['_'] + t);
        assert(out.drop_first() =~= t);
        assert(stem(out) == seq!['_'] + stem(t));
        let up = stem(out).map_values(|c: char| ascii_upper(c));
        assert(up[0] == '_');
        assert(forall|i: int| 0 <= i < out.len() ==> !is_bad_filename_char(#[trigger] out[i])) by {
            assert forall|i: int| 0 <= i < out.len() implies !is_bad_filename_char(#[trigger] out[i]) by {
                if i > 0 {
                    assert(out[i] == t[i - 1]);
                }
            }
        }
        assert(out.last() == t.last());
    }
    if is_portable_filename(s) {
        assert(rb =~= s);
        lemma_trim_end_noop(s);
    }
    // The output is itself portable, so a second pass leaves it unchanged.
    let o = sanitized_filename(s);
    assert(replace_bad_chars(o) =~= o);
    lemma_trim_end_noop(o);
}

/// Whether `p` is absolute (on Unix: it starts at the root `/`).
pub open spec fn is_absolute_path(p: Seq<char>) -> bool {
    p.len() > 0 && p[0] == '/'
}

/// `PathBuf::push` on Unix: an absolute `rel` replaces `base`; otherwise
/// `rel` is appended, with a `/` in between unless `base` is empty or already
/// ends with one.
pub open spec fn path_push(base: Seq<char>, rel: Seq<char>) -> Seq<char> {
    if is_absolute_path(rel) {
        rel
    } else if base.len() == 0 || base.last() == '/' {
        base + rel
    } else {
        base.push('/') + rel
    }
}

/// Appends a path to another, as `PathBuf::push` does on Unix.
pub fn path_push_exec(base: &mut Vec<char>, rel: &Vec<char>)
    ensures
        final(base)@ == path_push(old(base)@, rel@),
{
    if rel.len() > 0 && rel[0] == '/' {
        *base = rel.clone();
        return;
    }
    if base.len() > 0 && base[base.len() - 1] != '/' {
        base.push('/');
    }
    let mut i: usize = 0;
    let ghost b0 = base@;
    while i < rel.len()
        invariant
            i <= rel.len(),
            base@ == b0 + rel@.subrange(0, i as int),
        decreases rel.len() - i,
    {
        base.push(rel[i]);
        i = i + 1;
    }
    assert(rel@.subrange(0, rel.len() as int) =~= rel@);
}

/// The last normal component of a list of segments: empty and `.`
/// segments are passed over, and a final `..` has no name.
pub open spec fn last_normal(segs: Seq<Seq<char>>) -> Option<Seq<char>>
    decreases segs.len(),
{
    if segs.len() == 0 {
        None
    } else if segs.last().len() == 0 || segs.last() == seq!['.'] {
        last_normal(segs.drop_last())
    } else if segs.last() == seq!['.', '.'] {
        None
    } else {
        Some(segs.last())
    }
}

/// `Path::file_name` on Unix: the final normal component, if any.
pub open spec fn file_name_of(p: Seq<char>) -> Option<Seq<char>> {
    last_normal(split_on(p, false))
}

/// The final component of the path `p`, as `Path::file_name` gives it on
/// Unix: `None` when the path ends in `..` or has no normal component.
pub fn file_name_exec(p: &Vec<char>) -> (r: Option<Vec<char>>)
    ensures
        r matches Some(v) ==> file_name_of(p@) == Some(v@),
        r is None ==> file_name_of(p@) is None,
{
    let segs = split_exec(p, false);
    let mut k = segs.len();
    assert(split_on(p@, false).subrange(0, k as int) =~= split_on(p@, false));
    while k > 0 && (segs[k - 1].len() == 0 || is_dot(&segs[k - 1]))
        invariant
            k <= segs.len(),
            segs.len() == split_on(p@, false).len(),
            forall|j: int| 0 <= j < segs.len() ==> #[trigger] segs[j]@ == split_on(p@, false)[j],
            last_normal(split_on(p@, false).subrange(0, k as int)) == file_name_of(p@),
        decreases k,
    {
        assert(split_on(p@, false).subrange(0, k as int).drop_last() =~= split_on(p@, false).subrange(0, k - 1));
        k = k - 1;
    }
    let ghost sub = split_on(p@, false).subrange(0, k as int);
    if k == 0 {
        assert(sub.len() == 0);
        return None;
    }
    assert(sub.last() == segs[k - 1]@);
    if is_dotdot(&segs[k - 1]) {
        None
    } else {
        Some(segs[k - 1].clone())
    }
}

/// A source file path (input).
#[derive(Debug, PartialEq, Eq)]
pub struct SourcePath(pub String);

impl Clone for SourcePath {
    fn clone(&self) -> (r: Self)
        ensures
            r == *self,
    {
        SourcePath(self.0.clone())
    }
}

impl SourcePath {
    /// Creates a new `SourcePath` from the text of a path.
    pub fn new(path: String) -> (r: Self)
        ensures
            r.0 == path,
    {
        SourcePath(path)
    }

    /// The path as it is shown: control characters replaced by `?`.
    pub fn to_string(&self) -> (r: String)
        ensures
            r@ == sanitized(self.0@),
    {
        sanitize_str(self.0.as_str())
    }

    /// The final component of the path, if it has one.
    pub fn file_name(&self) -> (r: Option<String>)
        ensures
            r matches Some(v) ==> file_name_of(self.0@) == Some(v@),
            r is None ==> file_name_of(self.0@) is None,
    {
        let v = chars_of(self.0.as_str());
        match file_name_exec(&v) {
            Some(n) => Some(string_of(&n)),
            None => None,
        }
    }

    /// The text of the path.
    pub fn as_str(&self) -> (r: &str)
        ensures
            r@ == self.0@,
    {
        self.0.as_str()
    }
}

/// A destination file path (output).
#[derive(Debug, PartialEq, Eq)]
pub struct DestPath(pub String);

impl Clone for DestPath {
    fn clone(&self) -> (r: Self)
        ensures
            r == *self,
    {
        DestPath(self.0.clone())
    }
}

impl DestPath {
    /// Creates a new `DestPath` from the text of a path.
    pub fn new(path: String) -> (r: Self)
        ensures
            r.0 == path,
    {
        DestPath(path)
    }

    /// The path as it is shown: control characters replaced by `?`.
    pub fn to_string(&self) -> (r: String)
        ensures
            r@ == sanitized(self.0@),
    {
        sanitize_str(self.0.as_str())
    }

    /// The text of the path.
    pub fn as_str(&self) -> (r: &str)
        ensures
            r@ == self.0@,
    {
        self.0.as_str()
    }
}

} // verus!
