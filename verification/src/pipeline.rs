//! Where a photo goes: the destination directory that the template gives
//! for its camera and date, and the guarantee that it stays under the
//! target directory.

use vstd::prelude::*;
use crate::text::{chars_of, string_of, contains_seq, contains_exec, has_char, replace_all,
    replace_all_exec, split_on, split_exec, is_dot, is_dotdot, has_dotdot_segment,
    lemma_split_on_segments_have_no_sep, lemma_split_on_chars_from_source,
    shares_no_char, is_number_char, all_number_chars, lemma_dec_number_chars,
    lemma_number_text_shares_no_char, law_replace_all_leaves_no_pattern,
    law_replace_all_creates_no_pattern, dec_padded};
use crate::paths::{is_absolute_path, path_push, path_push_exec};
use crate::config::{Config, first_match_from};
use crate::date::{Date, year_text, two_digit_text};

verus! {

/// The result of computing a destination directory.
#[derive(Debug, PartialEq, Eq)]
pub enum DestDirResult {
    /// The destination directory.
    Dir(String),
    /// The template names the camera, and no mapping matches the model.
    UnknownCamera,
    /// The template is malformed or leads outside the target directory.
    TemplateError(String),
}

pub open spec fn camera_tag() -> Seq<char> {
    seq!['{', 'c', 'a', 'm', 'e', 'r', 'a', '}']
}

pub open spec fn year_tag() -> Seq<char> {
    seq!['{', 'y', 'e', 'a', 'r', '}']
}

pub open spec fn month_tag() -> Seq<char> {
    seq!['{', 'm', 'o', 'n', 't', 'h', '}']
}

pub open spec fn day_tag() -> Seq<char> {
    seq!['{', 'd', 'a', 'y', '}']
}

/// The template in effect: the configured one, else
/// `{camera}/{year}/{month}/{day}`.
pub open spec fn template_in_effect(t: Option<String>) -> Seq<char> {
    match t {
        Some(s) => s@,
        None => "{camera}/{year}/{month}/{day}"@,
    }
}

/// The template with its tags replaced, in the order `{camera}`, `{year}`,
/// `{month}`, `{day}`.
pub open spec fn filled_template(
    template: Seq<char>,
    camera: Seq<char>,
    year: Seq<char>,
    month: Seq<char>,
    day: Seq<char>,
) -> Seq<char> {
    replace_all(
        replace_all(replace_all(replace_all(template, camera_tag(), camera), year_tag(), year), month_tag(), month),
        day_tag(),
        day,
    )
}

/// A segment that adds nothing to a path: empty, or `.`.
pub open spec fn is_skipped_segment(s: Seq<char>) -> bool {
    s.len() == 0 || s == seq!['.']
}

/// `base` with the non-skipped segments pushed in order.
pub open spec fn push_segments(base: Seq<char>, segs: Seq<Seq<char>>) -> Seq<char>
    decreases segs.len(),
{
    if segs.len() == 0 {
        base
    } else if is_skipped_segment(segs.last()) {
        push_segments(base, segs.drop_last())
    } else {
        path_push(push_segments(base, segs.drop_last()), segs.last())
    }
}

/// The message for a template that still has braces after substitution.
pub open spec fn malformed_message(template: Seq<char>, path: Seq<char>) -> Seq<char> {
    "Malformed template or unknown tag in '"@ + template + "'. Result: '"@ + path + "'"@
}

/// The message for a template that leads to a `..` component.
pub open spec fn traversal_message(path: Seq<char>) -> Seq<char> {
    "Template resulted in '..' component, which is unsafe. Path: '"@ + path + "'"@
}

/// The destination directory for a photo of camera `model` taken on `date`
/// (given as the `%Y`, `%m`, `%d` texts), under `target`, following the
/// configured template.
pub open spec fn dest_dir_spec(
    target: Seq<char>,
    config_template: Option<String>,
    camera_dirs: Seq<(String, String)>,
    model: Seq<char>,
    year: Seq<char>,
    month: Seq<char>,
    day: Seq<char>,
) -> DestDirResultView {
    let template = template_in_effect(config_template);
    let uses_camera = contains_seq(template, camera_tag());
    let found = first_match_from(camera_dirs, model, 0);
    if uses_camera && found is None {
        DestDirResultView::UnknownCamera
    } else {
        let camera = if uses_camera { camera_dirs[found->0].1@ } else { Seq::<char>::empty() };
        let path = filled_template(template, camera, year, month, day);
        if path.contains('{') || path.contains('}') {
            DestDirResultView::TemplateError(malformed_message(template, path))
        } else if has_dotdot_segment(path, false) {
            DestDirResultView::TemplateError(traversal_message(path))
        } else {
            DestDirResultView::Dir(push_segments(target, split_on(path, false)))
        }
    }
}

impl Clone for DestDirResult {
    fn clone(&self) -> (r: Self)
        ensures
            r@ == self@,
    {
        match self {
            DestDirResult::Dir(p) => DestDirResult::Dir(p.clone()),
            DestDirResult::UnknownCamera => DestDirResult::UnknownCamera,
            DestDirResult::TemplateError(m) => DestDirResult::TemplateError(m.clone()),
        }
    }
}

/// The mathematical value of a `DestDirResult`.
pub enum DestDirResultView {
    Dir(Seq<char>),
    UnknownCamera,
    TemplateError(Seq<char>),
}

impl View for DestDirResult {
    type V = DestDirResultView;

    open spec fn view(&self) -> DestDirResultView {
        match self {
            DestDirResult::Dir(p) => DestDirResultView::Dir(p@),
            DestDirResult::UnknownCamera => DestDirResultView::UnknownCamera,
            DestDirResult::TemplateError(m) => DestDirResultView::TemplateError(m@),
        }
    }
}

fn push_str_chars(out: &mut Vec<char>, s: &str)
    ensures
        final(out)@ == old(out)@ + s@,
{
    let v = chars_of(s);
    let mut i: usize = 0;
    let ghost o0 = out@;
    while i < v.len()
        invariant
            i <= v.len(),
            out@ == o0 + v@.subrange(0, i as int),
        decreases v.len() - i,
    {
        out.push(v[i]);
        i = i + 1;
    }
    assert(v@.subrange(0, v.len() as int) =~= v@);
}

fn append_vec(out: &mut Vec<char>, v: &Vec<char>)
    ensures
        final(out)@ == old(out)@ + v@,
{
    let mut i: usize = 0;
    let ghost o0 = out@;
    while i < v.len()
        invariant
            i <= v.len(),
            out@ == o0 + v@.subrange(0, i as int),
        decreases v.len() - i,
    {
        out.push(v[i]);
        i = i + 1;
    }
    assert(v@.subrange(0, v.len() as int) =~= v@);
}

/// Computes the destination directory for a photo: the template's tags are
/// replaced (the camera directory only when the template names it), a
/// result with a leftover brace or a `..` component is refused, and the
/// remaining non-empty, non-`.` components are joined under `target_dir`.
pub fn compute_dest_dir(target_dir: &str, config: &Config, model: &str, date: &Date) -> (r: DestDirResult)
    ensures
        r@ == dest_dir_spec(
            target_dir@,
            config.dest_template,
            config.camera_dirs@,
            model@,
            year_text(date@.0),
            two_digit_text(date@.1),
            two_digit_text(date@.2),
        ),
{
    let template: Vec<char> = match &config.dest_template {
        Some(t) => chars_of(t.as_str()),
        None => chars_of("{camera}/{year}/{month}/{day}"),
    };
    let ctag: Vec<char> = vec!['{', 'c', 'a', 'm', 'e', 'r', 'a', '}'];
    let ytag: Vec<char> = vec!['{', 'y', 'e', 'a', 'r', '}'];
    let mtag: Vec<char> = vec!['{', 'm', 'o', 'n', 't', 'h', '}'];
    let dtag: Vec<char> = vec!['{', 'd', 'a', 'y', '}'];
    assert(ctag@ =~= camera_tag());
    assert(ytag@ =~= year_tag());
    assert(mtag@ =~= month_tag());
    assert(dtag@ =~= day_tag());

    // Only look up the camera when the template uses it.
    let camera: Vec<char> = if contains_exec(&template, &ctag) {
        match config.get_dest_dir(model) {
            Some(name) => chars_of(name),
            None => return DestDirResult::UnknownCamera,
        }
    } else {
        Vec::new()
    };

    let year = chars_of(date.year_text().as_str());
    let month = chars_of(date.month_text().as_str());
    let day = chars_of(date.day_text().as_str());
    let p1 = replace_all_exec(&template, &ctag, &camera);
    let p2 = replace_all_exec(&p1, &ytag, &year);
    let p3 = replace_all_exec(&p2, &mtag, &month);
    let path = replace_all_exec(&p3, &dtag, &day);

    // A brace left over means a malformed template or an unknown tag.
    if has_char(&path, '{') || has_char(&path, '}') {
        let mut msg: Vec<char> = Vec::new();
        push_str_chars(&mut msg, "Malformed template or unknown tag in '");
        append_vec(&mut msg, &template);
        push_str_chars(&mut msg, "'. Result: '");
        append_vec(&mut msg, &path);
        push_str_chars(&mut msg, "'");
        return DestDirResult::TemplateError(string_of(&msg));
    }

    // Join the components under the target; `..` is refused, empty and `.`
    // components are skipped.
    let segs = split_exec(&path, false);
    proof {
        lemma_split_on_segments_have_no_sep(path@, false);
    }
    let mut dest = chars_of(target_dir);
    let mut k: usize = 0;
    let ghost expected = dest_dir_spec(
        target_dir@,
        config.dest_template,
        config.camera_dirs@,
        model@,
        year_text(date@.0),
        two_digit_text(date@.1),
        two_digit_text(date@.2),
    );
    assert(expected == if has_dotdot_segment(path@, false) {
        DestDirResultView::TemplateError(traversal_message(path@))
    } else {
        DestDirResultView::Dir(push_segments(target_dir@, split_on(path@, false)))
    });
    while k < segs.len()
        invariant
            expected == dest_dir_spec(
                target_dir@,
                config.dest_template,
                config.camera_dirs@,
                model@,
                year_text(date@.0),
                two_digit_text(date@.1),
                two_digit_text(date@.2),
            ),
            expected == if has_dotdot_segment(path@, false) {
                DestDirResultView::TemplateError(traversal_message(path@))
            } else {
                DestDirResultView::Dir(push_segments(target_dir@, split_on(path@, false)))
            },
            k <= segs.len(),
            segs.len() == split_on(path@, false).len(),
            forall|j: int| 0 <= j < segs.len() ==> #[trigger] segs[j]@ == split_on(path@, false)[j],
            forall|j: int| 0 <= j < k ==> split_on(path@, false)[j] != seq!['.', '.'],
            dest@ == push_segments(target_dir@, split_on(path@, false).subrange(0, k as int)),
            forall|j: int, i: int| 0 <= j < split_on(path@, false).len() && 0 <= i < split_on(path@, false)[j].len()
                ==> #[trigger] split_on(path@, false)[j][i] != '/',
        decreases segs.len() - k,
    {
        let seg = &segs[k];
        let ghost pre = split_on(path@, false).subrange(0, k as int);
        let ghost nxt = split_on(path@, false).subrange(0, k + 1);
        assert(nxt.drop_last() =~= pre);
        assert(nxt.last() == seg@);
        if is_dotdot(seg) {
            assert(has_dotdot_segment(path@, false));
            let mut msg: Vec<char> = Vec::new();
            push_str_chars(&mut msg, "Template resulted in '..' component, which is unsafe. Path: '");
            append_vec(&mut msg, &path);
            push_str_chars(&mut msg, "'");
            assert(msg@ =~= traversal_message(path@));
            return DestDirResult::TemplateError(string_of(&msg));
        }
        if seg.len() == 0 || is_dot(seg) {
            k = k + 1;
            continue;
        }
        // A component with a drive-letter colon must not be absolute.
        if has_char(seg, ':') && seg.len() > 0 && seg[0] == '/' {
            assert(seg@[0] == split_on(path@, false)[k as int][0]);
            assert(false);
            let mut msg: Vec<char> = Vec::new();
            push_str_chars(&mut msg, "Component '");
            append_vec(&mut msg, seg);
            push_str_chars(&mut msg, "' appears to be absolute. Path: '");
            append_vec(&mut msg, &path);
            push_str_chars(&mut msg, "'");
            return DestDirResult::TemplateError(string_of(&msg));
        }
        path_push_exec(&mut dest, seg);
        k = k + 1;
    }
    assert(split_on(path@, false).subrange(0, segs.len() as int) =~= split_on(path@, false));
    assert(!has_dotdot_segment(path@, false));
    DestDirResult::Dir(string_of(&dest))
}

/// A component that keeps a path inside its base: not empty, neither `.`
/// nor `..`, and without `/` or braces.
pub open spec fn is_plain_component(c: Seq<char>) -> bool {
    &&& c.len() > 0
    &&& c != seq!['.']
    &&& c != seq!['.', '.']
    &&& !c.contains('/')
    &&& !c.contains('{')
    &&& !c.contains('}')
}

/// `base` with every component pushed in order.
pub open spec fn push_all(base: Seq<char>, comps: Seq<Seq<char>>) -> Seq<char>
    decreases comps.len(),
{
    if comps.len() == 0 {
        base
    } else {
        path_push(push_all(base, comps.drop_last()), comps.last())
    }
}

/// The segments that `push_segments` pushes, in order.
pub open spec fn kept_segments(segs: Seq<Seq<char>>) -> Seq<Seq<char>>
    decreases segs.len(),
{
    if segs.len() == 0 {
        segs
    } else if is_skipped_segment(segs.last()) {
        kept_segments(segs.drop_last())
    } else {
        kept_segments(segs.drop_last()).push(segs.last())
    }
}

proof fn lemma_push_segments_kept(base: Seq<char>, segs: Seq<Seq<char>>)
    ensures
        push_segments(base, segs) == push_all(base, kept_segments(segs)),
        forall|i: int| 0 <= i < kept_segments(segs).len() ==> (exists|j: int| 0 <= j < segs.len()
            && segs[j] == #[trigger] kept_segments(segs)[i]),
        forall|i: int| 0 <= i < kept_segments(segs).len() ==> !is_skipped_segment(#[trigger] kept_segments(segs)[i]),
    decreases segs.len(),
{
    if segs.len() > 0 {
        lemma_push_segments_kept(base, segs.drop_last());
        let ks = kept_segments(segs);
        let kp = kept_segments(segs.drop_last());
        if !is_skipped_segment(segs.last()) {
            assert(ks.drop_last() =~= kp);
            assert forall|i: int| 0 <= i < ks.len() implies (exists|j: int| 0 <= j < segs.len()
                && segs[j] == #[trigger] ks[i]) by {
                if i < kp.len() {
                    let j = choose|j: int| 0 <= j < segs.drop_last().len() && segs.drop_last()[j] == kp[i];
                    assert(segs[j] == ks[i]);
                } else {
                    assert(segs[segs.len() - 1] == ks[i]);
                }
            }
        } else {
            assert forall|i: int| 0 <= i < ks.len() implies (exists|j: int| 0 <= j < segs.len()
                && segs[j] == #[trigger] ks[i]) by {
                let j = choose|j: int| 0 <= j < segs.drop_last().len() && segs.drop_last()[j] == kp[i];
                assert(segs[j] == ks[i]);
            }
        }
    }
}

proof fn lemma_push_all_prefix(base: Seq<char>, comps: Seq<Seq<char>>)
    requires
        forall|i: int| 0 <= i < comps.len() ==> !is_absolute_path(#[trigger] comps[i]),
    ensures
        push_all(base, comps).len() >= base.len(),
        push_all(base, comps).subrange(0, base.len() as int) == base,
    decreases comps.len(),
{
    if comps.len() > 0 {
        lemma_push_all_prefix(base, comps.drop_last());
        let p = push_all(base, comps.drop_last());
        assert(!is_absolute_path(comps[comps.len() - 1]));
        let q = path_push(p, comps.last());
        if p.len() == 0 || p.last() == '/' {
            assert(q.subrange(0, base.len() as int) =~= p.subrange(0, base.len() as int));
        } else {
            assert(q.subrange(0, base.len() as int) =~= p.subrange(0, base.len() as int));
        }
    }
}

/// A destination directory stays inside the target directory: it starts
/// with the target, and it is the target extended by plain components only
/// (non-empty, neither `.` nor `..`, no `/`, no brace).
pub proof fn law_dest_dir_within_target(
    target: Seq<char>,
    config_template: Option<String>,
    camera_dirs: Seq<(String, String)>,
    model: Seq<char>,
    year: Seq<char>,
    month: Seq<char>,
    day: Seq<char>,
)
    ensures
        dest_dir_spec(target, config_template, camera_dirs, model, year, month, day) matches DestDirResultView::Dir(p)
            ==> (exists|comps: Seq<Seq<char>>|
                p == push_all(target, comps)
                && forall|i: int| 0 <= i < comps.len() ==> is_plain_component(#[trigger] comps[i]))
                && p.len() >= target.len() && p.subrange(0, target.len() as int) == target,
{
    let r = dest_dir_spec(target, config_template, camera_dirs, model, year, month, day);
    if let DestDirResultView::Dir(p) = r {
        let template = template_in_effect(config_template);
        let uses_camera = contains_seq(template, camera_tag());
        let found = first_match_from(camera_dirs, model, 0);
        let camera = if uses_camera { camera_dirs[found->0].1@ } else { Seq::<char>::empty() };
        let path = filled_template(template, camera, year, month, day);
        let segs = split_on(path, false);
        lemma_push_segments_kept(target, segs);
        lemma_split_on_segments_have_no_sep(path, false);
        lemma_split_on_chars_from_source(path, false);
        let comps = kept_segments(segs);
        assert forall|i: int| 0 <= i < comps.len() implies is_plain_component(#[trigger] comps[i]) by {
            let j = choose|j: int| 0 <= j < segs.len() && segs[j] == comps[i];
            assert(segs[j] != seq!['.', '.']);
            if comps[i].contains('/') {
                let w = choose|w: int| 0 <= w < comps[i].len() && comps[i][w] == '/';
                assert(segs[j][w] == '/');
            }
            if comps[i].contains('{') {
                let w = choose|w: int| 0 <= w < comps[i].len() && comps[i][w] == '{';
                assert(segs[j][w] == '{');
                assert(path.contains(segs[j][w]));
            }
            if comps[i].contains('}') {
                let w = choose|w: int| 0 <= w < comps[i].len() && comps[i][w] == '}';
                assert(segs[j][w] == '}');
                assert(path.contains(segs[j][w]));
            }
        }
        assert forall|i: int| 0 <= i < comps.len() implies !is_absolute_path(#[trigger] comps[i]) by {
            assert(is_plain_component(comps[i]));
            if is_absolute_path(comps[i]) {
                assert(comps[i].contains(comps[i][0]));
            }
        }
        lemma_push_all_prefix(target, comps);
    }
}

/// The `%Y`, `%m` and `%d` texts are non-empty and made of number characters.
proof fn lemma_date_texts_are_numbers(y: int, n: int)
    ensures
        all_number_chars(year_text(y)),
        year_text(y).len() >= 1,
        all_number_chars(two_digit_text(n)),
        two_digit_text(n).len() >= 1,
{
    lemma_dec_number_chars(y as nat, 4);
    lemma_dec_number_chars((-y) as nat, 4);
    lemma_dec_number_chars(n as nat, 2);
    if y > 9999 {
        let d = dec_padded(y as nat, 4);
        assert forall|i: int| 0 <= i < year_text(y).len() implies is_number_char(#[trigger] year_text(y)[i]) by {
            if i >= 1 {
                assert(year_text(y)[i] == d[i - 1]);
            }
        }
    } else if y < 0 {
        let d = dec_padded((-y) as nat, 4);
        assert forall|i: int| 0 <= i < year_text(y).len() implies is_number_char(#[trigger] year_text(y)[i]) by {
            if i >= 1 {
                assert(year_text(y)[i] == d[i - 1]);
            }
        }
    }
}

/// A date text shares no character with any of the four tags.
proof fn lemma_date_text_shares_no_char_with_tags(t: Seq<char>)
    requires
        all_number_chars(t),
    ensures
        shares_no_char(t, camera_tag()),
        shares_no_char(t, year_tag()),
        shares_no_char(t, month_tag()),
        shares_no_char(t, day_tag()),
{
    assert forall|j: int| 0 <= j < camera_tag().len() implies !is_number_char(#[trigger] camera_tag()[j]) by {}
    assert forall|j: int| 0 <= j < year_tag().len() implies !is_number_char(#[trigger] year_tag()[j]) by {}
    assert forall|j: int| 0 <= j < month_tag().len() implies !is_number_char(#[trigger] month_tag()[j]) by {}
    assert forall|j: int| 0 <= j < day_tag().len() implies !is_number_char(#[trigger] day_tag()[j]) by {}
    lemma_number_text_shares_no_char(t, camera_tag());
    lemma_number_text_shares_no_char(t, year_tag());
    lemma_number_text_shares_no_char(t, month_tag());
    lemma_number_text_shares_no_char(t, day_tag());
}

/// Every tag of a template is substituted, however often it occurs: after
/// filling in a date, no `{year}`, `{month}` or `{day}` is left, and no
/// `{camera}` either when the camera directory is not empty and has no
/// character of that tag.
pub proof fn law_no_tag_left(template: Seq<char>, camera: Seq<char>, y: int, m: int, d: int)
    ensures
        !contains_seq(filled_template(template, camera, year_text(y), two_digit_text(m), two_digit_text(d)), year_tag()),
        !contains_seq(filled_template(template, camera, year_text(y), two_digit_text(m), two_digit_text(d)), month_tag()),
        !contains_seq(filled_template(template, camera, year_text(y), two_digit_text(m), two_digit_text(d)), day_tag()),
        camera.len() > 0 && shares_no_char(camera, camera_tag()) ==> !contains_seq(
            filled_template(template, camera, year_text(y), two_digit_text(m), two_digit_text(d)),
            camera_tag(),
        ),
{
    let yt = year_text(y);
    let mt = two_digit_text(m);
    let dt = two_digit_text(d);
    lemma_date_texts_are_numbers(y, m);
    lemma_date_texts_are_numbers(y, d);
    lemma_date_text_shares_no_char_with_tags(yt);
    lemma_date_text_shares_no_char_with_tags(mt);
    lemma_date_text_shares_no_char_with_tags(dt);
    let t1 = replace_all(template, camera_tag(), camera);
    let t2 = replace_all(t1, year_tag(), yt);
    let t3 = replace_all(t2, month_tag(), mt);
    law_replace_all_leaves_no_pattern(t1, year_tag(), yt);
    law_replace_all_creates_no_pattern(t2, month_tag(), mt, year_tag());
    law_replace_all_creates_no_pattern(t3, day_tag(), dt, year_tag());
    law_replace_all_leaves_no_pattern(t2, month_tag(), mt);
    law_replace_all_creates_no_pattern(t3, day_tag(), dt, month_tag());
    law_replace_all_leaves_no_pattern(t3, day_tag(), dt);
    if camera.len() > 0 && shares_no_char(camera, camera_tag()) {
        law_replace_all_leaves_no_pattern(template, camera_tag(), camera);
        law_replace_all_creates_no_pattern(t1, year_tag(), yt, camera_tag());
        law_replace_all_creates_no_pattern(t2, month_tag(), mt, camera_tag());
        law_replace_all_creates_no_pattern(t3, day_tag(), dt, camera_tag());
    }
}

} // verus!
