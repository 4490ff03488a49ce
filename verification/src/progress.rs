//! Progress messages from the pipeline, the statistics gathered from them,
//! and the human-readable sizes and speeds shown to the user.

use vstd::prelude::*;
use crate::text::{dec, dec_padded, digit_char, push_dec, push_dec_padded};
use crate::timespan::{TimeSpan, max_span_nanos};
use crate::paths::{SourcePath, DestPath, sanitized};
use crate::counts::{CameraCounts, count_of, sum_counts};

verus! {

/// `2` raised to `e`.
pub open spec fn two_pow(e: nat) -> nat
    decreases e,
{
    if e == 0 { 1 } else { 2 * two_pow((e - 1) as nat) }
}

/// `2^53`: integers below it are exact in an `f64`.
pub open spec fn f64_exact_limit() -> nat {
    9007199254740992
}

/// The number of low bits an `f64` drops from `n` (searching from `e`).
pub open spec fn f64_shift_from(n: nat, e: nat) -> nat
    decreases 64 - e,
{
    if e >= 64 || n / two_pow(e) < f64_exact_limit() {
        e
    } else {
        f64_shift_from(n, e + 1)
    }
}

/// `num / den` rounded to the nearest integer, ties to the even one.
pub open spec fn round_half_even(num: nat, den: nat) -> nat {
    let q = num / den;
    let r = num % den;
    if 2 * r > den || (2 * r == den && q % 2 == 1) { q + 1 } else { q }
}

/// The value of `n as f64`: `n` rounded to 53 significant bits, ties to even.
pub open spec fn f64_value(n: nat) -> nat {
    let p = two_pow(f64_shift_from(n, 0));
    round_half_even(n, p) * p
}

pub open spec fn kib() -> nat { 1024 }
pub open spec fn mib() -> nat { 1048576 }
pub open spec fn gib() -> nat { 1073741824 }

/// A scaled value with two decimals: `n / 100` as `I.FF`.
pub open spec fn fixed2(n: nat) -> Seq<char> {
    dec(n / 100) + seq!['.'] + dec_padded(n % 100, 2)
}

/// A scaled value with one decimal: `n / 10` as `I.F`.
pub open spec fn fixed1(n: nat) -> Seq<char> {
    dec(n / 10) + seq!['.', digit_char(n % 10)]
}

/// A byte count for people: `x.xx GB`, `x.x MB`, `x.x KB` (binary units,
/// rounded to nearest with ties to even, as `{:.2}` / `{:.1}` print the
/// `f64` quotient) or `n B`.
pub open spec fn bytes_text(b: nat) -> Seq<char> {
    if b >= gib() {
        fixed2(round_half_even(f64_value(b) * 100, gib())) + seq![' ', 'G', 'B']
    } else if b >= mib() {
        fixed1(round_half_even(b * 10, mib())) + seq![' ', 'M', 'B']
    } else if b >= kib() {
        fixed1(round_half_even(b * 10, kib())) + seq![' ', 'K', 'B']
    } else {
        dec(b) + seq![' ', 'B']
    }
}

proof fn lemma_two_pow_pos(e: nat)
    ensures
        two_pow(e) >= 1,
    decreases e,
{
    if e > 0 {
        lemma_two_pow_pos((e - 1) as nat);
    }
}

proof fn lemma_two_pow_11()
    ensures
        two_pow(11) == 2048,
{
    reveal_with_fuel(two_pow, 12);
}

proof fn lemma_div_mono(n: nat, a: nat, b: nat)
    requires
        0 < a <= b,
    ensures
        n / b <= n / a,
{
    vstd::arithmetic::div_mod::lemma_div_is_ordered_by_denominator(n as int, a as int, b as int);
}

/// The value an `f64` holds for `n`, computed without floating point.
fn f64_value_exec(n: u64) -> (r: u128)
    ensures
        r == f64_value(n as nat),
        r <= 18446744073709553664,
{
    let mut e: u64 = 0;
    let mut p: u128 = 1;
    proof {
        assert(two_pow(0) == 1);
    }
    while e < 64 && (n as u128) / p >= 9007199254740992
        invariant
            e <= 64,
            p == two_pow(e as nat),
            p >= 1,
            f64_shift_from(n as nat, e as nat) == f64_shift_from(n as nat, 0),
            e <= 11,
            p <= 2048,
        decreases 64 - e,
    {
        proof {
            lemma_two_pow_11();
            if e >= 11 {
                // n < 2^64 = 2048 * 2^53, so n / 2^11 is already below 2^53.
                lemma_div_mono(n as nat, 2048, p as nat);
                assert((n as nat) / 2048 < 9007199254740992) by (nonlinear_arith)
                    requires (n as nat) < 18446744073709551616nat;
                assert(false);
            }
            lemma_two_pow_mono(e as nat, 10);
            reveal_with_fuel(two_pow, 11);
        }
        p = p * 2;
        e = e + 1;
    }
    let q = (n as u128) / p;
    let rem = (n as u128) % p;
    let rounded = if 2 * rem > p || (2 * rem == p && q % 2 == 1) { q + 1 } else { q };
    proof {
        assert(rounded <= q + 1);
        assert(q * p <= n as nat) by (nonlinear_arith)
            requires q == (n as nat) / (p as nat), p >= 1;
        assert(rounded * p <= (n as nat) + p) by (nonlinear_arith)
            requires rounded <= q + 1, q * p <= n as nat, p >= 1;
        assert(p <= 2048) by {
            lemma_two_pow_11();
            lemma_two_pow_mono(e as nat, 11);
        }
    }
    rounded * p
}

proof fn lemma_two_pow_mono(a: nat, b: nat)
    requires
        a <= b,
    ensures
        two_pow(a) <= two_pow(b),
    decreases b,
{
    if a < b {
        lemma_two_pow_mono(a, (b - 1) as nat);
        lemma_two_pow_pos((b - 1) as nat);
    }
}

fn push_fixed2(s: &mut String, n: u128)
    ensures
        final(s)@ == old(s)@ + fixed2(n as nat),
{
    push_dec(s, n / 100);
    s.push('.');
    push_dec_padded(s, n % 100, 2);
    assert(final(s)@ =~= old(s)@ + fixed2(n as nat));
}

pub(crate) fn push_fixed1(s: &mut String, n: u128)
    ensures
        final(s)@ == old(s)@ + fixed1(n as nat),
{
    push_dec(s, n / 10);
    s.push('.');
    push_dec(s, n % 10);
    assert(crate::text::dec((n % 10) as nat) == seq![digit_char((n % 10) as nat)]);
    assert(final(s)@ =~= old(s)@ + fixed1(n as nat));
}

pub(crate) fn round_half_even_exec(num: u128, den: u128) -> (r: u128)
    requires
        den > 0,
        num < 0xffff_ffff_ffff_ffff_ffff_ffff_ffff_fff0,
    ensures
        r == round_half_even(num as nat, den as nat),
{
    let q = num / den;
    let rem = num % den;
    if rem > den - rem || (rem == den - rem && q % 2 == 1) { q + 1 } else { q }
}

/// Formats a byte count as a human-readable string: "1.50 GB", "128.3 MB",
/// "4.2 KB" or "512 B".
pub fn format_bytes(bytes: u64) -> (r: String)
    ensures
        r@ == bytes_text(bytes as nat),
{
    let mut s = String::new();
    if bytes >= 1073741824 {
        let x = f64_value_exec(bytes);
        let n = round_half_even_exec(x * 100, 1073741824);
        push_fixed2(&mut s, n);
        s.push(' ');
        s.push('G');
        s.push('B');
    } else if bytes >= 1048576 {
        let n = round_half_even_exec((bytes as u128) * 10, 1048576);
        push_fixed1(&mut s, n);
        s.push(' ');
        s.push('M');
        s.push('B');
    } else if bytes >= 1024 {
        let n = round_half_even_exec((bytes as u128) * 10, 1024);
        push_fixed1(&mut s, n);
        s.push(' ');
        s.push('K');
        s.push('B');
    } else {
        push_dec(&mut s, bytes as u128);
        s.push(' ');
        s.push('B');
    }
    assert(s@ =~= bytes_text(bytes as nat));
    s
}

/// Progress messages sent from the workers of the pipeline to the display.
#[derive(Debug)]
pub enum ProgressMsg {
    /// A directory is being scanned.
    ScanningDir(SourcePath),
    /// A directory or file could not be read during the scan.
    ScanError { path: SourcePath, error: String },
    /// A regular file was found.
    FileFound,
    /// The scan has finished.
    ScanComplete,
    /// A file's metadata named its camera model.
    ExifExtracted { path: SourcePath, model: String },
    /// A copy has begun.
    CopyStarted { src: SourcePath, dest: DestPath, size: u64 },
    /// A copy has finished.
    CopyComplete { filename: String, size: u64, duration: TimeSpan },
    /// A file was not copied because an identical one is at the destination.
    CopySkipped { filename: String },
    /// A file could not be copied.
    CopyError { filename: String, error: String },
    /// A file of the same name but different contents is at the destination.
    SuspiciousDuplicate { src: SourcePath, dest: DestPath },
    /// The camera model has no directory in the configuration.
    UnknownCamera { model: String },
    /// All workers are done.
    Done,
}

/// The mathematical value of a `ProgressMsg`: paths and texts as
/// character sequences, spans in nanoseconds.
pub enum ProgressMsgView {
    ScanningDir(Seq<char>),
    ScanError(Seq<char>, Seq<char>),
    FileFound,
    ScanComplete,
    ExifExtracted(Seq<char>, Seq<char>),
    CopyStarted(Seq<char>, Seq<char>, u64),
    CopyComplete(Seq<char>, u64, nat),
    CopySkipped(Seq<char>),
    CopyError(Seq<char>, Seq<char>),
    SuspiciousDuplicate(Seq<char>, Seq<char>),
    UnknownCamera(Seq<char>),
    Done,
}

impl View for ProgressMsg {
    type V = ProgressMsgView;

    open spec fn view(&self) -> ProgressMsgView {
        match self {
            ProgressMsg::ScanningDir(p) => ProgressMsgView::ScanningDir(p.0@),
            ProgressMsg::ScanError { path, error } => ProgressMsgView::ScanError(path.0@, error@),
            ProgressMsg::FileFound => ProgressMsgView::FileFound,
            ProgressMsg::ScanComplete => ProgressMsgView::ScanComplete,
            ProgressMsg::ExifExtracted { path, model } => ProgressMsgView::ExifExtracted(path.0@, model@),
            ProgressMsg::CopyStarted { src, dest, size } => ProgressMsgView::CopyStarted(src.0@, dest.0@, *size),
            ProgressMsg::CopyComplete { filename, size, duration } => ProgressMsgView::CopyComplete(filename@, *size, duration@),
            ProgressMsg::CopySkipped { filename } => ProgressMsgView::CopySkipped(filename@),
            ProgressMsg::CopyError { filename, error } => ProgressMsgView::CopyError(filename@, error@),
            ProgressMsg::SuspiciousDuplicate { src, dest } => ProgressMsgView::SuspiciousDuplicate(src.0@, dest.0@),
            ProgressMsg::UnknownCamera { model } => ProgressMsgView::UnknownCamera(model@),
            ProgressMsg::Done => ProgressMsgView::Done,
        }
    }
}

impl Clone for ProgressMsg {
    fn clone(&self) -> (r: Self)
        ensures
            r@ == self@,
    {
        match self {
            ProgressMsg::ScanningDir(p) => ProgressMsg::ScanningDir(p.clone()),
            ProgressMsg::ScanError { path, error } => ProgressMsg::ScanError { path: path.clone(), error: error.clone() },
            ProgressMsg::FileFound => ProgressMsg::FileFound,
            ProgressMsg::ScanComplete => ProgressMsg::ScanComplete,
            ProgressMsg::ExifExtracted { path, model } => ProgressMsg::ExifExtracted { path: path.clone(), model: model.clone() },
            ProgressMsg::CopyStarted { src, dest, size } => ProgressMsg::CopyStarted { src: src.clone(), dest: dest.clone(), size: *size },
            ProgressMsg::CopyComplete { filename, size, duration } => ProgressMsg::CopyComplete {
                filename: filename.clone(),
                size: *size,
                duration: *duration,
            },
            ProgressMsg::CopySkipped { filename } => ProgressMsg::CopySkipped { filename: filename.clone() },
            ProgressMsg::CopyError { filename, error } => ProgressMsg::CopyError { filename: filename.clone(), error: error.clone() },
            ProgressMsg::SuspiciousDuplicate { src, dest } => ProgressMsg::SuspiciousDuplicate { src: src.clone(), dest: dest.clone() },
            ProgressMsg::UnknownCamera { model } => ProgressMsg::UnknownCamera { model: model.clone() },
            ProgressMsg::Done => ProgressMsg::Done,
        }
    }
}

/// The values of a list of messages.
pub open spec fn msgs_view(v: Seq<ProgressMsg>) -> Seq<ProgressMsgView> {
    v.map_values(|m: ProgressMsg| m@)
}

/// Summary statistics of a sync run.
#[derive(Debug)]
pub struct Summary {
    pub files_copied: u64,
    pub files_skipped: u64,
    /// Files that could not be copied or read, scan errors included.
    pub files_errored: u64,
    pub files_found: u64,
    pub bytes_copied: u64,
    pub total_duration: TimeSpan,
    /// Files that matched by name but had different contents.
    pub suspicious_duplicates: Vec<(SourcePath, DestPath)>,
    /// Camera models without a directory, with the number of files skipped.
    pub unknown_cameras: CameraCounts,
    /// The scan errors among `files_errored`.
    pub scan_errors: u64,
}

impl Default for Summary {
    fn default() -> (r: Self)
        ensures
            r.files_copied == 0,
            r.files_skipped == 0,
            r.files_errored == 0,
            r.files_found == 0,
            r.bytes_copied == 0,
            r.total_duration@ == 0,
            r.suspicious_duplicates@.len() == 0,
            r.unknown_cameras@.len() == 0,
            r.scan_errors == 0,
    {
        Summary {
            files_copied: 0,
            files_skipped: 0,
            files_errored: 0,
            files_found: 0,
            bytes_copied: 0,
            total_duration: TimeSpan::zero(),
            suspicious_duplicates: Vec::new(),
            unknown_cameras: CameraCounts::new(),
            scan_errors: 0,
        }
    }
}

/// The count of `model` after one more file of it.
pub open spec fn bumped(c: Option<u32>) -> u32 {
    match c {
        Some(n) => (n + 1) as u32,
        None => 1,
    }
}

/// Whether `msg` counts as an error in the summary.
pub open spec fn is_error_msg(msg: ProgressMsg) -> bool {
    msg is CopyError || msg is ScanError
}

/// Whether recording `msg` in `s` keeps every counter in range.
pub open spec fn update_fits(s: &Summary, msg: &ProgressMsg) -> bool {
    match *msg {
        ProgressMsg::FileFound => s.files_found < u64::MAX,
        ProgressMsg::CopyComplete { size, duration, .. } => {
            &&& s.files_copied < u64::MAX
            &&& s.bytes_copied + size <= u64::MAX
            &&& s.total_duration@ + duration@ <= max_span_nanos()
        },
        ProgressMsg::CopySkipped { .. } => s.files_skipped < u64::MAX,
        ProgressMsg::CopyError { .. } => s.files_errored < u64::MAX,
        ProgressMsg::ScanError { .. } => s.files_errored < u64::MAX && s.scan_errors < u64::MAX,
        ProgressMsg::UnknownCamera { model } => match count_of(s.unknown_cameras@, model@) {
            Some(n) => n < u32::MAX,
            None => true,
        },
        _ => true,
    }
}

/// Copies of all counted files: copied, skipped, errored and those of
/// unknown cameras.
pub open spec fn processed_total(s: &Summary) -> nat {
    (s.files_copied + s.files_skipped + s.files_errored + sum_counts(s.unknown_cameras@)) as nat
}

/// The effect of one progress message on the summary: each counter takes
/// its messages, duplicates are listed in order, unknown models counted.
pub open spec fn summary_step(old: &Summary, new: &Summary, msg: &ProgressMsg) -> bool {
    &&& new.files_found == old.files_found + (if *msg is FileFound { 1int } else { 0 })
    &&& new.files_copied == old.files_copied + (if *msg is CopyComplete { 1int } else { 0 })
    &&& new.bytes_copied == old.bytes_copied + (match *msg {
        ProgressMsg::CopyComplete { size, .. } => size as int,
        _ => 0,
    })
    &&& new.total_duration@ == old.total_duration@ + (match *msg {
        ProgressMsg::CopyComplete { duration, .. } => duration@ as int,
        _ => 0,
    })
    &&& new.files_skipped == old.files_skipped + (if *msg is CopySkipped { 1int } else { 0 })
    &&& new.files_errored == old.files_errored + (if is_error_msg(*msg) { 1int } else { 0 })
    &&& new.scan_errors == old.scan_errors + (if *msg is ScanError { 1int } else { 0 })
    &&& new.suspicious_duplicates@ == (match *msg {
        ProgressMsg::SuspiciousDuplicate { src, dest } => old.suspicious_duplicates@.push((src, dest)),
        _ => old.suspicious_duplicates@,
    })
    &&& match *msg {
        ProgressMsg::UnknownCamera { model } => {
            &&& count_of(new.unknown_cameras@, model@) == Some(bumped(count_of(old.unknown_cameras@, model@)))
            &&& forall|k: Seq<char>| k != model@ ==> count_of(new.unknown_cameras@, k) == count_of(old.unknown_cameras@, k)
            &&& sum_counts(new.unknown_cameras@) == sum_counts(old.unknown_cameras@) + 1
        },
        _ => new.unknown_cameras@ == old.unknown_cameras@,
    }
}

/// The processed files that had metadata: all processed files except
/// those that failed during the scan.
pub open spec fn exif_processed_count(s: &Summary) -> nat {
    if processed_total(s) >= s.scan_errors { (processed_total(s) - s.scan_errors) as nat } else { 0 }
}

impl Summary {
    /// Whether `update` can record `msg` without a counter leaving its range.
    pub fn can_update(&self, msg: &ProgressMsg) -> (r: bool)
        ensures
            r == update_fits(self, msg),
    {
        match msg {
            ProgressMsg::FileFound => self.files_found < u64::MAX,
            ProgressMsg::CopyComplete { size, duration, .. } => {
                self.files_copied < u64::MAX && self.bytes_copied <= u64::MAX - *size
                    && self.total_duration.checked_add(duration).is_some()
            },
            ProgressMsg::CopySkipped { .. } => self.files_skipped < u64::MAX,
            ProgressMsg::CopyError { .. } => self.files_errored < u64::MAX,
            ProgressMsg::ScanError { .. } => self.files_errored < u64::MAX && self.scan_errors < u64::MAX,
            ProgressMsg::UnknownCamera { model } => match self.unknown_cameras.get(model.as_str()) {
                Some(n) => n < u32::MAX,
                None => true,
            },
            _ => true,
        }
    }

    /// Records a progress message; returns whether it was `Done`.
    pub fn update(&mut self, msg: &ProgressMsg) -> (r: bool)
        requires
            update_fits(old(self), msg),
        ensures
            r == (*msg is Done),
            summary_step(old(self), final(self), msg),
    {
        match msg {
            ProgressMsg::FileFound => {
                self.files_found = self.files_found + 1;
            },
            ProgressMsg::CopyComplete { size, duration, .. } => {
                self.files_copied = self.files_copied + 1;
                self.bytes_copied = self.bytes_copied + *size;
                let total = self.total_duration.checked_add(duration);
                match total {
                    Some(t) => { self.total_duration = t; },
                    None => {},
                }
            },
            ProgressMsg::CopySkipped { .. } => {
                self.files_skipped = self.files_skipped + 1;
            },
            ProgressMsg::CopyError { .. } => {
                self.files_errored = self.files_errored + 1;
            },
            ProgressMsg::SuspiciousDuplicate { src, dest } => {
                self.suspicious_duplicates.push((src.clone(), dest.clone()));
            },
            ProgressMsg::ScanError { .. } => {
                self.files_errored = self.files_errored + 1;
                self.scan_errors = self.scan_errors + 1;
            },
            ProgressMsg::UnknownCamera { model } => {
                self.unknown_cameras.increment(model);
            },
            ProgressMsg::Done => {
                return true;
            },
            _ => {},
        }
        false
    }

    /// The number of files processed: copied, skipped, errored, or skipped
    /// for an unknown camera.
    pub fn total_processed(&self) -> (r: u64)
        requires
            processed_total(self) <= u64::MAX,
        ensures
            r == processed_total(self),
    {
        let unknown = self.unknown_cameras.total();
        (self.files_copied as u128 + self.files_skipped as u128 + self.files_errored as u128 + unknown) as u64
    }

    /// The number of files with metadata that have been processed: all
    /// processed files except those that failed during the scan.
    pub fn exif_processed(&self) -> (r: u64)
        requires
            processed_total(self) <= u64::MAX,
        ensures
            r == exif_processed_count(self),
    {
        let total = self.total_processed();
        if total >= self.scan_errors { total - self.scan_errors } else { 0 }
    }
}

/// `, N errors` when there were errors.
pub open spec fn errors_part(errored: nat) -> Seq<char> {
    if errored > 0 { ", "@ + dec(errored) + " errors"@ } else { Seq::<char>::empty() }
}

/// `, S overall` with the overall speed text `speed`, when something was
/// copied over a non-empty span.
pub open spec fn overall_speed_part(copied: nat, nanos: nat, speed: Seq<char>) -> Seq<char> {
    if copied > 0 && nanos > 0 {
        ", "@ + speed + " overall"@
    } else {
        Seq::<char>::empty()
    }
}

/// The lines naming each suspicious duplicate, source then destination,
/// each shown with control characters replaced.
pub open spec fn duplicate_lines(d: Seq<(SourcePath, DestPath)>) -> Seq<char>
    decreases d.len(),
{
    if d.len() == 0 {
        Seq::<char>::empty()
    } else {
        duplicate_lines(d.drop_last()) + "  Source: "@ + sanitized(d.last().0.0@) + "\n"@
            + "    Dest: "@ + sanitized(d.last().1.0@) + "\n"@
    }
}

/// The report on suspicious duplicates, empty when there are none.
pub open spec fn duplicates_report(d: Seq<(SourcePath, DestPath)>) -> Seq<char> {
    if d.len() == 0 {
        Seq::<char>::empty()
    } else {
        "\n"@ + "\nWARNING: "@ + dec(d.len())
            + " suspicious duplicate(s) found (same name, different contents):"@ + "\n"@
            + duplicate_lines(d)
    }
}

/// One line per unknown camera model, in key order, with its count.
pub open spec fn model_lines(c: Seq<(Seq<char>, u32)>) -> Seq<char>
    decreases c.len(),
{
    if c.len() == 0 {
        Seq::<char>::empty()
    } else {
        model_lines(c.drop_last()) + "  \""@ + c.last().0 + "\": "@ + dec(c.last().1 as nat)
            + " file(s)"@ + "\n"@
    }
}

/// The report on unknown camera models, empty when there are none.
pub open spec fn unknown_report(c: Seq<(Seq<char>, u32)>) -> Seq<char> {
    if c.len() == 0 {
        Seq::<char>::empty()
    } else {
        "\n"@ + "\nWARNING: "@ + dec(sum_counts(c))
            + " file(s) skipped due to unknown camera model(s):"@ + "\n"@ + model_lines(c)
            + "Run 'photosync --init' to create a config, or edit your config to add mappings."@
            + "\n"@
    }
}

/// The summary as it is printed at the end of a run, with `speed` as the
/// text of the overall speed.
pub open spec fn summary_text(s: &Summary, speed: Seq<char>) -> Seq<char> {
    "Summary: "@ + dec(s.files_copied as nat) + " copied, "@ + dec(s.files_skipped as nat)
        + " skipped (duplicates), "@ + dec(s.files_found as nat) + " total files found"@
        + errors_part(s.files_errored as nat)
        + overall_speed_part(s.files_copied as nat, s.total_duration@, speed)
        + duplicates_report(s.suspicious_duplicates@)
        + unknown_report(s.unknown_cameras@)
}

impl Summary {
    /// The summary as text: the counts, the overall speed, then the
    /// reports on suspicious duplicates and unknown camera models.
    /// `overall_speed` is the text of the bytes copied over the total copy
    /// time, which the caller works out in floating point; it is shown only
    /// when something was copied over a non-empty span.
    pub fn to_string(&self, overall_speed: &str) -> (r: String)
        requires
            sum_counts(self.unknown_cameras@) <= u32::MAX,
        ensures
            r@ == summary_text(self, overall_speed@),
    {
        let mut s = String::new();
        s.append("Summary: ");
        push_dec(&mut s, self.files_copied as u128);
        s.append(" copied, ");
        push_dec(&mut s, self.files_skipped as u128);
        s.append(" skipped (duplicates), ");
        push_dec(&mut s, self.files_found as u128);
        s.append(" total files found");
        if self.files_errored > 0 {
            s.append(", ");
            push_dec(&mut s, self.files_errored as u128);
            s.append(" errors");
        }
        if self.files_copied > 0 && !self.total_duration.is_zero() {
            s.append(", ");
            s.append(overall_speed);
            s.append(" overall");
        }
        let ghost head = s@;
        assert(head =~= "Summary: "@ + dec(self.files_copied as nat) + " copied, "@ + dec(self.files_skipped as nat)
            + " skipped (duplicates), "@ + dec(self.files_found as nat) + " total files found"@
            + errors_part(self.files_errored as nat)
            + overall_speed_part(self.files_copied as nat, self.total_duration@, overall_speed@));
        self.push_duplicates_report(&mut s);
        self.push_unknown_report(&mut s);
        s
    }

    fn push_duplicates_report(&self, s: &mut String)
        ensures
            final(s)@ == old(s)@ + duplicates_report(self.suspicious_duplicates@),
    {
        let d = &self.suspicious_duplicates;
        if d.len() == 0 {
            assert(old(s)@ + duplicates_report(d@) =~= old(s)@);
            return;
        }
        s.append("\n");
        s.append("\nWARNING: ");
        push_dec(s, d.len() as u128);
        s.append(" suspicious duplicate(s) found (same name, different contents):");
        s.append("\n");
        let ghost start = s@;
        let mut i: usize = 0;
        assert(d@.subrange(0, 0) =~= Seq::<(SourcePath, DestPath)>::empty());
        while i < d.len()
            invariant
                i <= d.len(),
                s@ == start + duplicate_lines(d@.subrange(0, i as int)),
            decreases d.len() - i,
        {
            s.append("  Source: ");
            let src = d[i].0.to_string();
            s.append(src.as_str());
            s.append("\n");
            s.append("    Dest: ");
            let dst = d[i].1.to_string();
            s.append(dst.as_str());
            s.append("\n");
            let ghost next = d@.subrange(0, i + 1);
            assert(next.drop_last() =~= d@.subrange(0, i as int));
            assert(next.last() == d@[i as int]);
            i = i + 1;
            assert(s@ =~= start + duplicate_lines(d@.subrange(0, i as int)));
        }
        assert(d@.subrange(0, d.len() as int) =~= d@);
        assert(s@ =~= old(s)@ + duplicates_report(d@));
    }

    fn push_unknown_report(&self, s: &mut String)
        requires
            sum_counts(self.unknown_cameras@) <= u32::MAX,
        ensures
            final(s)@ == old(s)@ + unknown_report(self.unknown_cameras@),
    {
        let c = &self.unknown_cameras;
        if c.is_empty() {
            assert(old(s)@ + unknown_report(c@) =~= old(s)@);
            return;
        }
        s.append("\n");
        s.append("\nWARNING: ");
        let total = c.total();
        push_dec(s, total);
        s.append(" file(s) skipped due to unknown camera model(s):");
        s.append("\n");
        let ghost start = s@;
        let mut i: usize = 0;
        assert(c@.subrange(0, 0) =~= Seq::<(Seq<char>, u32)>::empty());
        while i < c.len()
            invariant
                i <= c@.len(),
                s@ == start + model_lines(c@.subrange(0, i as int)),
            decreases c@.len() - i,
        {
            let (model, count) = c.entry(i);
            s.append("  \"");
            s.append(model);
            s.append("\": ");
            push_dec(s, count as u128);
            s.append(" file(s)");
            s.append("\n");
            let ghost next = c@.subrange(0, i + 1);
            assert(next.drop_last() =~= c@.subrange(0, i as int));
            assert(next.last() == c@[i as int]);
            i = i + 1;
            assert(s@ =~= start + model_lines(c@.subrange(0, i as int)));
        }
        assert(c@.subrange(0, c@.len() as int) =~= c@);
        s.append("Run 'photosync --init' to create a config, or edit your config to add mappings.");
        s.append("\n");
        assert(s@ =~= old(s)@ + unknown_report(c@));
    }
}

/// Whether `msg` reports the outcome of one file: copied, skipped, failed,
/// or skipped for an unknown camera.
pub open spec fn is_outcome_msg(msg: ProgressMsg) -> bool {
    msg is CopyComplete || msg is CopySkipped || msg is CopyError || msg is ScanError
        || msg is UnknownCamera
}

/// Each outcome of a file adds exactly one to the processed files; every
/// other message leaves the count as it was.
pub proof fn law_processed_counts_outcomes(old: &Summary, new: &Summary, msg: &ProgressMsg)
    requires
        summary_step(old, new, msg),
    ensures
        processed_total(new) == processed_total(old) + (if is_outcome_msg(*msg) { 1int } else { 0 }),
{
}

/// A scan error is counted among the errors but not among the processed
/// files with metadata.
pub proof fn law_scan_error_keeps_exif_processed(old: &Summary, new: &Summary, msg: &ProgressMsg)
    requires
        summary_step(old, new, msg),
        *msg is ScanError,
    ensures
        new.files_errored == old.files_errored + 1,
        exif_processed_count(new) == exif_processed_count(old),
{
}

/// The time taken by the finished copies among `msgs`.
pub open spec fn copy_time(msgs: Seq<ProgressMsg>) -> nat
    decreases msgs.len(),
{
    if msgs.len() == 0 {
        0
    } else {
        copy_time(msgs.drop_last()) + match msgs.last() {
            ProgressMsg::CopyComplete { duration, .. } => duration@,
            _ => 0,
        }
    }
}

/// The bytes of the finished copies among `msgs`.
pub open spec fn copied_bytes(msgs: Seq<ProgressMsg>) -> nat
    decreases msgs.len(),
{
    if msgs.len() == 0 {
        0
    } else {
        copied_bytes(msgs.drop_last()) + match msgs.last() {
            ProgressMsg::CopyComplete { size, .. } => size as nat,
            _ => 0,
        }
    }
}

/// The number of finished copies among `msgs`.
pub open spec fn copy_count(msgs: Seq<ProgressMsg>) -> nat
    decreases msgs.len(),
{
    if msgs.len() == 0 {
        0
    } else {
        copy_count(msgs.drop_last()) + if msgs.last() is CopyComplete { 1nat } else { 0nat }
    }
}

/// Over any run of messages, the summary accumulates every finished copy:
/// the total copy time grows by the sum of their times, the bytes copied by
/// the sum of their sizes, and the files copied by their number (so the
/// overall speed is all bytes over all copy time).
pub proof fn law_summary_accumulates_copies(states: Seq<Summary>, msgs: Seq<ProgressMsg>)
    requires
        states.len() == msgs.len() + 1,
        forall|i: int| 0 <= i < msgs.len() ==> #[trigger] summary_step(&states[i], &states[i + 1], &msgs[i]),
    ensures
        states.last().total_duration@ == states[0].total_duration@ + copy_time(msgs),
        states.last().bytes_copied == states[0].bytes_copied + copied_bytes(msgs),
        states.last().files_copied == states[0].files_copied + copy_count(msgs),
    decreases msgs.len(),
{
    if msgs.len() > 0 {
        let n = msgs.len() as int;
        let s2 = states.drop_last();
        let m2 = msgs.drop_last();
        assert forall|i: int| 0 <= i < m2.len() implies #[trigger] summary_step(&s2[i], &s2[i + 1], &m2[i]) by {
            assert(summary_step(&states[i], &states[i + 1], &msgs[i]));
        }
        law_summary_accumulates_copies(s2, m2);
        assert(summary_step(&states[n - 1], &states[n], &msgs[n - 1]));
        assert(s2.last() == states[n - 1]);
    }
}

} // verus!
