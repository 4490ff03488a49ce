//! The state of the interactive progress display: the counters, the rolling
//! window of recent copies that gives the speed and the time left, the log
//! of recent activity, and the texts shown for them.

use vstd::prelude::*;
use std::collections::VecDeque;
use std::time::Instant;
use crate::text::{dec, dec_padded, push_dec, push_dec_padded};
use crate::timespan::{TimeSpan, max_span_nanos};
use crate::paths::{SourcePath, DestPath, sanitized, file_name_of, sanitize_str};
use crate::progress::{
    ProgressMsg, Summary, summary_step, update_fits, processed_total, exif_processed_count,
    bytes_text, format_bytes,
};

verus! {

/// The number of recent copies that the speed and the time left are taken from.
pub const SPEED_WINDOW_SIZE: usize = 10;

/// The number of entries kept in the activity log.
pub const HISTORY_SIZE: usize = 100;

/// The number of frames of the spinner animation.
pub const SPINNER_FRAMES: usize = 14;

/// The frames of the spinner animation: a bar that rises and falls.
pub open spec fn spinner_frame(i: int) -> char {
    if i == 0 { ' ' }
    else if i == 1 || i == 13 { '▂' }
    else if i == 2 || i == 12 { '▃' }
    else if i == 3 || i == 11 { '▄' }
    else if i == 4 || i == 10 { '▅' }
    else if i == 5 || i == 9 { '▆' }
    else if i == 6 || i == 8 { '▇' }
    else { '█' }
}

/// `std::time::Instant`, a reading of a monotonic clock.
#[verifier::external_type_specification]
#[verifier::external_body]
pub struct ExInstant(std::time::Instant);

/// `Instant::now`: the current reading of the monotonic clock. Nothing is
/// stated of the value.
#[verifier::external_body]
fn clock_now() -> (r: Instant) {
    Instant::now()
}

/// `Instant::elapsed`: the time since `start`, as whole seconds and the
/// nanoseconds beyond them. Only the range of the second part is stated
/// (`Duration::subsec_nanos` is documented to be below one billion); the
/// value depends on the clock.
#[verifier::external_body]
fn clock_elapsed(start: &Instant) -> (r: (u64, u32))
    ensures
        r.1 < 1000000000,
{
    let d = start.elapsed();
    (d.as_secs(), d.subsec_nanos())
}

/// How an entry of the activity log is shown.
#[derive(Debug, Clone, Copy, PartialEq, Eq, Structural)]
pub enum Tone {
    Plain,
    Green,
    Yellow,
    Red,
    LightRed,
    Magenta,
}

/// The colour of the display's border, which tells the state of the run.
#[derive(Debug, Clone, Copy, PartialEq, Eq, Structural)]
pub enum StatusColor {
    /// Still running.
    Cyan,
    /// Done without trouble.
    Green,
    /// Done, with suspicious duplicates or unknown cameras.
    Yellow,
    /// Done, with errors.
    Red,
}

/// An entry of the activity log.
#[derive(Debug)]
pub struct RecentItem {
    pub text: String,
    pub tone: Tone,
}

/// The entries of the activity log as text and tone, most recent first.
pub open spec fn recent_view(items: Seq<RecentItem>) -> Seq<(Seq<char>, Tone)> {
    items.map_values(|it: RecentItem| (it.text@, it.tone))
}

/// The log after `item` is added in front: when it is full (and not
/// empty), the oldest entry leaves.
pub open spec fn pushed_recent(items: Seq<(Seq<char>, Tone)>, max: nat, item: (Seq<char>, Tone)) -> Seq<(Seq<char>, Tone)> {
    if items.len() >= max && items.len() > 0 {
        seq![item] + items.drop_last()
    } else {
        seq![item] + items
    }
}

/// The window of recent copies after `e` is added at the back: when it
/// holds the full window, the oldest copy leaves.
pub open spec fn pushed_window(w: Seq<(u64, TimeSpan)>, e: (u64, TimeSpan)) -> Seq<(u64, TimeSpan)> {
    if w.len() >= SPEED_WINDOW_SIZE {
        w.drop_first().push(e)
    } else {
        w.push(e)
    }
}

/// State of the interactive display.
pub struct App {
    /// The statistics shared with the line-by-line display.
    pub summary: Summary,
    pub scanning_dir: Option<SourcePath>,
    pub scan_complete: bool,
    pub files_with_exif: u64,
    /// The copy under way: source, destination and size.
    pub current_file: Option<(SourcePath, DestPath, u64)>,
    /// The most recent copies, oldest first: bytes and time taken.
    pub recent_copies: VecDeque<(u64, TimeSpan)>,
    /// The activity log, most recent first.
    pub recent_items: VecDeque<RecentItem>,
    pub max_recent_items: usize,
    pub done: bool,
    pub spinner_idx: usize,
    pub start_time: Instant,
    /// The length of the run, once it is done.
    pub total_time: Option<TimeSpan>,
}

impl App {
    /// A display at the start of a run, keeping `size` log entries.
    pub fn with_history_size(size: usize) -> (r: Self)
        ensures
            r.summary.files_copied == 0,
            r.summary.files_skipped == 0,
            r.summary.files_errored == 0,
            r.summary.files_found == 0,
            r.summary.bytes_copied == 0,
            r.summary.total_duration@ == 0,
            r.summary.suspicious_duplicates@.len() == 0,
            r.summary.unknown_cameras@.len() == 0,
            r.summary.scan_errors == 0,
            r.scanning_dir is None,
            !r.scan_complete,
            r.files_with_exif == 0,
            r.current_file is None,
            r.recent_copies@.len() == 0,
            r.recent_items@.len() == 0,
            r.max_recent_items == size,
            !r.done,
            r.spinner_idx == 0,
            r.total_time is None,
    {
        App {
            summary: Summary::default(),
            scanning_dir: None,
            scan_complete: false,
            files_with_exif: 0,
            current_file: None,
            recent_copies: VecDeque::with_capacity(SPEED_WINDOW_SIZE),
            recent_items: VecDeque::with_capacity(size),
            max_recent_items: size,
            done: false,
            spinner_idx: 0,
            start_time: clock_now(),
            total_time: None,
        }
    }

    /// Advances the spinner by one frame.
    pub fn tick(&mut self)
        requires
            old(self).spinner_idx < usize::MAX,
        ensures
            final(self).spinner_idx == (old(self).spinner_idx + 1) % (SPINNER_FRAMES as int),
            final(self).spinner_idx < SPINNER_FRAMES,
            final(self).summary == old(self).summary,
            final(self).scanning_dir == old(self).scanning_dir,
            final(self).scan_complete == old(self).scan_complete,
            final(self).files_with_exif == old(self).files_with_exif,
            final(self).current_file == old(self).current_file,
            final(self).recent_copies == old(self).recent_copies,
            final(self).recent_items == old(self).recent_items,
            final(self).max_recent_items == old(self).max_recent_items,
            final(self).done == old(self).done,
            final(self).start_time == old(self).start_time,
            final(self).total_time == old(self).total_time,
    {
        self.spinner_idx = (self.spinner_idx + 1) % SPINNER_FRAMES;
    }

    /// The current frame of the spinner.
    pub fn spinner(&self) -> (r: &'static str)
        requires
            self.spinner_idx < SPINNER_FRAMES,
        ensures
            r@ == seq![spinner_frame(self.spinner_idx as int)],
    {
        let i = self.spinner_idx;
        if i == 0 {
            proof { reveal_strlit(" "); }
            " "
        } else if i == 1 || i == 13 {
            proof { reveal_strlit("▂"); }
            "▂"
        } else if i == 2 || i == 12 {
            proof { reveal_strlit("▃"); }
            "▃"
        } else if i == 3 || i == 11 {
            proof { reveal_strlit("▄"); }
            "▄"
        } else if i == 4 || i == 10 {
            proof { reveal_strlit("▅"); }
            "▅"
        } else if i == 5 || i == 9 {
            proof { reveal_strlit("▆"); }
            "▆"
        } else if i == 6 || i == 8 {
            proof { reveal_strlit("▇"); }
            "▇"
        } else {
            proof { reveal_strlit("█"); }
            "█"
        }
    }

    /// Adds an entry in front of the activity log, dropping the oldest one
    /// when the log is full.
    pub fn add_recent(&mut self, text: String, tone: Tone)
        ensures
            recent_view(final(self).recent_items@)
                == pushed_recent(recent_view(old(self).recent_items@), old(self).max_recent_items as nat, (text@, tone)),
            final(self).max_recent_items == old(self).max_recent_items,
    {
        let ghost before = recent_view(self.recent_items@);
        if self.recent_items.len() >= self.max_recent_items {
            self.recent_items.pop_back();
        }
        self.recent_items.push_front(RecentItem { text, tone });
        proof {
            let after = recent_view(self.recent_items@);
            let expected = pushed_recent(before, old(self).max_recent_items as nat, (text@, tone));
            assert(after.len() == expected.len());
            assert forall|i: int| 0 <= i < after.len() implies after[i] == expected[i] by {
                if i > 0 {
                    assert(after[i] == before[i - 1]);
                }
            }
            assert(after =~= expected);
        }
    }
}

impl Default for App {
    fn default() -> (r: Self)
        ensures
            r.summary.files_copied == 0,
            r.summary.files_skipped == 0,
            r.summary.files_errored == 0,
            r.summary.files_found == 0,
            r.summary.bytes_copied == 0,
            r.summary.total_duration@ == 0,
            r.summary.suspicious_duplicates@.len() == 0,
            r.summary.unknown_cameras@.len() == 0,
            r.summary.scan_errors == 0,
            r.scanning_dir is None,
            !r.scan_complete,
            r.files_with_exif == 0,
            r.current_file is None,
            r.recent_copies@.len() == 0,
            r.recent_items@.len() == 0,
            r.max_recent_items == HISTORY_SIZE,
            !r.done,
            r.spinner_idx == 0,
            r.total_time is None,
    {
        App::with_history_size(HISTORY_SIZE)
    }
}

/// A span as a clock: `MM:SS`, or `HH:MM:SS` from one hour on (whole
/// seconds, two digits at least for each part).
pub open spec fn clock_text(nanos: nat) -> Seq<char> {
    let t = nanos / 1000000000;
    let h = t / 3600;
    let m = (t % 3600) / 60;
    let s = t % 60;
    if h > 0 {
        dec_padded(h, 2) + seq![':'] + dec_padded(m, 2) + seq![':'] + dec_padded(s, 2)
    } else {
        dec_padded(m, 2) + seq![':'] + dec_padded(s, 2)
    }
}

/// Formats a span as a clock: `MM:SS`, or `HH:MM:SS` from one hour on.
pub fn format_duration(d: TimeSpan) -> (r: String)
    ensures
        r@ == clock_text(d@),
{
    let total = d.as_secs();
    let hours = total / 3600;
    let minutes = (total % 3600) / 60;
    let seconds = total % 60;
    let mut s = String::new();
    if hours > 0 {
        push_dec_padded(&mut s, hours as u128, 2);
        s.push(':');
    }
    push_dec_padded(&mut s, minutes as u128, 2);
    s.push(':');
    push_dec_padded(&mut s, seconds as u128, 2);
    assert(s@ =~= clock_text(d@));
    s
}

/// The border colour for the state of the run.
pub open spec fn status_color_spec(app: &App) -> StatusColor {
    if app.done {
        if app.summary.files_errored > 0 {
            StatusColor::Red
        } else if app.summary.suspicious_duplicates@.len() > 0 || app.summary.unknown_cameras@.len() > 0 {
            StatusColor::Yellow
        } else {
            StatusColor::Green
        }
    } else {
        StatusColor::Cyan
    }
}

/// The border colour: cyan while running; once done, red after errors,
/// yellow after warnings, green otherwise.
pub fn get_status_color(app: &App) -> (r: StatusColor)
    ensures
        r == status_color_spec(app),
{
    if app.done {
        if app.summary.files_errored > 0 {
            StatusColor::Red
        } else if app.summary.suspicious_duplicates.len() > 0 || !app.summary.unknown_cameras.is_empty() {
            StatusColor::Yellow
        } else {
            StatusColor::Green
        }
    } else {
        StatusColor::Cyan
    }
}

/// The name shown for a source path: its final component, or the whole
/// path when it has none, with control characters replaced.
pub open spec fn shown_file_name(p: Seq<char>) -> Seq<char> {
    match file_name_of(p) {
        Some(n) => sanitized(n),
        None => sanitized(p),
    }
}

/// The entry a message adds to the activity log, if any; `secs` is the
/// text of a finished copy's time in seconds.
pub open spec fn activity_item(msg: ProgressMsg, secs: Seq<char>) -> Option<(Seq<char>, Tone)> {
    match msg {
        ProgressMsg::CopyComplete { filename, size, .. } => Some((
            "✓ "@ + filename@ + "  "@ + bytes_text(size as nat) + "  "@ + secs + "s"@,
            Tone::Green,
        )),
        ProgressMsg::CopySkipped { filename } => Some(("⚠ "@ + filename@ + "  (already exists)"@, Tone::Yellow)),
        ProgressMsg::CopyError { filename, error } => Some(("✗ "@ + filename@ + "  "@ + error@, Tone::Red)),
        ProgressMsg::SuspiciousDuplicate { src, .. } => Some((
            "⚠ "@ + shown_file_name(src.0@) + "  (CONTENTS DIFFER!)"@,
            Tone::LightRed,
        )),
        ProgressMsg::UnknownCamera { model } => Some(("⊘ Unknown camera: "@ + model@, Tone::Magenta)),
        ProgressMsg::ScanError { path, error } => Some((
            "! Scan Error: "@ + sanitized(path.0@) + ": "@ + error@,
            Tone::Red,
        )),
        _ => None,
    }
}

/// The effect of one progress message on the display.
pub open spec fn app_step(old: &App, new: &App, msg: ProgressMsg, secs: Seq<char>) -> bool {
    &&& summary_step(&old.summary, &new.summary, &msg)
    &&& new.done == (msg is Done)
    &&& (msg is Done && old.total_time is None) ==> new.total_time is Some
    &&& !(msg is Done && old.total_time is None) ==> new.total_time == old.total_time
    &&& new.scanning_dir == (match msg {
        ProgressMsg::ScanningDir(p) => Some(p),
        _ => old.scanning_dir,
    })
    &&& new.scan_complete == (old.scan_complete || msg is ScanComplete)
    &&& new.files_with_exif == old.files_with_exif + (if msg is ExifExtracted { 1int } else { 0 })
    &&& new.current_file == (match msg {
        ProgressMsg::CopyStarted { src, dest, size } => Some((src, dest, size)),
        ProgressMsg::CopyComplete { .. } => None,
        _ => old.current_file,
    })
    &&& new.recent_copies@ == (match msg {
        ProgressMsg::CopyComplete { size, duration, .. } => pushed_window(old.recent_copies@, (size, duration)),
        _ => old.recent_copies@,
    })
    &&& recent_view(new.recent_items@) == (match activity_item(msg, secs) {
        Some(it) => pushed_recent(recent_view(old.recent_items@), old.max_recent_items as nat, it),
        None => recent_view(old.recent_items@),
    })
    &&& new.max_recent_items == old.max_recent_items
    &&& new.spinner_idx == old.spinner_idx
    &&& new.start_time == old.start_time
}

/// Whether the display can take `msg` without a counter leaving its range.
pub open spec fn handle_fits(app: &App, msg: &ProgressMsg) -> bool {
    &&& update_fits(&app.summary, msg)
    &&& (*msg is ExifExtracted ==> app.files_with_exif < u64::MAX)
}

fn push_recent(items: &mut VecDeque<RecentItem>, max: usize, item: RecentItem)
    ensures
        recent_view(final(items)@) == pushed_recent(recent_view(old(items)@), max as nat, (item.text@, item.tone)),
{
    let ghost before = recent_view(items@);
    let ghost it = (item.text@, item.tone);
    if items.len() >= max {
        items.pop_back();
    }
    items.push_front(item);
    proof {
        let after = recent_view(items@);
        let expected = pushed_recent(before, max as nat, it);
        assert(after.len() == expected.len());
        assert forall|i: int| 0 <= i < after.len() implies after[i] == expected[i] by {
            if i > 0 {
                assert(after[i] == before[i - 1]);
            }
        }
        assert(after =~= expected);
    }
}

fn push_window(w: &mut VecDeque<(u64, TimeSpan)>, e: (u64, TimeSpan))
    ensures
        final(w)@ == pushed_window(old(w)@, e),
{
    if w.len() >= SPEED_WINDOW_SIZE {
        w.pop_front();
    }
    w.push_back(e);
    assert(w@ =~= pushed_window(old(w)@, e));
}

fn activity_text(msg: &ProgressMsg, secs: &str) -> (r: Option<RecentItem>)
    ensures
        match activity_item(*msg, secs@) {
            Some(it) => r matches Some(item) && item.text@ == it.0 && item.tone == it.1,
            None => r is None,
        },
{
    let mut t = String::new();
    match msg {
        ProgressMsg::CopyComplete { filename, size, .. } => {
            let size_str = format_bytes(*size);
            t.append("✓ ");
            t.append(filename.as_str());
            t.append("  ");
            t.append(size_str.as_str());
            t.append("  ");
            t.append(secs);
            t.append("s");
            Some(RecentItem { text: t, tone: Tone::Green })
        },
        ProgressMsg::CopySkipped { filename } => {
            t.append("⚠ ");
            t.append(filename.as_str());
            t.append("  (already exists)");
            Some(RecentItem { text: t, tone: Tone::Yellow })
        },
        ProgressMsg::CopyError { filename, error } => {
            t.append("✗ ");
            t.append(filename.as_str());
            t.append("  ");
            t.append(error.as_str());
            Some(RecentItem { text: t, tone: Tone::Red })
        },
        ProgressMsg::SuspiciousDuplicate { src, .. } => {
            let name = match src.file_name() {
                Some(n) => sanitize_str(n.as_str()),
                None => src.to_string(),
            };
            t.append("⚠ ");
            t.append(name.as_str());
            t.append("  (CONTENTS DIFFER!)");
            Some(RecentItem { text: t, tone: Tone::LightRed })
        },
        ProgressMsg::UnknownCamera { model } => {
            t.append("⊘ Unknown camera: ");
            t.append(model.as_str());
            Some(RecentItem { text: t, tone: Tone::Magenta })
        },
        ProgressMsg::ScanError { path, error } => {
            let shown = path.to_string();
            t.append("! Scan Error: ");
            t.append(shown.as_str());
            t.append(": ");
            t.append(error.as_str());
            Some(RecentItem { text: t, tone: Tone::Red })
        },
        _ => None,
    }
}

impl App {
    /// Whether `handle_message` can take `msg` without a counter leaving
    /// its range.
    pub fn can_handle(&self, msg: &ProgressMsg) -> (r: bool)
        ensures
            r == handle_fits(self, msg),
    {
        let fits_exif = match msg {
            ProgressMsg::ExifExtracted { .. } => self.files_with_exif < u64::MAX,
            _ => true,
        };
        self.summary.can_update(msg) && fits_exif
    }

    /// Takes a progress message: the summary records it, the run ends on
    /// `Done` (its length is noted the first time), and the display's own
    /// state and activity log follow the message. For a finished copy,
    /// `copy_secs` is its time in seconds as the log shows it (`{:.1}` of the
    /// floating-point seconds, which the caller works out); other messages
    /// do not use it.
    pub fn handle_message(&mut self, msg: ProgressMsg, copy_secs: &str)
        requires
            handle_fits(old(self), &msg),
        ensures
            app_step(old(self), final(self), msg, copy_secs@),
    {
        self.done = self.summary.update(&msg);
        if self.done && self.total_time.is_none() {
            let (secs, nanos) = clock_elapsed(&self.start_time);
            self.total_time = Some(TimeSpan::from_secs_nanos(secs, nanos));
        }
        let item = activity_text(&msg, copy_secs);
        match item {
            Some(it) => push_recent(&mut self.recent_items, self.max_recent_items, it),
            None => {},
        }
        match msg {
            ProgressMsg::ScanningDir(path) => {
                self.scanning_dir = Some(path);
            },
            ProgressMsg::ScanComplete => {
                self.scan_complete = true;
            },
            ProgressMsg::ExifExtracted { .. } => {
                self.files_with_exif = self.files_with_exif + 1;
            },
            ProgressMsg::CopyStarted { src, dest, size } => {
                self.current_file = Some((src, dest, size));
            },
            ProgressMsg::CopyComplete { size, duration, .. } => {
                self.current_file = None;
                push_window(&mut self.recent_copies, (size, duration));
            },
            _ => {},
        }
    }
}

/// The time taken by the copies of a window.
pub open spec fn durations_total(w: Seq<(u64, TimeSpan)>) -> nat
    decreases w.len(),
{
    if w.len() == 0 { 0 } else { durations_total(w.drop_last()) + w.last().1@ }
}

/// The bytes moved by the copies of a window.
pub open spec fn bytes_total(w: Seq<(u64, TimeSpan)>) -> nat
    decreases w.len(),
{
    if w.len() == 0 { 0 } else { bytes_total(w.drop_last()) + w.last().0 as nat }
}

/// The files with metadata that are not processed yet (none when more
/// were processed than found).
pub open spec fn remaining_files(app: &App) -> nat {
    let done = exif_processed_count(&app.summary);
    if app.files_with_exif >= done { (app.files_with_exif - done) as nat } else { 0 }
}

/// The figures the time left is estimated from, when it is estimated: the
/// time the recent copies took (in nanoseconds), their number, and the files
/// with metadata still to process. There is no estimate before the scan is
/// complete, once the run is done, without a timed copy, when no file
/// remains, or when the recent copies took no time.
pub open spec fn eta_figures(app: &App) -> Option<(nat, nat, nat)> {
    if !app.scan_complete || app.done || app.recent_copies@.len() == 0 || remaining_files(app) == 0
        || durations_total(app.recent_copies@) == 0 {
        None
    } else {
        Some((durations_total(app.recent_copies@), app.recent_copies@.len(), remaining_files(app)))
    }
}

/// Whether the figures of the estimate stay in range: the processed count
/// and the time of the window.
pub open spec fn eta_fits(app: &App) -> bool {
    (app.scan_complete && !app.done && app.recent_copies@.len() > 0) ==> {
        &&& processed_total(&app.summary) <= u64::MAX
        &&& remaining_files(app) > 0 ==> durations_total(app.recent_copies@) <= max_span_nanos()
    }
}

proof fn lemma_window_prefix(w: Seq<(u64, TimeSpan)>, i: int)
    requires
        0 <= i <= w.len(),
    ensures
        durations_total(w.subrange(0, i)) <= durations_total(w),
        bytes_total(w.subrange(0, i)) <= bytes_total(w),
    decreases w.len() - i,
{
    if i < w.len() {
        lemma_window_prefix(w, i + 1);
        assert(w.subrange(0, i + 1).drop_last() =~= w.subrange(0, i));
    } else {
        assert(w.subrange(0, i) =~= w);
    }
}

impl App {
    /// The figures the time left is estimated from: the total time of the
    /// recent copies, their number, and the files with metadata still to
    /// process; `None` when there is no estimate (see `eta_figures`). The
    /// estimate itself (mean time per copy times the files left, in floating
    /// point) is the caller's.
    pub fn eta_inputs(&self) -> (r: Option<(TimeSpan, u64, u64)>)
        requires
            eta_fits(self),
        ensures
            match eta_figures(self) {
                Some((t, n, k)) => r matches Some((total, count, left)) && total@ == t && count == n && left == k,
                None => r is None,
            },
    {
        if !self.scan_complete || self.done || self.recent_copies.len() == 0 {
            return None;
        }
        let processed = self.summary.exif_processed();
        let remaining: u64 = if self.files_with_exif >= processed { self.files_with_exif - processed } else { 0 };
        if remaining == 0 {
            return None;
        }
        let n = self.recent_copies.len();
        let ghost w = self.recent_copies@;
        let mut total: u128 = 0;
        let mut i: usize = 0;
        while i < n
            invariant
                n == w.len(),
                w == self.recent_copies@,
                i <= n,
                total == durations_total(w.subrange(0, i as int)),
                durations_total(w) <= max_span_nanos(),
            decreases n - i,
        {
            proof {
                lemma_window_prefix(w, i + 1);
                assert(w.subrange(0, i + 1).drop_last() =~= w.subrange(0, i as int));
            }
            let d = self.recent_copies[i].1.as_nanos();
            total = total + d;
            i = i + 1;
        }
        proof {
            assert(w.subrange(0, n as int) =~= w);
        }
        if total == 0 {
            return None;
        }
        Some((TimeSpan::from_nanos_wide(total), n as u64, remaining))
    }

    /// The bytes and the time of the recent copies together, which the
    /// recent speed is worked out from (in floating point, by the caller).
    pub fn window_totals(&self) -> (r: (u64, TimeSpan))
        requires
            bytes_total(self.recent_copies@) <= u64::MAX,
            durations_total(self.recent_copies@) <= max_span_nanos(),
        ensures
            r.0 == bytes_total(self.recent_copies@),
            r.1@ == durations_total(self.recent_copies@),
    {
        let n = self.recent_copies.len();
        let ghost w = self.recent_copies@;
        let mut bytes: u64 = 0;
        let mut total: u128 = 0;
        let mut i: usize = 0;
        while i < n
            invariant
                n == w.len(),
                w == self.recent_copies@,
                i <= n,
                total == durations_total(w.subrange(0, i as int)),
                bytes == bytes_total(w.subrange(0, i as int)),
                durations_total(w) <= max_span_nanos(),
                bytes_total(w) <= u64::MAX,
            decreases n - i,
        {
            proof {
                lemma_window_prefix(w, i + 1);
                assert(w.subrange(0, i + 1).drop_last() =~= w.subrange(0, i as int));
            }
            let (b, d) = self.recent_copies[i];
            total = total + d.as_nanos();
            bytes = bytes + b;
            i = i + 1;
        }
        proof {
            assert(w.subrange(0, n as int) =~= w);
        }
        (bytes, TimeSpan::from_nanos_wide(total))
    }
}

/// The scanning status line.
pub open spec fn scan_text(app: &App) -> Seq<char> {
    if app.scan_complete {
        "Scan complete.  Files found: "@ + dec(app.summary.files_found as nat) + "    With EXIF: "@
            + dec(app.files_with_exif as nat)
    } else {
        seq![spinner_frame(app.spinner_idx as int)] + " Scanning: "@ + (match app.scanning_dir {
            Some(p) => sanitized(p.0@),
            None => "..."@,
        }) + "  Files: "@ + dec(app.summary.files_found as nat) + "  EXIF: "@ + dec(app.files_with_exif as nat)
    }
}

/// The lines on the copy under way, or on the state of the run.
pub open spec fn current_text(app: &App) -> Seq<char> {
    match app.current_file {
        Some((src, dest, size)) => "Copying: "@ + (match file_name_of(src.0@) {
            Some(n) => sanitized(n),
            None => Seq::<char>::empty(),
        }) + " ("@ + bytes_text(size as nat) + ")\nTo: "@ + sanitized(dest.0@),
        None => if app.done {
            "✓ Complete!"@
        } else {
            seq![spinner_frame(app.spinner_idx as int)] + " Waiting..."@
        },
    }
}

/// The files shown as processed and the total they are measured against
/// (at least one).
pub open spec fn progress_figures(app: &App) -> (nat, nat) {
    (exif_processed_count(&app.summary), if app.files_with_exif > 0 { app.files_with_exif as nat } else { 1 })
}

/// The statistics line for a run that has lasted `elapsed` nanoseconds,
/// with the estimated time left `eta` (if any) and the recent speed `speed`
/// in whole bytes per second (if any is shown).
pub open spec fn stats_line(app: &App, elapsed: nat, eta: Option<nat>, speed: Option<u64>) -> Seq<char> {
    "Time: "@ + clock_text(elapsed) + (match eta {
        Some(e) => "    ETA: "@ + clock_text(e),
        None => Seq::<char>::empty(),
    }) + "    Speed: "@ + (match speed {
        Some(v) => bytes_text(v as nat) + "/s"@,
        None => "-"@,
    }) + "    Copied: "@ + bytes_text(app.summary.bytes_copied as nat)
        + "    Skipped: "@ + dec(app.summary.files_skipped as nat) + " (already exist)"@
}

impl App {
    /// The scanning status line: the counts once the scan is complete,
    /// else the spinner and the directory being scanned.
    pub fn scan_status_text(&self) -> (r: String)
        requires
            self.spinner_idx < SPINNER_FRAMES,
        ensures
            r@ == scan_text(self),
    {
        let mut s = String::new();
        if self.scan_complete {
            s.append("Scan complete.  Files found: ");
            push_dec(&mut s, self.summary.files_found as u128);
            s.append("    With EXIF: ");
            push_dec(&mut s, self.files_with_exif as u128);
        } else {
            s.append(self.spinner());
            s.append(" Scanning: ");
            match &self.scanning_dir {
                Some(p) => {
                    let shown = p.to_string();
                    s.append(shown.as_str());
                },
                None => s.append("..."),
            }
            s.append("  Files: ");
            push_dec(&mut s, self.summary.files_found as u128);
            s.append("  EXIF: ");
            push_dec(&mut s, self.files_with_exif as u128);
        }
        s
    }

    /// The lines on the copy under way; else "✓ Complete!" once done, or
    /// the spinner and "Waiting...".
    pub fn current_file_text(&self) -> (r: String)
        requires
            self.spinner_idx < SPINNER_FRAMES,
        ensures
            r@ == current_text(self),
    {
        let mut s = String::new();
        match &self.current_file {
            Some((src, dest, size)) => {
                let name = match src.file_name() {
                    Some(n) => sanitize_str(n.as_str()),
                    None => String::new(),
                };
                let size_str = format_bytes(*size);
                let dest_shown = dest.to_string();
                s.append("Copying: ");
                s.append(name.as_str());
                s.append(" (");
                s.append(size_str.as_str());
                s.append(")\nTo: ");
                s.append(dest_shown.as_str());
            },
            None => {
                if self.done {
                    s.append("✓ Complete!");
                } else {
                    s.append(self.spinner());
                    s.append(" Waiting...");
                }
            },
        }
        s
    }

    /// The files processed and the total of the progress bar (at least one).
    pub fn progress_counts(&self) -> (r: (u64, u64))
        requires
            processed_total(&self.summary) <= u64::MAX,
        ensures
            r.0 == progress_figures(self).0,
            r.1 == progress_figures(self).1,
    {
        let done = self.summary.exif_processed();
        let total = if self.files_with_exif > 0 { self.files_with_exif } else { 1 };
        (done, total)
    }

    /// How long the run has lasted: its recorded length once done, else
    /// the time since it started.
    pub fn elapsed(&self) -> (r: TimeSpan)
        ensures
            self.total_time matches Some(t) ==> r == t,
    {
        match self.total_time {
            Some(t) => t,
            None => {
                let (secs, nanos) = clock_elapsed(&self.start_time);
                TimeSpan::from_secs_nanos(secs, nanos)
            },
        }
    }

    /// The statistics line: time so far, the estimated time left when there
    /// is one, the recent speed (`-` when none is shown), bytes copied and
    /// files skipped. The estimate and the speed are the caller's, worked
    /// out in floating point from `eta_inputs` and `window_totals`.
    pub fn stats_text(&self, elapsed: TimeSpan, eta: Option<TimeSpan>, speed: Option<u64>) -> (r: String)
        ensures
            r@ == stats_line(self, elapsed@, match eta { Some(e) => Some(e@), None => None }, speed),
    {
        let mut s = String::new();
        s.append("Time: ");
        let t = format_duration(elapsed);
        s.append(t.as_str());
        match eta {
            Some(e) => {
                let et = format_duration(e);
                s.append("    ETA: ");
                s.append(et.as_str());
            },
            None => {},
        }
        s.append("    Speed: ");
        match speed {
            Some(v) => {
                let b = format_bytes(v);
                s.append(b.as_str());
                s.append("/s");
            },
            None => {
                s.append("-");
            },
        }
        s.append("    Copied: ");
        let c = format_bytes(self.summary.bytes_copied);
        s.append(c.as_str());
        s.append("    Skipped: ");
        push_dec(&mut s, self.summary.files_skipped as u128);
        s.append(" (already exist)");
        s
    }
}

/// Whether every figure of the display can be worked out without a counter
/// or a span leaving its range.
pub open spec fn render_fits(app: &App) -> bool {
    &&& processed_total(&app.summary) <= u64::MAX
    &&& bytes_total(app.recent_copies@) <= u64::MAX
    &&& durations_total(app.recent_copies@) <= max_span_nanos()
    &&& app.spinner_idx < SPINNER_FRAMES
}

impl App {
    /// Whether every figure of the display can be worked out without a
    /// counter or a span leaving its range.
    pub fn can_render(&self) -> (r: bool)
        ensures
            r == render_fits(self),
    {
        let unknown = self.summary.unknown_cameras.total();
        let processed = self.summary.files_copied as u128 + self.summary.files_skipped as u128
            + self.summary.files_errored as u128 + unknown;
        if processed > u64::MAX as u128 || self.spinner_idx >= SPINNER_FRAMES {
            return false;
        }
        let n = self.recent_copies.len();
        let ghost w = self.recent_copies@;
        let limit: u128 = 18446744073709551615u128 * 1000000000 + 999999999;
        let mut bytes: u128 = 0;
        let mut total: u128 = 0;
        let mut i: usize = 0;
        while i < n
            invariant
                n == w.len(),
                w == self.recent_copies@,
                i <= n,
                limit == max_span_nanos(),
                total == durations_total(w.subrange(0, i as int)),
                bytes == bytes_total(w.subrange(0, i as int)),
                total <= limit,
                bytes <= u64::MAX,
            decreases n - i,
        {
            proof {
                lemma_window_prefix(w, i + 1);
                assert(w.subrange(0, i + 1).drop_last() =~= w.subrange(0, i as int));
            }
            let (b, d) = self.recent_copies[i];
            let nb = bytes + b as u128;
            let nt = total + d.as_nanos();
            if nb > u64::MAX as u128 || nt > limit {
                return false;
            }
            bytes = nb;
            total = nt;
            i = i + 1;
        }
        proof {
            assert(w.subrange(0, n as int) =~= w);
        }
        true
    }
}

/// The activity log never grows past its limit once within it, and the
/// newest entry comes first.
pub proof fn law_history_bounded(items: Seq<(Seq<char>, Tone)>, max: nat, item: (Seq<char>, Tone))
    requires
        max >= 1,
        items.len() <= max,
    ensures
        pushed_recent(items, max, item).len() <= max,
        pushed_recent(items, max, item)[0] == item,
{
}

/// The window of recent copies holds at most `SPEED_WINDOW_SIZE` copies,
/// the newest last.
pub proof fn law_window_bounded(w: Seq<(u64, TimeSpan)>, e: (u64, TimeSpan))
    requires
        w.len() <= SPEED_WINDOW_SIZE,
    ensures
        pushed_window(w, e).len() <= SPEED_WINDOW_SIZE,
        pushed_window(w, e).last() == e,
{
}

/// Scan errors met while a run is under way leave the estimated time left
/// as it was.
pub proof fn law_scan_error_keeps_eta(old: &App, new: &App, msg: ProgressMsg, secs: Seq<char>)
    requires
        app_step(old, new, msg, secs),
        msg is ScanError,
        !old.done,
    ensures
        eta_figures(new) == eta_figures(old),
{
    crate::progress::law_scan_error_keeps_exif_processed(&old.summary, &new.summary, &msg);
}

/// The progress bar is measured against the files with metadata, not the
/// files found: it is full exactly when every file with metadata has been
/// processed, and the count of files found does not change it.
pub proof fn law_progress_total_is_files_with_metadata(a: &App, b: &App)
    requires
        a.files_with_exif == b.files_with_exif,
        exif_processed_count(&a.summary) == exif_processed_count(&b.summary),
    ensures
        progress_figures(a) == progress_figures(b),
        a.files_with_exif > 0 ==> progress_figures(a).1 == a.files_with_exif,
        a.files_with_exif == 0 ==> progress_figures(a).1 == 1,
        progress_figures(a).0 == exif_processed_count(&a.summary),
        a.files_with_exif > 0 && exif_processed_count(&a.summary) == a.files_with_exif
            ==> progress_figures(a).0 == progress_figures(a).1,
{
}

} // verus!
