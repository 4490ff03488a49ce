//! The decisions of the copy stage, as a state machine: for each file with
//! its camera model and date, where it goes, which checks and copies the
//! caller performs, and which progress messages are sent for each outcome.

use vstd::prelude::*;
use crate::text::{chars_of, string_of};
use crate::timespan::TimeSpan;
use crate::date::{Date, year_text, two_digit_text};
use crate::config::Config;
use crate::paths::{
    SourcePath, DestPath, sanitized, file_name_of, sanitized_filename, sanitize_filename, path_push,
    path_push_exec, is_portable_filename,
};
use crate::pipeline::{DestDirResult, DestDirResultView, compute_dest_dir, dest_dir_spec};
use crate::progress::{ProgressMsg, ProgressMsgView, msgs_view};

verus! {

/// Where the handling of the current file stands.
#[derive(Debug)]
pub enum HandlerPhase {
    /// Waiting for the next file.
    Idle,
    /// Waiting for the type and size of the source file.
    Stat { src: SourcePath, dest_dir: String, dest_path: String, filename: String },
    /// Dry run: waiting to learn whether the destination exists.
    Exists { src: SourcePath, dest_path: String, filename: String, size: u64 },
    /// Waiting for the destination directory to be created.
    MakeDir { src: SourcePath, dest_dir: String, dest_path: String, filename: String, size: u64 },
    /// Waiting for the copy.
    Copy { src: SourcePath, dest_path: String, filename: String, size: u64 },
    /// Waiting for the comparison with the file already at the destination.
    Compare { src: SourcePath, dest_path: String, filename: String },
}

/// The mathematical value of a `HandlerPhase`.
pub enum PhaseView {
    Idle,
    Stat(Seq<char>, Seq<char>, Seq<char>, Seq<char>),
    Exists(Seq<char>, Seq<char>, Seq<char>, u64),
    MakeDir(Seq<char>, Seq<char>, Seq<char>, Seq<char>, u64),
    Copy(Seq<char>, Seq<char>, Seq<char>, u64),
    Compare(Seq<char>, Seq<char>, Seq<char>),
}

impl View for HandlerPhase {
    type V = PhaseView;

    open spec fn view(&self) -> PhaseView {
        match self {
            HandlerPhase::Idle => PhaseView::Idle,
            HandlerPhase::Stat { src, dest_dir, dest_path, filename } => PhaseView::Stat(src.0@, dest_dir@, dest_path@, filename@),
            HandlerPhase::Exists { src, dest_path, filename, size } => PhaseView::Exists(src.0@, dest_path@, filename@, *size),
            HandlerPhase::MakeDir { src, dest_dir, dest_path, filename, size } => PhaseView::MakeDir(src.0@, dest_dir@, dest_path@, filename@, *size),
            HandlerPhase::Copy { src, dest_path, filename, size } => PhaseView::Copy(src.0@, dest_path@, filename@, *size),
            HandlerPhase::Compare { src, dest_path, filename } => PhaseView::Compare(src.0@, dest_path@, filename@),
        }
    }
}

/// What the caller reports back: a file to place, or the outcome of the
/// check, directory creation, copy or comparison that was asked for.
#[derive(Debug)]
pub enum HandlerEvent {
    /// The next file, with the camera model and date from its metadata.
    File { path: SourcePath, model: String, date: Date },
    /// The source file's type and size.
    Stat { is_file: bool, size: u64 },
    /// The source file's type and size could not be read.
    StatFailed { error: String },
    /// Whether the destination exists.
    Exists { exists: bool },
    /// The destination directory exists now.
    DirCreated,
    /// The destination directory could not be created.
    DirFailed { error: String },
    /// The copy succeeded in the given time.
    Copied { duration: TimeSpan },
    /// The copy was refused: the destination already exists.
    CopyFound,
    /// The copy failed.
    CopyFailed { error: String },
    /// The comparison finished: whether both files are equal.
    Compared { same: bool },
    /// The comparison failed.
    CompareFailed { error: String },
}

/// The mathematical value of a `HandlerEvent`.
pub enum EventView {
    File(Seq<char>, Seq<char>, (int, int, int)),
    Stat(bool, u64),
    StatFailed(Seq<char>),
    Exists(bool),
    DirCreated,
    DirFailed(Seq<char>),
    Copied(nat),
    CopyFound,
    CopyFailed(Seq<char>),
    Compared(bool),
    CompareFailed(Seq<char>),
}

impl View for HandlerEvent {
    type V = EventView;

    open spec fn view(&self) -> EventView {
        match self {
            HandlerEvent::File { path, model, date } => EventView::File(path.0@, model@, date@),
            HandlerEvent::Stat { is_file, size } => EventView::Stat(*is_file, *size),
            HandlerEvent::StatFailed { error } => EventView::StatFailed(error@),
            HandlerEvent::Exists { exists } => EventView::Exists(*exists),
            HandlerEvent::DirCreated => EventView::DirCreated,
            HandlerEvent::DirFailed { error } => EventView::DirFailed(error@),
            HandlerEvent::Copied { duration } => EventView::Copied(duration@),
            HandlerEvent::CopyFound => EventView::CopyFound,
            HandlerEvent::CopyFailed { error } => EventView::CopyFailed(error@),
            HandlerEvent::Compared { same } => EventView::Compared(*same),
            HandlerEvent::CompareFailed { error } => EventView::CompareFailed(error@),
        }
    }
}

/// What the caller does next.
#[derive(Debug)]
pub enum HandlerAction {
    /// Take the next file from the queue.
    NextFile,
    /// Read the type and size of the source file (from its open handle).
    StatSource,
    /// Check whether `dest` exists.
    CheckExists { dest: String },
    /// Create the directory `dir` with its parents.
    CreateDir { dir: String },
    /// Copy the source to `dest`, refusing an existing destination, and
    /// time the copy.
    Copy { dest: String },
    /// Compare the source, from its start, with the file at `dest`; the
    /// source has `size` bytes.
    Compare { dest: String, size: u64 },
}

/// The mathematical value of a `HandlerAction`.
pub enum ActionView {
    NextFile,
    StatSource,
    CheckExists(Seq<char>),
    CreateDir(Seq<char>),
    Copy(Seq<char>),
    Compare(Seq<char>, u64),
}

impl View for HandlerAction {
    type V = ActionView;

    open spec fn view(&self) -> ActionView {
        match self {
            HandlerAction::NextFile => ActionView::NextFile,
            HandlerAction::StatSource => ActionView::StatSource,
            HandlerAction::CheckExists { dest } => ActionView::CheckExists(dest@),
            HandlerAction::CreateDir { dir } => ActionView::CreateDir(dir@),
            HandlerAction::Copy { dest } => ActionView::Copy(dest@),
            HandlerAction::Compare { dest, size } => ActionView::Compare(dest@, *size),
        }
    }
}

/// The messages to send and the next thing to do.
#[derive(Debug)]
pub struct HandlerStep {
    pub messages: Vec<ProgressMsg>,
    pub action: HandlerAction,
}

/// The mathematical value of the copy stage's state.
pub struct HandlerView {
    pub target: Seq<char>,
    pub template: Option<String>,
    pub camera_dirs: Seq<(String, String)>,
    pub dry_run: bool,
    /// The last directory created.
    pub last_dir: Option<Seq<char>>,
    pub phase: PhaseView,
}

/// The state of the copy stage.
pub struct FileHandler {
    target_dir: String,
    config: Config,
    dry_run: bool,
    /// The destination computed for the last model and date.
    dest_cache: Option<(String, Date, DestDirResult)>,
    /// The last directory created.
    last_dest_dir: Option<String>,
    phase: HandlerPhase,
}

impl View for FileHandler {
    type V = HandlerView;

    closed spec fn view(&self) -> HandlerView {
        HandlerView {
            target: self.target_dir@,
            template: self.config.dest_template,
            camera_dirs: self.config.camera_dirs@,
            dry_run: self.dry_run,
            last_dir: match self.last_dest_dir {
                Some(d) => Some(d@),
                None => None,
            },
            phase: self.phase@,
        }
    }
}

/// The destination directory for a file of camera `model` taken on `date`.
pub open spec fn destination(h: HandlerView, model: Seq<char>, date: (int, int, int)) -> DestDirResultView {
    dest_dir_spec(h.target, h.template, h.camera_dirs, model, year_text(date.0), two_digit_text(date.1), two_digit_text(date.2))
}

/// What the current phase waits for.
pub open spec fn pending_action(p: PhaseView) -> ActionView {
    match p {
        PhaseView::Idle => ActionView::NextFile,
        PhaseView::Stat(..) => ActionView::StatSource,
        PhaseView::Exists(_, dp, _, _) => ActionView::CheckExists(dp),
        PhaseView::MakeDir(_, dir, _, _, _) => ActionView::CreateDir(dir),
        PhaseView::Copy(_, dp, _, _) => ActionView::Copy(dp),
        PhaseView::Compare(_, dp, _) => ActionView::NextFile,
    }
}

/// The same state with another phase.
pub open spec fn with_phase(h: HandlerView, p: PhaseView) -> HandlerView {
    HandlerView { phase: p, ..h }
}

/// The effect of an event: the next state, the messages sent, and what to
/// do next. An event that does not answer the pending request changes
/// nothing and the request stands.
pub open spec fn handler_next(h: HandlerView, e: EventView) -> (HandlerView, Seq<ProgressMsgView>, ActionView) {
    let idle = with_phase(h, PhaseView::Idle);
    match (h.phase, e) {
        (PhaseView::Idle, EventView::File(path, model, date)) => match destination(h, model, date) {
            DestDirResultView::UnknownCamera => (h, seq![ProgressMsgView::UnknownCamera(model)], ActionView::NextFile),
            DestDirResultView::TemplateError(m) => (h, seq![ProgressMsgView::CopyError(sanitized(path), m)], ActionView::NextFile),
            DestDirResultView::Dir(d) => match file_name_of(path) {
                None => (h, seq![ProgressMsgView::CopyError(sanitized(path), "No filename in path"@)], ActionView::NextFile),
                Some(n) => {
                    let f = sanitized_filename(n);
                    (with_phase(h, PhaseView::Stat(path, d, path_push(d, f), f)), Seq::empty(), ActionView::StatSource)
                },
            },
        },
        (PhaseView::Stat(src, _, _, _), EventView::StatFailed(err)) =>
            (idle, seq![ProgressMsgView::CopyError(sanitized(src), "Failed to stat source: "@ + err)], ActionView::NextFile),
        (PhaseView::Stat(src, dir, dp, f), EventView::Stat(is_file, size)) =>
            if !is_file {
                (idle, seq![ProgressMsgView::CopyError(sanitized(src), "Source is not a regular file"@)], ActionView::NextFile)
            } else if h.dry_run {
                (with_phase(h, PhaseView::Exists(src, dp, f, size)), Seq::empty(), ActionView::CheckExists(dp))
            } else if h.last_dir != Some(dir) {
                (with_phase(h, PhaseView::MakeDir(src, dir, dp, f, size)), Seq::empty(), ActionView::CreateDir(dir))
            } else {
                (with_phase(h, PhaseView::Copy(src, dp, f, size)), seq![ProgressMsgView::CopyStarted(src, dp, size)], ActionView::Copy(dp))
            },
        (PhaseView::Exists(src, dp, f, size), EventView::Exists(exists)) =>
            if exists {
                (with_phase(h, PhaseView::Compare(src, dp, f)), Seq::empty(), ActionView::Compare(dp, size))
            } else {
                (idle, seq![ProgressMsgView::CopyStarted(src, dp, size), ProgressMsgView::CopyComplete(f, size, 1000000)], ActionView::NextFile)
            },
        (PhaseView::MakeDir(_, _, _, f, _), EventView::DirFailed(err)) =>
            (idle, seq![ProgressMsgView::CopyError(f, "Failed to create directory: "@ + err)], ActionView::NextFile),
        (PhaseView::MakeDir(src, dir, dp, f, size), EventView::DirCreated) =>
            (HandlerView { last_dir: Some(dir), phase: PhaseView::Copy(src, dp, f, size), ..h },
             seq![ProgressMsgView::CopyStarted(src, dp, size)], ActionView::Copy(dp)),
        (PhaseView::Copy(_, _, f, size), EventView::Copied(d)) =>
            (idle, seq![ProgressMsgView::CopyComplete(f, size, d)], ActionView::NextFile),
        (PhaseView::Copy(src, dp, f, size), EventView::CopyFound) =>
            (with_phase(h, PhaseView::Compare(src, dp, f)), Seq::empty(), ActionView::Compare(dp, size)),
        (PhaseView::Copy(_, _, f, _), EventView::CopyFailed(err)) =>
            (idle, seq![ProgressMsgView::CopyError(f, "Copy failed: "@ + err)], ActionView::NextFile),
        (PhaseView::Compare(src, dp, f), EventView::Compared(same)) =>
            (idle, (if same { Seq::empty() } else { seq![ProgressMsgView::SuspiciousDuplicate(src, dp)] })
                + seq![ProgressMsgView::CopySkipped(f)], ActionView::NextFile),
        (PhaseView::Compare(src, dp, f), EventView::CompareFailed(err)) =>
            (idle, seq![
                ProgressMsgView::CopyError(f, "Error comparing files: "@ + err),
                ProgressMsgView::SuspiciousDuplicate(src, dp),
                ProgressMsgView::CopySkipped(f),
            ], ActionView::NextFile),
        _ => (h, Seq::empty(), pending_action(h.phase)),
    }
}

fn text(lit: &str) -> (r: String)
    ensures
        r@ == lit@,
{
    let mut s = String::new();
    s.append(lit);
    s
}

fn joined(lit: &str, tail: &String) -> (r: String)
    ensures
        r@ == lit@ + tail@,
{
    let mut s = String::new();
    s.append(lit);
    s.append(tail.as_str());
    s
}

fn same_date(a: &Date, b: &Date) -> (r: bool)
    ensures
        r == (a@ == b@),
{
    a.year() == b.year() && a.month() == b.month() && a.day() == b.day()
}

impl FileHandler {
    #[verifier::type_invariant]
    closed spec fn cache_coherent(self) -> bool {
        self.dest_cache matches Some((m, d, r)) ==> r@ == dest_dir_spec(
            self.target_dir@,
            self.config.dest_template,
            self.config.camera_dirs@,
            m@,
            year_text(d@.0),
            two_digit_text(d@.1),
            two_digit_text(d@.2),
        )
    }

    /// The copy stage for files placed under `target_dir` by `config`; a dry
    /// run only checks and reports.
    pub fn new(target_dir: String, config: Config, dry_run: bool) -> (r: FileHandler)
        ensures
            r@.target == target_dir@,
            r@.template == config.dest_template,
            r@.camera_dirs == config.camera_dirs@,
            r@.dry_run == dry_run,
            r@.last_dir is None,
            r@.phase is Idle,
    {
        FileHandler { target_dir, config, dry_run, dest_cache: None, last_dest_dir: None, phase: HandlerPhase::Idle }
    }

    /// The destination of a file, computed again only when the model or
    /// the date differs from the previous file's.
    fn dest_for(&mut self, model: &String, date: &Date) -> (r: DestDirResult)
        ensures
            r@ == destination(old(self)@, model@, date@),
            final(self)@ == old(self)@,
    {
        proof { use_type_invariant(&*self); }
        let hit = match &self.dest_cache {
            Some((m, d, _)) => *m == *model && same_date(d, date),
            None => false,
        };
        if hit {
            match &self.dest_cache {
                Some((_, _, r)) => r.clone(),
                None => DestDirResult::UnknownCamera,
            }
        } else {
            let r = compute_dest_dir(self.target_dir.as_str(), &self.config, model.as_str(), date);
            self.dest_cache = Some((model.clone(), *date, r.clone()));
            r
        }
    }

    /// Takes the caller's report and gives the messages to send and the next
    /// thing to do (see `handler_next`).
    pub fn step(&mut self, event: HandlerEvent) -> (r: HandlerStep)
        ensures
            (final(self)@, msgs_view(r.messages@), r.action@) == handler_next(old(self)@, event@),
    {
        proof { use_type_invariant(&*self); }
        let ghost h = self@;
        let mut phase = HandlerPhase::Idle;
        std::mem::swap(&mut phase, &mut self.phase);
        assert(phase@ == h.phase);
        let mut messages: Vec<ProgressMsg> = Vec::new();
        let action = match (phase, event) {
            (HandlerPhase::Idle, HandlerEvent::File { path, model, date }) => {
                let r = self.dest_for(&model, &date);
                proof { use_type_invariant(&*self); }
                match r {
                    DestDirResult::UnknownCamera => {
                        messages.push(ProgressMsg::UnknownCamera { model });
                        HandlerAction::NextFile
                    },
                    DestDirResult::TemplateError(m) => {
                        messages.push(ProgressMsg::CopyError { filename: path.to_string(), error: m });
                        HandlerAction::NextFile
                    },
                    DestDirResult::Dir(d) => match path.file_name() {
                        None => {
                            messages.push(ProgressMsg::CopyError { filename: path.to_string(), error: text("No filename in path") });
                            HandlerAction::NextFile
                        },
                        Some(n) => {
                            let f = sanitize_filename(n.as_str());
                            let mut dp = chars_of(d.as_str());
                            let fv = chars_of(f.as_str());
                            path_push_exec(&mut dp, &fv);
                            let dest_path = string_of(&dp);
                            self.phase = HandlerPhase::Stat { src: path, dest_dir: d, dest_path, filename: f };
                            HandlerAction::StatSource
                        },
                    },
                }
            },
            (HandlerPhase::Stat { src, .. }, HandlerEvent::StatFailed { error }) => {
                messages.push(ProgressMsg::CopyError { filename: src.to_string(), error: joined("Failed to stat source: ", &error) });
                HandlerAction::NextFile
            },
            (HandlerPhase::Stat { src, dest_dir, dest_path, filename }, HandlerEvent::Stat { is_file, size }) => {
                if !is_file {
                    messages.push(ProgressMsg::CopyError { filename: src.to_string(), error: text("Source is not a regular file") });
                    HandlerAction::NextFile
                } else if self.dry_run {
                    let dest = dest_path.clone();
                    self.phase = HandlerPhase::Exists { src, dest_path, filename, size };
                    HandlerAction::CheckExists { dest }
                } else {
                    let made = match &self.last_dest_dir {
                        Some(last) => *last == dest_dir,
                        None => false,
                    };
                    if !made {
                        let dir = dest_dir.clone();
                        self.phase = HandlerPhase::MakeDir { src, dest_dir, dest_path, filename, size };
                        HandlerAction::CreateDir { dir }
                    } else {
                        messages.push(ProgressMsg::CopyStarted { src: src.clone(), dest: DestPath::new(dest_path.clone()), size });
                        let dest = dest_path.clone();
                        self.phase = HandlerPhase::Copy { src, dest_path, filename, size };
                        HandlerAction::Copy { dest }
                    }
                }
            },
            (HandlerPhase::Exists { src, dest_path, filename, size }, HandlerEvent::Exists { exists }) => {
                if exists {
                    let dest = dest_path.clone();
                    self.phase = HandlerPhase::Compare { src, dest_path, filename };
                    HandlerAction::Compare { dest, size }
                } else {
                    messages.push(ProgressMsg::CopyStarted { src, dest: DestPath::new(dest_path), size });
                    messages.push(ProgressMsg::CopyComplete { filename, size, duration: TimeSpan::from_millis(1) });
                    HandlerAction::NextFile
                }
            },
            (HandlerPhase::MakeDir { filename, .. }, HandlerEvent::DirFailed { error }) => {
                messages.push(ProgressMsg::CopyError { filename, error: joined("Failed to create directory: ", &error) });
                HandlerAction::NextFile
            },
            (HandlerPhase::MakeDir { src, dest_dir, dest_path, filename, size }, HandlerEvent::DirCreated) => {
                self.last_dest_dir = Some(dest_dir);
                messages.push(ProgressMsg::CopyStarted { src: src.clone(), dest: DestPath::new(dest_path.clone()), size });
                let dest = dest_path.clone();
                self.phase = HandlerPhase::Copy { src, dest_path, filename, size };
                HandlerAction::Copy { dest }
            },
            (HandlerPhase::Copy { filename, size, .. }, HandlerEvent::Copied { duration }) => {
                messages.push(ProgressMsg::CopyComplete { filename, size, duration });
                HandlerAction::NextFile
            },
            (HandlerPhase::Copy { src, dest_path, filename, size }, HandlerEvent::CopyFound) => {
                let dest = dest_path.clone();
                self.phase = HandlerPhase::Compare { src, dest_path, filename };
                HandlerAction::Compare { dest, size }
            },
            (HandlerPhase::Copy { filename, .. }, HandlerEvent::CopyFailed { error }) => {
                messages.push(ProgressMsg::CopyError { filename, error: joined("Copy failed: ", &error) });
                HandlerAction::NextFile
            },
            (HandlerPhase::Compare { src, dest_path, filename }, HandlerEvent::Compared { same }) => {
                if !same {
                    messages.push(ProgressMsg::SuspiciousDuplicate { src, dest: DestPath::new(dest_path) });
                }
                messages.push(ProgressMsg::CopySkipped { filename });
                HandlerAction::NextFile
            },
            (HandlerPhase::Compare { src, dest_path, filename }, HandlerEvent::CompareFailed { error }) => {
                messages.push(ProgressMsg::CopyError { filename: filename.clone(), error: joined("Error comparing files: ", &error) });
                messages.push(ProgressMsg::SuspiciousDuplicate { src, dest: DestPath::new(dest_path) });
                messages.push(ProgressMsg::CopySkipped { filename });
                HandlerAction::NextFile
            },
            (p, _) => {
                let a = match &p {
                    HandlerPhase::Idle => HandlerAction::NextFile,
                    HandlerPhase::Stat { .. } => HandlerAction::StatSource,
                    HandlerPhase::Exists { dest_path, .. } => HandlerAction::CheckExists { dest: dest_path.clone() },
                    HandlerPhase::MakeDir { dest_dir, .. } => HandlerAction::CreateDir { dir: dest_dir.clone() },
                    HandlerPhase::Copy { dest_path, .. } => HandlerAction::Copy { dest: dest_path.clone() },
                    HandlerPhase::Compare { .. } => HandlerAction::NextFile,
                };
                self.phase = p;
                a
            },
        };
        proof {
            assert(msgs_view(messages@) =~= handler_next(h, event@).1);
        }
        HandlerStep { messages, action }
    }
}

/// Whether an event answers what the phase waits for.
pub open spec fn answers(p: PhaseView, e: EventView) -> bool {
    match p {
        PhaseView::Idle => e is File,
        PhaseView::Stat(..) => e is Stat || e is StatFailed,
        PhaseView::Exists(..) => e is Exists,
        PhaseView::MakeDir(..) => e is DirCreated || e is DirFailed,
        PhaseView::Copy(..) => e is Copied || e is CopyFound || e is CopyFailed,
        PhaseView::Compare(..) => e is Compared || e is CompareFailed,
    }
}

/// Whether a message reports the outcome of one file (and so counts once in
/// the processed files).
pub open spec fn is_outcome_view(m: ProgressMsgView) -> bool {
    m is CopyComplete || m is CopySkipped || m is CopyError || m is UnknownCamera || m is ScanError
}

/// The number of outcome messages in a list.
pub open spec fn outcome_count(ms: Seq<ProgressMsgView>) -> nat
    decreases ms.len(),
{
    if ms.len() == 0 {
        0
    } else {
        outcome_count(ms.drop_last()) + (if is_outcome_view(ms.last()) { 1nat } else { 0nat })
    }
}

/// Each file gets exactly one outcome message, sent when its handling ends
/// (the step that asks for the next file); the intermediate steps send none.
/// A failed comparison is the exception: it reports both an error and a skip.
pub proof fn law_one_outcome_per_file(h: HandlerView, e: EventView)
    requires
        answers(h.phase, e),
        !(e is CompareFailed),
    ensures
        outcome_count(handler_next(h, e).1) == (if handler_next(h, e).2 is NextFile { 1nat } else { 0nat }),
{
    let ms = handler_next(h, e).1;
    reveal_with_fuel(outcome_count, 3);
    if ms.len() == 2 {
        assert(ms.drop_last().drop_last() =~= Seq::<ProgressMsgView>::empty());
    } else if ms.len() == 1 {
        assert(ms.drop_last() =~= Seq::<ProgressMsgView>::empty());
    }
}

/// A file is placed in the directory that the template gives for its model
/// and date, under a name that every platform accepts.
pub proof fn law_placed_name_portable(h: HandlerView, e: EventView)
    requires
        h.phase is Idle,
        handler_next(h, e).0.phase is Stat,
    ensures
        e matches EventView::File(path, model, date) && handler_next(h, e).0.phase matches PhaseView::Stat(_, d, dp, f)
            && destination(h, model, date) == DestDirResultView::Dir(d)
            && is_portable_filename(f) && dp == path_push(d, f),
{
    if let EventView::File(path, model, date) = e {
        if let Some(n) = file_name_of(path) {
            crate::paths::law_sanitize_filename(n);
        }
    }
}

/// A dry run never writes: from any state of a dry run that is not about
/// to create a directory or copy, no step asks to create a directory or to
/// copy, and none leads to such a state.
pub proof fn law_dry_run_never_writes(h: HandlerView, e: EventView)
    requires
        h.dry_run,
        !(h.phase is MakeDir),
        !(h.phase is Copy),
    ensures
        !(handler_next(h, e).2 is CreateDir),
        !(handler_next(h, e).2 is Copy),
        !(handler_next(h, e).0.phase is MakeDir),
        !(handler_next(h, e).0.phase is Copy),
        handler_next(h, e).0.dry_run,
{
}

/// Each pending file's destination path is its file name under its
/// directory, and a pending copy goes into the last directory created.
pub open spec fn copy_targets_created_dir(h: HandlerView) -> bool {
    &&& h.phase matches PhaseView::Stat(_, d, dp, f) ==> dp == path_push(d, f)
    &&& h.phase matches PhaseView::MakeDir(_, d, dp, f, _) ==> dp == path_push(d, f)
    &&& h.phase matches PhaseView::Copy(_, dp, f, _) ==> (h.last_dir is Some && dp == path_push(h.last_dir->0, f))
}

/// Outside a dry run, a file is copied only into a directory that has been
/// created: after the source is found to be a regular file, the step asks
/// to create the destination directory unless it is exactly the last one
/// created, and asks to copy right away only when it is; every copy asked
/// for goes into the last directory created; and the remembered directory
/// changes only when a directory creation succeeds, and then to that
/// directory.
pub proof fn law_copy_only_into_created_dir(h: HandlerView, e: EventView)
    requires
        !h.dry_run,
        copy_targets_created_dir(h),
    ensures
        copy_targets_created_dir(handler_next(h, e).0),
        match (h.phase, e) {
            (PhaseView::Stat(_, d, dp, _), EventView::Stat(is_file, _)) => is_file ==> {
                &&& h.last_dir != Some(d) ==> handler_next(h, e).2 == ActionView::CreateDir(d)
                &&& h.last_dir == Some(d) ==> handler_next(h, e).2 == ActionView::Copy(dp)
            },
            _ => true,
        },
        handler_next(h, e).2 matches ActionView::Copy(dp) ==> {
            &&& handler_next(h, e).0.phase is Copy
            &&& handler_next(h, e).0.phase->Copy_1 == dp
        },
        handler_next(h, e).0.last_dir != h.last_dir ==> {
            &&& e is DirCreated
            &&& (h.phase matches PhaseView::MakeDir(_, d, _, _, _) && handler_next(h, e).0.last_dir == Some(d))
        },
{
    let r = handler_next(h, e);
    match h.phase {
        PhaseView::Idle => {
            if let EventView::File(path, model, date) = e {
                if let DestDirResultView::Dir(d) = destination(h, model, date) {
                    if let Some(n) = file_name_of(path) {
                        assert(r.0.phase == PhaseView::Stat(path, d, path_push(d, sanitized_filename(n)), sanitized_filename(n)));
                    }
                }
            }
        },
        _ => {},
    }
}

} // verus!
