//! The line-by-line progress display used when the output is not a terminal:
//! for each progress message, the line to print and where.

use vstd::prelude::*;
use crate::progress::{
    ProgressMsg, Summary, bytes_text, format_bytes, update_fits,
    summary_step,
};

verus! {

/// What the line-by-line display does with one progress message.
#[derive(Debug)]
pub enum TextAction {
    /// Stop reading messages: the run is over.
    Stop,
    /// Print a line on standard output.
    Stdout(String),
    /// Print a line on standard error.
    Stderr(String),
    /// Print nothing.
    Quiet,
}

/// The mathematical value of a `TextAction`.
pub enum TextActionView {
    Stop,
    Stdout(Seq<char>),
    Stderr(Seq<char>),
    Quiet,
}

impl View for TextAction {
    type V = TextActionView;

    open spec fn view(&self) -> TextActionView {
        match self {
            TextAction::Stop => TextActionView::Stop,
            TextAction::Stdout(s) => TextActionView::Stdout(s@),
            TextAction::Stderr(s) => TextActionView::Stderr(s@),
            TextAction::Quiet => TextActionView::Quiet,
        }
    }
}

/// The line printed for a message other than `Done` (paths as given);
/// `speed` is the text of a finished copy's speed.
pub open spec fn text_line(msg: ProgressMsg, speed: Seq<char>) -> TextActionView {
    match msg {
        ProgressMsg::ScanningDir(path) => TextActionView::Stdout("Scanning: "@ + path.0@),
        ProgressMsg::ScanComplete => TextActionView::Stdout("Scan complete."@),
        ProgressMsg::ExifExtracted { path, model } => TextActionView::Stdout(
            "Found: "@ + path.0@ + " ("@ + model@ + ")"@,
        ),
        ProgressMsg::CopyStarted { src, dest, .. } => TextActionView::Stdout(
            "Copying: "@ + src.0@ + " -> "@ + dest.0@,
        ),
        ProgressMsg::CopyComplete { filename, size, .. } => TextActionView::Stdout(
            "  Done: "@ + filename@ + " ("@ + bytes_text(size as nat) + ", "@
                + speed + ")"@,
        ),
        ProgressMsg::CopySkipped { filename } => TextActionView::Stdout(
            "  Skipped (exists): "@ + filename@,
        ),
        ProgressMsg::CopyError { filename, error } => TextActionView::Stderr(
            "  Error: "@ + filename@ + ": "@ + error@,
        ),
        ProgressMsg::ScanError { path, error } => TextActionView::Stderr(
            "  Scan Error: "@ + path.0@ + ": "@ + error@,
        ),
        ProgressMsg::SuspiciousDuplicate { src, .. } => TextActionView::Stderr(
            "  WARNING: Suspicious duplicate: "@ + src.0@,
        ),
        _ => TextActionView::Quiet,
    }
}

/// The line printed for a progress message (nothing for `Done`, which stops
/// the display before any line). For a finished copy, `speed` is the text
/// of its speed, which the caller works out in floating point (and which is
/// empty for a copy that took no time); other messages do not use it.
pub fn message_line(msg: &ProgressMsg, speed: &str) -> (r: TextAction)
    ensures
        *msg is Done ==> r is Quiet,
        !(*msg is Done) ==> r@ == text_line(*msg, speed@),
{
    let mut s = String::new();
    match msg {
        ProgressMsg::ScanningDir(path) => {
            s.append("Scanning: ");
            s.append(path.as_str());
            TextAction::Stdout(s)
        },
        ProgressMsg::ScanComplete => {
            s.append("Scan complete.");
            TextAction::Stdout(s)
        },
        ProgressMsg::ExifExtracted { path, model } => {
            s.append("Found: ");
            s.append(path.as_str());
            s.append(" (");
            s.append(model.as_str());
            s.append(")");
            TextAction::Stdout(s)
        },
        ProgressMsg::CopyStarted { src, dest, .. } => {
            s.append("Copying: ");
            s.append(src.as_str());
            s.append(" -> ");
            s.append(dest.as_str());
            TextAction::Stdout(s)
        },
        ProgressMsg::CopyComplete { filename, size, .. } => {
            let bytes = format_bytes(*size);
            s.append("  Done: ");
            s.append(filename.as_str());
            s.append(" (");
            s.append(bytes.as_str());
            s.append(", ");
            s.append(speed);
            s.append(")");
            TextAction::Stdout(s)
        },
        ProgressMsg::CopySkipped { filename } => {
            s.append("  Skipped (exists): ");
            s.append(filename.as_str());
            TextAction::Stdout(s)
        },
        ProgressMsg::CopyError { filename, error } => {
            s.append("  Error: ");
            s.append(filename.as_str());
            s.append(": ");
            s.append(error.as_str());
            TextAction::Stderr(s)
        },
        ProgressMsg::ScanError { path, error } => {
            s.append("  Scan Error: ");
            s.append(path.as_str());
            s.append(": ");
            s.append(error.as_str());
            TextAction::Stderr(s)
        },
        ProgressMsg::SuspiciousDuplicate { src, .. } => {
            s.append("  WARNING: Suspicious duplicate: ");
            s.append(src.as_str());
            TextAction::Stderr(s)
        },
        _ => TextAction::Quiet,
    }
}

/// One step of the line-by-line display: the message is recorded in the
/// summary, then the display stops on `Done` or prints the message's line
/// (with `speed` as for `message_line`).
pub fn text_mode_step(summary: &mut Summary, msg: &ProgressMsg, speed: &str) -> (r: TextAction)
    requires
        update_fits(old(summary), msg),
    ensures
        summary_step(old(summary), final(summary), msg),
        *msg is Done ==> r is Stop,
        !(*msg is Done) ==> r@ == text_line(*msg, speed@),
{
    if summary.update(msg) {
        TextAction::Stop
    } else {
        message_line(msg, speed)
    }
}

} // verus!
