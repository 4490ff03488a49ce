//! The decisions of the scan and metadata stages: which directory entries
//! the scan passes over, how a scan error is reported, and which metadata
//! fields of a file are kept.

use vstd::prelude::*;
use crate::paths::{SourcePath, sanitized, sanitize_str};
use crate::text::{chars_of, vec_eq};
use crate::date::Date;
use crate::progress::{ProgressMsg, ProgressMsgView};

verus! {

/// Whether the entry `name` is one of the excluded names (compared whole).
pub open spec fn excluded(name: Seq<char>, exclude_dirs: Seq<String>) -> bool {
    exists|i: int| 0 <= i < exclude_dirs.len() && exclude_dirs[i]@ == name
}

/// Whether the scan passes over an entry with this name (a file or a
/// directory; a directory is passed over with all it holds).
pub fn is_excluded(name: &str, exclude_dirs: &Vec<String>) -> (r: bool)
    ensures
        r == excluded(name@, exclude_dirs@),
{
    let n = chars_of(name);
    let mut i: usize = 0;
    while i < exclude_dirs.len()
        invariant
            n@ == name@,
            i <= exclude_dirs.len(),
            forall|j: int| 0 <= j < i ==> exclude_dirs@[j]@ != name@,
        decreases exclude_dirs.len() - i,
    {
        if vec_eq(&chars_of(exclude_dirs[i].as_str()), &n) {
            return true;
        }
        i = i + 1;
    }
    false
}

/// The report of an entry that could not be read: its path (`?` when the
/// error names none) and the error text with control characters replaced.
pub fn scan_error(path: Option<String>, error: &str) -> (r: ProgressMsg)
    ensures
        r@ == ProgressMsgView::ScanError(
            match path {
                Some(p) => p@,
                None => seq!['?'],
            },
            sanitized(error@),
        ),
{
    let p = match path {
        Some(p) => p,
        None => {
            let mut q = String::new();
            q.push('?');
            q
        },
    };
    ProgressMsg::ScanError { path: SourcePath::new(p), error: sanitize_str(error) }
}

/// A metadata entry of a photo, as far as the copy needs it.
#[derive(Debug)]
pub enum ExifEntry {
    /// The camera model, when its value is text.
    Model(Option<String>),
    /// The date the photo was taken, when its value is a date and time.
    DateTaken(Option<Date>),
    /// Any other entry.
    Other,
}

/// The metadata fields kept for a file.
#[derive(Debug)]
pub struct ExifFields {
    /// The camera model, with control characters replaced.
    pub model: Option<String>,
    pub date: Option<Date>,
}

impl ExifFields {
    /// No field found yet.
    pub fn new() -> (r: Self)
        ensures
            r.model is None,
            r.date is None,
    {
        ExifFields { model: None, date: None }
    }

    /// Records an entry: a model entry sets the model (shown with control
    /// characters replaced), a date entry sets the date; a later entry of
    /// the same kind replaces the earlier one.
    pub fn record(&mut self, entry: ExifEntry)
        ensures
            match entry {
                ExifEntry::Model(m) => {
                    &&& (match m {
                        Some(s) => final(self).model matches Some(t) && t@ == sanitized(s@),
                        None => final(self).model is None,
                    })
                    &&& final(self).date == old(self).date
                },
                ExifEntry::DateTaken(d) => final(self).date == d && final(self).model == old(self).model,
                ExifEntry::Other => final(self).model == old(self).model && final(self).date == old(self).date,
            },
    {
        match entry {
            ExifEntry::Model(m) => {
                self.model = match m {
                    Some(s) => Some(sanitize_str(s.as_str())),
                    None => None,
                };
            },
            ExifEntry::DateTaken(d) => {
                self.date = d;
            },
            ExifEntry::Other => {},
        }
    }

    /// Whether both the model and the date are known, so that the rest of
    /// the entries need not be read.
    pub fn is_complete(&self) -> (r: bool)
        ensures
            r == (self.model is Some && self.date is Some),
    {
        self.model.is_some() && self.date.is_some()
    }

    /// For a file with both fields: the message that reports it, with its
    /// model and date for the copy stage.
    pub fn finish(self, path: &SourcePath) -> (r: Option<(ProgressMsg, String, Date)>)
        ensures
            (self.model is Some && self.date is Some) <==> r is Some,
            r matches Some((msg, model, date)) ==> {
                &&& self.model == Some(model)
                &&& self.date == Some(date)
                &&& msg@ == ProgressMsgView::ExifExtracted(path.0@, model@)
            },
    {
        match (self.model, self.date) {
            (Some(model), Some(date)) => {
                let msg = ProgressMsg::ExifExtracted { path: path.clone(), model: model.clone() };
                Some((msg, model, date))
            },
            _ => None,
        }
    }
}

} // verus!
