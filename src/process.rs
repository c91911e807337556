//! Decisions taken while processing one source, and the bookkeeping of a
//! batch of sources. Reading and writing are left to the caller, which
//! reports each outcome back as an event.
use vstd::prelude::*;

verus! {

/// How the sources of a batch are to be handled.
pub struct Options {
    /// Copy each source to `<source>.bak` before overwriting it.
    pub backup: bool,
    /// Overwrite each source with its filtered text.
    pub inplace: bool,
    /// Only count; never write anything.
    pub dry_run: bool,
}

/// The ways in which processing one source can fail.
#[derive(PartialEq, Eq, Structural, Clone, Copy, Debug)]
pub enum FailureKind {
    /// The source could not be read as text.
    Read,
    /// The backup copy could not be made.
    Backup,
    /// The filtered text could not be written back to the source.
    WriteFile,
    /// The filtered text could not be written to standard output.
    WriteStdout,
}

/// What the caller reports after carrying out a step for one source.
#[derive(PartialEq, Eq, Structural, Clone, Copy, Debug)]
pub enum Event {
    /// The source was read and filtered.
    Loaded,
    /// The source could not be read.
    LoadFailed,
    /// The backup copy was made.
    BackedUp,
    /// The backup copy could not be made.
    BackupFailed,
    /// The filtered text was written to its destination.
    Written,
    /// The filtered text could not be written.
    WriteFailed,
}

/// The next thing the caller is to do for one source.
#[derive(PartialEq, Eq, Structural, Clone, Copy, Debug)]
pub enum Action {
    /// Copy the source to its backup location.
    Backup,
    /// Overwrite the source with the filtered text.
    WriteSource,
    /// Write the filtered text to standard output.
    WriteStdout,
    /// Stop: the source succeeded, or failed in the given way.
    Finish(Option<FailureKind>),
}

/// Whether filtered text goes back into the source rather than to standard output.
pub open spec fn writes_source(o: Options) -> bool {
    o.backup || o.inplace
}

impl FailureKind {
    /// The words that open the error message of this kind of failure.
    pub open spec fn spec_label(self) -> Seq<char> {
        match self {
            FailureKind::Read => "Failed to read file"@,
            FailureKind::Backup => "Failed to create backup"@,
            FailureKind::WriteFile => "Failed to write file"@,
            FailureKind::WriteStdout => "Failed to write to stdout"@,
        }
    }

    pub fn label(&self) -> (r: &'static str)
        ensures
            r@ == self.spec_label(),
    {
        match self {
            FailureKind::Read => "Failed to read file",
            FailureKind::Backup => "Failed to create backup",
            FailureKind::WriteFile => "Failed to write file",
            FailureKind::WriteStdout => "Failed to write to stdout",
        }
    }
}

/// Decides what to do next for one source, given the batch options and the
/// outcome of the previous step.
///
/// After a successful read: a dry run finishes at once; with `backup` the
/// source is first copied; with `inplace` (and no `backup`) the source is
/// overwritten; otherwise the text goes to standard output. A successful
/// backup is followed by overwriting the source. Any failure finishes the
/// source with the matching kind of failure, and a successful write finishes
/// it successfully.
pub fn next_action(opts: &Options, event: Event) -> (r: Action)
    ensures
        event == Event::Loaded ==> r == (if opts.dry_run {
            Action::Finish(None)
        } else if opts.backup {
            Action::Backup
        } else if opts.inplace {
            Action::WriteSource
        } else {
            Action::WriteStdout
        }),
        event == Event::LoadFailed ==> r == Action::Finish(Some(FailureKind::Read)),
        event == Event::BackedUp ==> r == Action::WriteSource,
        event == Event::BackupFailed ==> r == Action::Finish(Some(FailureKind::Backup)),
        event == Event::Written ==> r == Action::Finish(None),
        event == Event::WriteFailed ==> r == Action::Finish(
            Some(
                if writes_source(*opts) {
                    FailureKind::WriteFile
                } else {
                    FailureKind::WriteStdout
                },
            ),
        ),
{
    match event {
        Event::Loaded => {
            if opts.dry_run {
                Action::Finish(None)
            } else if opts.backup {
                Action::Backup
            } else if opts.inplace {
                Action::WriteSource
            } else {
                Action::WriteStdout
            }
        },
        Event::LoadFailed => Action::Finish(Some(FailureKind::Read)),
        Event::BackedUp => Action::WriteSource,
        Event::BackupFailed => Action::Finish(Some(FailureKind::Backup)),
        Event::Written => Action::Finish(None),
        Event::WriteFailed => {
            if opts.backup || opts.inplace {
                Action::Finish(Some(FailureKind::WriteFile))
            } else {
                Action::Finish(Some(FailureKind::WriteStdout))
            }
        },
    }
}

/// The error message of a failure: its label, a colon and a space, then the
/// detail given by the operation that failed.
pub fn failure_message(kind: FailureKind, detail: &str) -> (r: String)
    ensures
        r@ == kind.spec_label() + ": "@ + detail@,
{
    let head = String::from_str(kind.label());
    let head = head.concat(": ");
    head.concat(detail)
}

/// Whether the named sources ask for standard input instead: no source at
/// all, or the single source `-`.
pub fn reads_stdin(files: &Vec<String>) -> (r: bool)
    ensures
        r == (files@.len() == 0 || (files@.len() == 1 && files@[0]@ == seq!['-'])),
{
    if files.len() == 0 {
        return true;
    }
    if files.len() != 1 {
        return false;
    }
    let name = files[0].as_str();
    let n = name.unicode_len();
    if n != 1 {
        return false;
    }
    let c = name.get_char(0);
    proof {
        if c == '-' {
            assert(name@ =~= seq!['-']);
        }
    }
    c == '-'
}

} // verus!
