//! The outcome of each processed source and the totals over a batch.
use vstd::prelude::*;

use crate::process::{failure_message, FailureKind};

verus! {

/// What became of one source.
pub struct ProcessResult {
    /// The source's name as given.
    pub file: String,
    /// How many emoji-like characters its text held (0 when it was not read).
    pub emojis_found: usize,
    /// Whether every step for the source succeeded.
    pub success: bool,
    /// The error message of the step that failed, if one did.
    pub error: Option<String>,
}

impl ProcessResult {
    /// A result is consistent when it carries an error message exactly when it
    /// failed.
    pub open spec fn wf(&self) -> bool {
        self.success <==> self.error is None
    }

    /// A source that was processed without failure.
    pub fn succeeded(file: String, emojis_found: usize) -> (r: ProcessResult)
        ensures
            r.wf(),
            r.file@ == file@,
            r.emojis_found == emojis_found,
            r.success,
    {
        ProcessResult { file, emojis_found, success: true, error: None }
    }

    /// A source whose processing stopped with the given failure.
    pub fn failed(file: String, emojis_found: usize, kind: FailureKind, detail: &str) -> (r:
        ProcessResult)
        ensures
            r.wf(),
            r.file@ == file@,
            r.emojis_found == emojis_found,
            !r.success,
            r.error matches Some(m) && m@ == kind.spec_label() + ": "@ + detail@,
    {
        ProcessResult {
            file,
            emojis_found,
            success: false,
            error: Some(failure_message(kind, detail)),
        }
    }
}

/// How many of the results are successes.
pub open spec fn successes(s: Seq<ProcessResult>) -> nat {
    s.filter(|r: ProcessResult| r.success).len()
}

/// The sum of the emoji counts of the results.
pub open spec fn emoji_total(s: Seq<ProcessResult>) -> nat
    decreases s.len(),
{
    if s.len() == 0 {
        0
    } else {
        emoji_total(s.drop_last()) + s.last().emojis_found as nat
    }
}

/// The number of successful sources.
pub fn count_successful(results: &Vec<ProcessResult>) -> (r: usize)
    ensures
        r == successes(results@),
{
    let mut n: usize = 0;
    let mut i: usize = 0;
    while i < results.len()
        invariant
            i <= results@.len(),
            n == successes(results@.take(i as int)),
            n <= i,
        decreases results@.len() - i,
    {
        proof {
            reveal(Seq::filter);
            assert(results@.take(i + 1).drop_last() == results@.take(i as int));
        }
        if results[i].success {
            n = n + 1;
        }
        i = i + 1;
    }
    proof {
        assert(results@.take(results@.len() as int) == results@);
    }
    n
}

/// The number of failed sources.
pub fn count_failed(results: &Vec<ProcessResult>) -> (r: usize)
    ensures
        r + successes(results@) == results@.len(),
{
    proof {
        results@.lemma_filter_len(|r: ProcessResult| r.success);
    }
    results.len() - count_successful(results)
}

/// The total number of emoji-like characters over all results, or `None`
/// when that total does not fit in a `usize`.
pub fn total_emojis(results: &Vec<ProcessResult>) -> (r: Option<usize>)
    ensures
        r == (if emoji_total(results@) <= usize::MAX {
            Some(emoji_total(results@) as usize)
        } else {
            None::<usize>
        }),
{
    let mut sum: usize = 0;
    let mut i: usize = 0;
    while i < results.len()
        invariant
            i <= results@.len(),
            sum == emoji_total(results@.take(i as int)),
        decreases results@.len() - i,
    {
        proof {
            assert(results@.take(i + 1).drop_last() == results@.take(i as int));
        }
        match sum.checked_add(results[i].emojis_found) {
            Some(s) => {
                sum = s;
            },
            None => {
                proof {
                    lemma_total_grows(results@, i as int + 1);
                }
                return None;
            },
        }
        i = i + 1;
    }
    proof {
        assert(results@.take(results@.len() as int) == results@);
    }
    Some(sum)
}

proof fn lemma_total_grows(s: Seq<ProcessResult>, k: int)
    requires
        0 <= k <= s.len(),
    ensures
        emoji_total(s.take(k)) <= emoji_total(s),
    decreases s.len() - k,
{
    if k < s.len() {
        lemma_total_grows(s, k + 1);
        assert(s.take(k + 1).drop_last() == s.take(k));
    } else {
        assert(s.take(k) == s);
    }
}

/// The process exit status for a batch: 0 when every source succeeded, 1
/// otherwise.
pub fn exit_code(results: &Vec<ProcessResult>) -> (r: i32)
    ensures
        r == (if successes(results@) == results@.len() {
            0i32
        } else {
            1i32
        }),
{
    if count_failed(results) > 0 {
        1
    } else {
        0
    }
}

} // verus!
