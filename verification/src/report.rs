//! The outcome of a batch: what became of each file, and how many files
//! ended in each way.

use crate::detection::ValidationError;
use vstd::prelude::*;

verus! {

/// What became of one file.
#[derive(Clone, Debug)]
pub enum Outcome {
    /// The crop was written.
    Cropped,
    /// The file was turned down because it does not show exactly one face.
    Rejected(ValidationError),
    /// The file could not be read, or the crop could not be written; the
    /// text says why.
    Failed(String),
}

/// One file of a batch and what became of it.
#[derive(Clone, Debug)]
pub struct FileOutcome {
    pub input: String,
    pub outcome: Outcome,
}

/// What became of every file of a batch, in the order in which the files
/// were processed.
#[derive(Debug)]
pub struct BatchReport {
    pub files: Vec<FileOutcome>,
}

/// How many of `files` were cropped.
pub open spec fn cropped_among(files: Seq<FileOutcome>) -> nat
    decreases files.len(),
{
    if files.len() == 0 {
        0
    } else {
        cropped_among(files.drop_last()) + if files.last().outcome is Cropped {
            1nat
        } else {
            0nat
        }
    }
}

/// How many of `files` were turned down.
pub open spec fn rejected_among(files: Seq<FileOutcome>) -> nat
    decreases files.len(),
{
    if files.len() == 0 {
        0
    } else {
        rejected_among(files.drop_last()) + if files.last().outcome is Rejected {
            1nat
        } else {
            0nat
        }
    }
}

/// How many of `files` failed.
pub open spec fn failed_among(files: Seq<FileOutcome>) -> nat
    decreases files.len(),
{
    if files.len() == 0 {
        0
    } else {
        failed_among(files.drop_last()) + if files.last().outcome is Failed {
            1nat
        } else {
            0nat
        }
    }
}

/// Every file ended in exactly one of the three ways: the three counts add
/// up to the number of files.
pub proof fn counts_add_up(files: Seq<FileOutcome>)
    ensures
        cropped_among(files) + rejected_among(files) + failed_among(files) == files.len(),
    decreases files.len(),
{
    if files.len() > 0 {
        counts_add_up(files.drop_last());
    }
}

/// Recording one more file raises the count of its outcome by one and
/// leaves the other two counts as they were.
pub proof fn counts_after_record(files: Seq<FileOutcome>, next: FileOutcome)
    ensures
        cropped_among(files.push(next)) == cropped_among(files) + if next.outcome is Cropped {
            1nat
        } else {
            0nat
        },
        rejected_among(files.push(next)) == rejected_among(files) + if next.outcome is Rejected {
            1nat
        } else {
            0nat
        },
        failed_among(files.push(next)) == failed_among(files) + if next.outcome is Failed {
            1nat
        } else {
            0nat
        },
{
    assert(files.push(next).drop_last() =~= files);
}

impl BatchReport {
    /// A report on no files.
    pub fn new() -> (report: BatchReport)
        ensures
            report.files@.len() == 0,
    {
        BatchReport { files: Vec::new() }
    }

    /// Adds what became of one more file, behind those recorded so far.
    pub fn record(&mut self, input: String, outcome: Outcome)
        ensures
            final(self).files@ == old(self).files@.push(FileOutcome { input, outcome }),
            cropped_among(final(self).files@) == cropped_among(old(self).files@) + if outcome
                is Cropped {
                1nat
            } else {
                0nat
            },
            rejected_among(final(self).files@) == rejected_among(old(self).files@) + if outcome
                is Rejected {
                1nat
            } else {
                0nat
            },
            failed_among(final(self).files@) == failed_among(old(self).files@) + if outcome
                is Failed {
                1nat
            } else {
                0nat
            },
    {
        proof {
            counts_after_record(self.files@, FileOutcome { input, outcome });
        }
        self.files.push(FileOutcome { input, outcome });
    }

    /// The number of files recorded.
    pub fn total(&self) -> (n: usize)
        ensures
            n == self.files@.len(),
    {
        self.files.len()
    }

    /// The number of files whose crop was written.
    pub fn cropped(&self) -> (n: usize)
        ensures
            n == cropped_among(self.files@),
    {
        let mut n: usize = 0;
        let mut at: usize = 0;
        while at < self.files.len()
            invariant
                at <= self.files@.len(),
                n <= at,
                n == cropped_among(self.files@.take(at as int)),
            decreases self.files@.len() - at,
        {
            proof {
                assert(self.files@.take(at + 1).drop_last() =~= self.files@.take(at as int));
            }
            if let Outcome::Cropped = self.files[at].outcome {
                n += 1;
            }
            at += 1;
        }
        assert(self.files@.take(at as int) =~= self.files@);
        n
    }

    /// The number of files turned down for not showing exactly one face.
    pub fn rejected(&self) -> (n: usize)
        ensures
            n == rejected_among(self.files@),
    {
        let mut n: usize = 0;
        let mut at: usize = 0;
        while at < self.files.len()
            invariant
                at <= self.files@.len(),
                n <= at,
                n == rejected_among(self.files@.take(at as int)),
            decreases self.files@.len() - at,
        {
            proof {
                assert(self.files@.take(at + 1).drop_last() =~= self.files@.take(at as int));
            }
            if let Outcome::Rejected(_) = self.files[at].outcome {
                n += 1;
            }
            at += 1;
        }
        assert(self.files@.take(at as int) =~= self.files@);
        n
    }

    /// The number of files that could not be read or written.
    pub fn failed(&self) -> (n: usize)
        ensures
            n == failed_among(self.files@),
    {
        let mut n: usize = 0;
        let mut at: usize = 0;
        while at < self.files.len()
            invariant
                at <= self.files@.len(),
                n <= at,
                n == failed_among(self.files@.take(at as int)),
            decreases self.files@.len() - at,
        {
            proof {
                assert(self.files@.take(at + 1).drop_last() =~= self.files@.take(at as int));
            }
            if let Outcome::Failed(_) = self.files[at].outcome {
                n += 1;
            }
            at += 1;
        }
        assert(self.files@.take(at as int) =~= self.files@);
        n
    }
}

} // verus!
