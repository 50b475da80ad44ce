//! Aggregation of a run's results: counts by status, pass/fail and the
//! process exit status. Rendering lives with the caller.
use vstd::prelude::*;
use crate::validators::{views, ResultView, ValidationResult, ValidationStatus};

verus! {

/// How many of `s` have status `st`.
pub open spec fn count_status(s: Seq<ResultView>, st: ValidationStatus) -> nat
    decreases s.len(),
{
    if s.len() == 0 {
        0
    } else {
        count_status(s.drop_last(), st) + if s.last().status == st {
            1nat
        } else {
            0nat
        }
    }
}

/// Whether some result of `s` is an error.
pub open spec fn has_error(s: Seq<ResultView>) -> bool {
    exists|i: int| 0 <= i < s.len() && s[i].status == ValidationStatus::Error
}

/// The three counts of a run always add up to the number of results.
pub proof fn lemma_counts_sum(s: Seq<ResultView>)
    ensures
        count_status(s, ValidationStatus::Success) + count_status(s, ValidationStatus::Warning)
            + count_status(s, ValidationStatus::Error) == s.len(),
    decreases s.len(),
{
    if s.len() > 0 {
        lemma_counts_sum(s.drop_last());
    }
}

/// There is no error exactly when the error count is zero.
pub proof fn lemma_no_error_count(s: Seq<ResultView>)
    ensures
        has_error(s) <==> count_status(s, ValidationStatus::Error) > 0,
    decreases s.len(),
{
    if s.len() > 0 {
        let t = s.drop_last();
        lemma_no_error_count(t);
        if has_error(t) {
            let i = choose|i: int| 0 <= i < t.len() && t[i].status == ValidationStatus::Error;
            assert(s[i] == t[i]);
        }
        if has_error(s) && s.last().status != ValidationStatus::Error {
            let i = choose|i: int| 0 <= i < s.len() && s[i].status == ValidationStatus::Error;
            assert(i != s.len() - 1);
            assert(t[i] == s[i]);
        }
        if s.last().status == ValidationStatus::Error {
            assert(s[s.len() - 1].status == ValidationStatus::Error);
        }
    }
}

/// The derived figures of a run.
#[derive(Debug, Clone, Copy, PartialEq, Eq, Structural)]
pub struct Summary {
    pub successes: usize,
    pub warnings: usize,
    pub errors: usize,
    pub passed: bool,
}

pub struct Reporter {
    results: Vec<ValidationResult>,
}

impl Reporter {
    pub closed spec fn spec_results(&self) -> Seq<ResultView> {
        views(self.results@)
    }

    pub fn new(results: Vec<ValidationResult>) -> (r: Self)
        ensures
            r.spec_results() == views(results@),
    {
        Reporter { results }
    }

    /// The results, in the order they were produced.
    pub fn results(&self) -> (r: &Vec<ValidationResult>)
        ensures
            views(r@) == self.spec_results(),
    {
        &self.results
    }

    /// How many results have status `status`.
    pub fn count(&self, status: ValidationStatus) -> (r: usize)
        ensures
            r == count_status(self.spec_results(), status),
    {
        let mut n: usize = 0;
        let mut i: usize = 0;
        while i < self.results.len()
            invariant
                i <= self.results@.len(),
                n <= i,
                n == count_status(views(self.results@).take(i as int), status),
            decreases self.results.len() - i,
        {
            let ghost s = views(self.results@);
            assert(s.take(i + 1).drop_last() =~= s.take(i as int));
            if self.results[i].status == status {
                n = n + 1;
            }
            i = i + 1;
        }
        assert(views(self.results@).take(i as int) =~= views(self.results@));
        n
    }

    /// The counts by status and whether the run passed (no error).
    pub fn summary(&self) -> (r: Summary)
        ensures
            r.successes == count_status(self.spec_results(), ValidationStatus::Success),
            r.warnings == count_status(self.spec_results(), ValidationStatus::Warning),
            r.errors == count_status(self.spec_results(), ValidationStatus::Error),
            r.passed == (r.errors == 0),
            r.successes + r.warnings + r.errors == self.spec_results().len(),
    {
        let errors = self.count(ValidationStatus::Error);
        let s = Summary {
            successes: self.count(ValidationStatus::Success),
            warnings: self.count(ValidationStatus::Warning),
            errors,
            passed: errors == 0,
        };
        proof {
            lemma_counts_sum(self.spec_results());
        }
        s
    }

    /// Whether any result is an error; warnings never count.
    pub fn has_errors(&self) -> (r: bool)
        ensures
            r == has_error(self.spec_results()),
    {
        let e = self.count(ValidationStatus::Error);
        proof {
            lemma_no_error_count(self.spec_results());
        }
        e > 0
    }

    /// The process exit status: 1 when any result is an error, else 0.
    pub fn exit_code(&self) -> (r: i32)
        ensures
            r == (if has_error(self.spec_results()) {
                1i32
            } else {
                0i32
            }),
    {
        if self.has_errors() {
            1
        } else {
            0
        }
    }
}

} // verus!
