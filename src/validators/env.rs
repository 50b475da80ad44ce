//! Validation of an environment variable.
use vstd::prelude::*;
use crate::config::EnvVarCheck;
use crate::text::{chars_of, contains, contains_seq};
use crate::validators::{cat, error_view, success_view, views, warning_view, ResultView, ValidationResult, ValidationStatus, Validator};

verus! {

/// The results for entry `c` when the variable holds `value` (`None`: unset).
/// A pattern is matched as a substring; a mismatch is an error whether or
/// not the variable is required. Patterns are documented as regular
/// expressions, but matching them as such is an open question: substring
/// containment is kept, and agrees with a regex only on plain patterns.
pub open spec fn env_outcome(c: EnvVarCheck, value: Option<String>) -> Seq<ResultView> {
    let name = c.name@;
    match value {
        Some(v) => match c.pattern {
            Some(p) => if contains_seq(v@, p@) {
                seq![success_view(name + " is set and matches pattern"@)]
            } else {
                seq![
                    error_view(
                        name + " is set but does not match pattern"@,
                        Some("Ensure "@ + name + " matches pattern: "@ + p@),
                    ),
                ]
            },
            None => seq![success_view(name + " is set"@)],
        },
        None => if c.required {
            seq![error_view(name + " is not set"@, Some("Set "@ + name + " environment variable"@))]
        } else {
            seq![warning_view(name + " is not set (optional)"@, None)]
        },
    }
}

pub struct EnvValidator {
    check: EnvVarCheck,
}

impl EnvValidator {
    pub closed spec fn spec_check(&self) -> EnvVarCheck {
        self.check
    }

    pub fn new(check: EnvVarCheck) -> (r: Self)
        ensures
            r.spec_check() == check,
    {
        EnvValidator { check }
    }
}

impl Validator for EnvValidator {
    /// The variable's value, or `None` when it is not set.
    type Observation = Option<String>;

    open spec fn outcome(&self, observed: Option<String>) -> Seq<ResultView> {
        env_outcome(self.spec_check(), observed)
    }

    fn validate(&self, observed: Option<String>) -> (r: Vec<ValidationResult>)
    {
        let mut out: Vec<ValidationResult> = Vec::new();
        let name = self.check.name.as_str();
        match &observed {
            Some(value) => match &self.check.pattern {
                Some(pattern) => {
                    let v = chars_of(value.as_str());
                    let p = chars_of(pattern.as_str());
                    if contains(&v, &p) {
                        out.push(ValidationResult::success(cat(name, " is set and matches pattern")));
                    } else {
                        let mut sg = cat("Ensure ", name);
                        sg.append(" matches pattern: ");
                        sg.append(pattern.as_str());
                        out.push(
                            ValidationResult::error(cat(name, " is set but does not match pattern"), Some(sg)),
                        );
                    }
                },
                None => {
                    out.push(ValidationResult::success(cat(name, " is set")));
                },
            },
            None => {
                if self.check.required {
                    let mut sg = cat("Set ", name);
                    sg.append(" environment variable");
                    out.push(ValidationResult::error(cat(name, " is not set"), Some(sg)));
                } else {
                    out.push(ValidationResult::warning(cat(name, " is not set (optional)"), None));
                }
            },
        }
        assert(views(out@) =~= env_outcome(self.spec_check(), observed));
        out
    }
}

/// An unset variable yields an error when required and a warning when
/// optional; a set one with a pattern yields a success when its value
/// contains the pattern and an error when not, whatever the `required` flag.
pub proof fn lemma_env_statuses(c: EnvVarCheck, value: Option<String>)
    ensures
        env_outcome(c, value).len() == 1,
        value is None ==> env_outcome(c, value)[0].status == (if c.required {
            ValidationStatus::Error
        } else {
            ValidationStatus::Warning
        }),
        value is Some && c.pattern is Some ==> env_outcome(c, value)[0].status == (if contains_seq(
            value->Some_0@,
            c.pattern->Some_0@,
        ) {
            ValidationStatus::Success
        } else {
            ValidationStatus::Error
        }),
{
}

} // verus!
