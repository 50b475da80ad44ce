//! Validation of a reachable network endpoint.
use vstd::prelude::*;
use crate::config::NetworkCheck;
use crate::text::{decimal, format_radix};
use crate::validators::{cat, error_view, success_view, views, ResultView, ValidationResult, Validator};

verus! {

/// The status an endpoint must answer: the configured one, else 200.
pub open spec fn expected_status(c: NetworkCheck) -> u16 {
    match c.status_code {
        Some(s) => s,
        None => 200,
    }
}

/// The results for entry `c` given the answer to one GET: the response's
/// status, or the transport error's text.
pub open spec fn network_outcome(c: NetworkCheck, answer: Result<u16, String>) -> Seq<ResultView> {
    let url = c.url@;
    match answer {
        Ok(status) => if status == expected_status(c) {
            seq![
                success_view(
                    "Successfully connected to "@ + url + " (Status: "@ + decimal(status as nat) + ")"@,
                ),
            ]
        } else {
            seq![
                error_view(
                    "Connected to "@ + url + " but got status "@ + decimal(status as nat),
                    Some("Expected status code "@ + decimal(expected_status(c) as nat)),
                ),
            ]
        },
        Err(e) => seq![error_view("Failed to connect to "@ + url, Some("Error: "@ + e@))],
    }
}

pub struct NetworkValidator {
    check: NetworkCheck,
}

impl NetworkValidator {
    pub closed spec fn spec_check(&self) -> NetworkCheck {
        self.check
    }

    pub fn new(check: NetworkCheck) -> (r: Self)
        ensures
            r.spec_check() == check,
    {
        NetworkValidator { check }
    }
}

impl Validator for NetworkValidator {
    /// The status of the response to a GET with a 5 second timeout, or the
    /// text of the error when no response came.
    type Observation = Result<u16, String>;

    open spec fn outcome(&self, observed: Result<u16, String>) -> Seq<ResultView> {
        network_outcome(self.spec_check(), observed)
    }

    fn validate(&self, observed: Result<u16, String>) -> (r: Vec<ValidationResult>)
    {
        let mut out: Vec<ValidationResult> = Vec::new();
        let url = self.check.url.as_str();
        let expected: u16 = match self.check.status_code {
            Some(s) => s,
            None => 200,
        };
        match &observed {
            Ok(status) => {
                let st = format_radix(*status as u32, 10);
                if *status == expected {
                    let mut m = cat("Successfully connected to ", url);
                    m.append(" (Status: ");
                    m.append(st.as_str());
                    m.append(")");
                    out.push(ValidationResult::success(m));
                } else {
                    let mut m = cat("Connected to ", url);
                    m.append(" but got status ");
                    m.append(st.as_str());
                    let ex = format_radix(expected as u32, 10);
                    let sg = cat("Expected status code ", ex.as_str());
                    out.push(ValidationResult::error(m, Some(sg)));
                }
            },
            Err(e) => {
                let sg = cat("Error: ", e.as_str());
                out.push(ValidationResult::error(cat("Failed to connect to ", url), Some(sg)));
            },
        }
        assert(views(out@) =~= network_outcome(self.spec_check(), observed));
        out
    }
}

} // verus!
