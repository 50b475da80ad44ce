//! Validation of a free TCP port.
use vstd::prelude::*;
use crate::text::{decimal, format_radix};
use crate::validators::{cat, error_view, success_view, views, ResultView, ValidationResult, ValidationStatus, Validator};

verus! {

/// The results for `port` given whether a loopback listener could be bound
/// on it. Any bind failure reads as the port being in use.
pub open spec fn port_outcome(port: u16, bound: bool) -> Seq<ResultView> {
    let p = decimal(port as nat);
    if bound {
        seq![success_view("Port "@ + p + " is available"@)]
    } else {
        seq![
            error_view(
                "Port "@ + p + " is already in use"@,
                Some("Free up port "@ + p + " or change the port in your config"@),
            ),
        ]
    }
}

pub struct PortValidator {
    port: u16,
}

impl PortValidator {
    pub closed spec fn spec_port(&self) -> u16 {
        self.port
    }

    pub fn new(port: u16) -> (r: Self)
        ensures
            r.spec_port() == port,
    {
        PortValidator { port }
    }
}

impl Validator for PortValidator {
    /// Whether binding a listener on 127.0.0.1 at the port succeeded (the
    /// listener released at once).
    type Observation = bool;

    open spec fn outcome(&self, observed: bool) -> Seq<ResultView> {
        port_outcome(self.spec_port(), observed)
    }

    fn validate(&self, observed: bool) -> (r: Vec<ValidationResult>)
    {
        let mut out: Vec<ValidationResult> = Vec::new();
        let p = format_radix(self.port as u32, 10);
        if observed {
            let mut m = cat("Port ", p.as_str());
            m.append(" is available");
            out.push(ValidationResult::success(m));
        } else {
            let mut m = cat("Port ", p.as_str());
            m.append(" is already in use");
            let mut sg = cat("Free up port ", p.as_str());
            sg.append(" or change the port in your config");
            out.push(ValidationResult::error(m, Some(sg)));
        }
        assert(views(out@) =~= port_outcome(self.spec_port(), observed));
        out
    }
}

/// A port that could not be bound yields one error; one that could, one success.
pub proof fn lemma_port_statuses(port: u16, bound: bool)
    ensures
        port_outcome(port, bound).len() == 1,
        port_outcome(port, bound)[0].status == (if bound {
            ValidationStatus::Success
        } else {
            ValidationStatus::Error
        }),
{
}

} // verus!
