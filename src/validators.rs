//! The result vocabulary, the validator interface and the orchestrator that
//! runs every configured check in order.
use vstd::prelude::*;
use crate::config::{Config, EnvVarCheck, FileCheck, NetworkCheck, ToolCheck};
use crate::validators::env::{env_outcome, EnvValidator};
use crate::validators::file::{file_outcome, FileObservation, FileValidator};
use crate::validators::network::{network_outcome, NetworkValidator};
use crate::validators::port::{port_outcome, PortValidator};
use crate::validators::tool::{tool_outcome, ToolObservation, ToolValidator};

pub mod tool;
pub mod env;
pub mod port;
pub mod file;
pub mod network;

verus! {

/// Outcome of one check. Only `Error` fails a run; `Warning` does not.
#[derive(Debug, Clone, Copy, PartialEq, Eq, Structural)]
pub enum ValidationStatus {
    Success,
    Warning,
    Error,
}

/// One emitted outcome: a status, a message and an optional remediation.
#[derive(Debug)]
pub struct ValidationResult {
    pub status: ValidationStatus,
    pub message: String,
    pub suggestion: Option<String>,
}

/// What a `ValidationResult` holds, with its text as characters.
pub struct ResultView {
    pub status: ValidationStatus,
    pub message: Seq<char>,
    pub suggestion: Option<Seq<char>>,
}

pub open spec fn opt_view(o: Option<String>) -> Option<Seq<char>> {
    match o {
        Some(s) => Some(s@),
        None => None,
    }
}

impl View for ValidationResult {
    type V = ResultView;

    open spec fn view(&self) -> ResultView {
        ResultView { status: self.status, message: self.message@, suggestion: opt_view(self.suggestion) }
    }
}

pub open spec fn success_view(message: Seq<char>) -> ResultView {
    ResultView { status: ValidationStatus::Success, message, suggestion: None }
}

pub open spec fn warning_view(message: Seq<char>, suggestion: Option<Seq<char>>) -> ResultView {
    ResultView { status: ValidationStatus::Warning, message, suggestion }
}

pub open spec fn error_view(message: Seq<char>, suggestion: Option<Seq<char>>) -> ResultView {
    ResultView { status: ValidationStatus::Error, message, suggestion }
}

/// The views of a sequence of results, element by element.
pub open spec fn views(s: Seq<ValidationResult>) -> Seq<ResultView> {
    s.map_values(|r: ValidationResult| r@)
}

impl Clone for ValidationResult {
    fn clone(&self) -> (r: Self)
        ensures
            r == *self,
    {
        let suggestion = match &self.suggestion {
            Some(s) => Some(s.clone()),
            None => None,
        };
        ValidationResult { status: self.status, message: self.message.clone(), suggestion }
    }
}

impl ValidationResult {
    pub fn success(message: String) -> (r: Self)
        ensures
            r@ == success_view(message@),
    {
        ValidationResult { status: ValidationStatus::Success, message, suggestion: None }
    }

    pub fn warning(message: String, suggestion: Option<String>) -> (r: Self)
        ensures
            r@ == warning_view(message@, opt_view(suggestion)),
    {
        ValidationResult { status: ValidationStatus::Warning, message, suggestion }
    }

    pub fn error(message: String, suggestion: Option<String>) -> (r: Self)
        ensures
            r@ == error_view(message@, opt_view(suggestion)),
    {
        ValidationResult { status: ValidationStatus::Error, message, suggestion }
    }
}

/// A validator: evaluates one configuration entry against what was observed
/// of the machine for it, and emits its results.
pub trait Validator {
    /// What the caller observed of the machine for this entry.
    type Observation;

    /// The results this entry yields for what was observed.
    spec fn outcome(&self, observed: Self::Observation) -> Seq<ResultView>;

    fn validate(&self, observed: Self::Observation) -> (r: Vec<ValidationResult>)
        ensures
            views(r@) == self.outcome(observed),
    ;
}

/// `a` followed by `b`.
pub fn cat(a: &str, b: &str) -> (r: String)
    ensures
        r@ == a@ + b@,
{
    let mut s = String::from_str(a);
    s.append(b);
    s
}

/// What was observed of the machine for each entry of a configuration, list
/// by list and in the same order.
pub struct Observations {
    pub tools: Vec<ToolObservation>,
    pub env_vars: Vec<Option<String>>,
    pub ports: Vec<bool>,
    pub files: Vec<FileObservation>,
    pub network: Vec<Result<u16, String>>,
}

/// Why a run could not be made.
#[derive(Debug, Clone, Copy, PartialEq, Eq, Structural)]
pub enum RunError {
    /// Some list of observations is not as long as the configuration's list.
    ObservationCount,
}

pub open spec fn tools_outcome(c: Seq<ToolCheck>, o: Seq<ToolObservation>, n: int) -> Seq<ResultView>
    decreases n,
{
    if n <= 0 {
        Seq::empty()
    } else {
        tools_outcome(c, o, n - 1) + tool_outcome(c[n - 1], o[n - 1])
    }
}

pub open spec fn envs_outcome(c: Seq<EnvVarCheck>, o: Seq<Option<String>>, n: int) -> Seq<ResultView>
    decreases n,
{
    if n <= 0 {
        Seq::empty()
    } else {
        envs_outcome(c, o, n - 1) + env_outcome(c[n - 1], o[n - 1])
    }
}

pub open spec fn ports_outcome(c: Seq<u16>, o: Seq<bool>, n: int) -> Seq<ResultView>
    decreases n,
{
    if n <= 0 {
        Seq::empty()
    } else {
        ports_outcome(c, o, n - 1) + port_outcome(c[n - 1], o[n - 1])
    }
}

pub open spec fn files_outcome(c: Seq<FileCheck>, o: Seq<FileObservation>, n: int) -> Seq<ResultView>
    decreases n,
{
    if n <= 0 {
        Seq::empty()
    } else {
        files_outcome(c, o, n - 1) + file_outcome(c[n - 1], o[n - 1])
    }
}

pub open spec fn networks_outcome(c: Seq<NetworkCheck>, o: Seq<Result<u16, String>>, n: int) -> Seq<ResultView>
    decreases n,
{
    if n <= 0 {
        Seq::empty()
    } else {
        networks_outcome(c, o, n - 1) + network_outcome(c[n - 1], o[n - 1])
    }
}

/// Whether every list of observations matches the configuration's list in length.
pub open spec fn observations_match(config: Config, observed: Observations) -> bool {
    &&& observed.tools@.len() == config.tools@.len()
    &&& observed.env_vars@.len() == config.env_vars@.len()
    &&& observed.ports@.len() == config.ports@.len()
    &&& observed.files@.len() == config.files@.len()
    &&& observed.network@.len() == config.network@.len()
}

/// All results of a run: every tool entry's, then every environment
/// variable's, port's, file's and endpoint's, each list in its order.
pub open spec fn run_outcome(config: Config, observed: Observations) -> Seq<ResultView> {
    tools_outcome(config.tools@, observed.tools@, config.tools@.len() as int)
        + envs_outcome(config.env_vars@, observed.env_vars@, config.env_vars@.len() as int)
        + ports_outcome(config.ports@, observed.ports@, config.ports@.len() as int)
        + files_outcome(config.files@, observed.files@, config.files@.len() as int)
        + networks_outcome(config.network@, observed.network@, config.network@.len() as int)
}

proof fn lemma_views_append(a: Seq<ValidationResult>, b: Seq<ValidationResult>)
    ensures
        views(a + b) == views(a) + views(b),
{
    assert(views(a + b) =~= views(a) + views(b));
}

/// Appends the results of `more` to `out`.
fn append_results(out: &mut Vec<ValidationResult>, more: Vec<ValidationResult>)
    ensures
        views(final(out)@) == views(old(out)@) + views(more@),
{
    let mut m = more;
    proof {
        lemma_views_append(out@, m@);
    }
    out.append(&mut m);
}

fn run_tools(checks: &Vec<ToolCheck>, observed: Vec<ToolObservation>, out: &mut Vec<ValidationResult>)
    requires
        observed@.len() == checks@.len(),
    ensures
        views(final(out)@) == views(old(out)@) + tools_outcome(checks@, observed@, checks@.len() as int),
{
    let ghost all = observed@;
    let ghost start = views(out@);
    let mut rest = observed;
    let mut i: usize = 0;
    while i < checks.len()
        invariant
            all.len() == checks@.len(),
            i <= checks@.len(),
            rest@ == all.subrange(i as int, all.len() as int),
            views(out@) == start + tools_outcome(checks@, all, i as int),
        decreases checks.len() - i,
    {
        let o = rest.remove(0);
        assert(o == all[i as int]);
        let v = ToolValidator::new(checks[i].clone());
        let rs = v.validate(o);
        append_results(out, rs);
        assert(rest@ =~= all.subrange(i + 1, all.len() as int));
        i = i + 1;
    }
}

fn run_envs(checks: &Vec<EnvVarCheck>, observed: Vec<Option<String>>, out: &mut Vec<ValidationResult>)
    requires
        observed@.len() == checks@.len(),
    ensures
        views(final(out)@) == views(old(out)@) + envs_outcome(checks@, observed@, checks@.len() as int),
{
    let ghost all = observed@;
    let ghost start = views(out@);
    let mut rest = observed;
    let mut i: usize = 0;
    while i < checks.len()
        invariant
            all.len() == checks@.len(),
            i <= checks@.len(),
            rest@ == all.subrange(i as int, all.len() as int),
            views(out@) == start + envs_outcome(checks@, all, i as int),
        decreases checks.len() - i,
    {
        let o = rest.remove(0);
        assert(o == all[i as int]);
        let v = EnvValidator::new(checks[i].clone());
        let rs = v.validate(o);
        append_results(out, rs);
        assert(rest@ =~= all.subrange(i + 1, all.len() as int));
        i = i + 1;
    }
}

fn run_ports(ports: &Vec<u16>, observed: Vec<bool>, out: &mut Vec<ValidationResult>)
    requires
        observed@.len() == ports@.len(),
    ensures
        views(final(out)@) == views(old(out)@) + ports_outcome(ports@, observed@, ports@.len() as int),
{
    let ghost start = views(out@);
    let mut i: usize = 0;
    while i < ports.len()
        invariant
            observed@.len() == ports@.len(),
            i <= ports@.len(),
            views(out@) == start + ports_outcome(ports@, observed@, i as int),
        decreases ports.len() - i,
    {
        let v = PortValidator::new(ports[i]);
        let rs = v.validate(observed[i]);
        append_results(out, rs);
        i = i + 1;
    }
}

fn run_files(checks: &Vec<FileCheck>, observed: Vec<FileObservation>, out: &mut Vec<ValidationResult>)
    requires
        observed@.len() == checks@.len(),
    ensures
        views(final(out)@) == views(old(out)@) + files_outcome(checks@, observed@, checks@.len() as int),
{
    let ghost all = observed@;
    let ghost start = views(out@);
    let mut rest = observed;
    let mut i: usize = 0;
    while i < checks.len()
        invariant
            all.len() == checks@.len(),
            i <= checks@.len(),
            rest@ == all.subrange(i as int, all.len() as int),
            views(out@) == start + files_outcome(checks@, all, i as int),
        decreases checks.len() - i,
    {
        let o = rest.remove(0);
        assert(o == all[i as int]);
        let v = FileValidator::new(checks[i].clone());
        let rs = v.validate(o);
        append_results(out, rs);
        assert(rest@ =~= all.subrange(i + 1, all.len() as int));
        i = i + 1;
    }
}

fn run_networks(
    checks: &Vec<NetworkCheck>,
    observed: Vec<Result<u16, String>>,
    out: &mut Vec<ValidationResult>,
)
    requires
        observed@.len() == checks@.len(),
    ensures
        views(final(out)@) == views(old(out)@) + networks_outcome(checks@, observed@, checks@.len() as int),
{
    let ghost all = observed@;
    let ghost start = views(out@);
    let mut rest = observed;
    let mut i: usize = 0;
    while i < checks.len()
        invariant
            all.len() == checks@.len(),
            i <= checks@.len(),
            rest@ == all.subrange(i as int, all.len() as int),
            views(out@) == start + networks_outcome(checks@, all, i as int),
        decreases checks.len() - i,
    {
        let o = rest.remove(0);
        assert(o == all[i as int]);
        let v = NetworkValidator::new(checks[i].clone());
        let rs = v.validate(o);
        append_results(out, rs);
        assert(rest@ =~= all.subrange(i + 1, all.len() as int));
        i = i + 1;
    }
}

/// Runs every check of `config` against what was observed for it and
/// concatenates the results: tools, then environment variables, ports,
/// files and endpoints, each list in its order. All checks always run.
/// Fails only when the observations do not match the configuration's lists.
pub fn run_all_validations(config: &Config, observed: Observations) -> (r: Result<Vec<ValidationResult>, RunError>)
    ensures
        observations_match(*config, observed) <==> r is Ok,
        r is Ok ==> views(r->Ok_0@) == run_outcome(*config, observed),
        r is Err ==> r->Err_0 == RunError::ObservationCount,
{
    if observed.tools.len() != config.tools.len() || observed.env_vars.len() != config.env_vars.len()
        || observed.ports.len() != config.ports.len() || observed.files.len() != config.files.len()
        || observed.network.len() != config.network.len() {
        return Err(RunError::ObservationCount);
    }
    let ghost obs = observed;
    let Observations { tools, env_vars, ports, files, network } = observed;
    let mut out: Vec<ValidationResult> = Vec::new();
    assert(views(out@) =~= Seq::<ResultView>::empty());
    run_tools(&config.tools, tools, &mut out);
    run_envs(&config.env_vars, env_vars, &mut out);
    run_ports(&config.ports, ports, &mut out);
    run_files(&config.files, files, &mut out);
    run_networks(&config.network, network, &mut out);
    assert(views(out@) =~= run_outcome(*config, obs));
    Ok(out)
}

} // verus!
